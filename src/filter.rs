use vstd::prelude::*;

verus! {

/// Pixel program for the CIE Lab lightness filter (shader model 5 source).
pub const LAB_GRAYSCALE_FRAGMENT_SHADER: &'static str = r#"
Texture2D frameTexture : register(t0);
SamplerState frameSampler : register(s0);

float3 srgb_to_linear(float3 c)
{
    float3 curve = pow((c * 200 + 11) / 211, float(12) / 5);
    float3 lin = c <= float(809) / 20000 ? c * 25 / 323 : curve;
    return c <= 0 ? c : lin;
}

float4 main(float4 pos : SV_Position, float2 tex : TEXCOORD) : SV_Target
{
    float3 rgb = srgb_to_linear(frameTexture.Sample(frameSampler, tex).rgb);
    float y = dot(rgb, float3(2126729, 7151522, 721750) / 10000000);
    float epsilon = float(216) / 24389;
    float kappa = float(24389) / 27;
    float f = y > epsilon ? pow(y, float(1) / 3) : (kappa * y + 16) / 116;
    float l = (116 * f - 16) / 100;
    return float4(l, l, l, 1);
}
"#;

/// Pixel program for the Oklab lightness filter (shader model 5 source).
pub const OKLAB_GRAYSCALE_FRAGMENT_SHADER: &'static str = r#"
Texture2D frameTexture : register(t0);
SamplerState frameSampler : register(s0);

float3 srgb_to_linear(float3 c)
{
    float3 curve = pow((c * 200 + 11) / 211, float(12) / 5);
    float3 lin = c <= float(809) / 20000 ? c * 25 / 323 : curve;
    return c <= 0 ? c : lin;
}

float4 main(float4 pos : SV_Position, float2 tex : TEXCOORD) : SV_Target
{
    float3 rgb = srgb_to_linear(frameTexture.Sample(frameSampler, tex).rgb);
    float3 lms = float3(
        dot(rgb, float3(412221471, 536332536, 51445993)),
        dot(rgb, float3(211903498, 680699545, 107396957)),
        dot(rgb, float3(88302462, 281718838, 629978701))) / 1000000000;
    float3 lms_root = pow(lms, float(1) / 3);
    float l = dot(lms_root, float3(210454255, 793617785, -4072047)) / 1000000000;
    return float4(l, l, l, 1);
}
"#;

/// The two lightness definitions the filter can apply; both discard chroma.
#[derive(Debug, Clone, Copy, PartialEq, Eq, Structural)]
pub enum FilterMode {
    OklabGrayscale,
    LabGrayscale,
}

impl FilterMode {
    /// Source text of the pixel program implementing this mode.
    pub open spec fn shader_source(self) -> Seq<char> {
        match self {
            FilterMode::OklabGrayscale => OKLAB_GRAYSCALE_FRAGMENT_SHADER@,
            FilterMode::LabGrayscale => LAB_GRAYSCALE_FRAGMENT_SHADER@,
        }
    }

    /// The pixel program source to compile for this mode.
    pub fn fragment_shader(&self) -> (r: &'static str)
        ensures
            r@ == self.shader_source(),
    {
        match self {
            FilterMode::OklabGrayscale => OKLAB_GRAYSCALE_FRAGMENT_SHADER,
            FilterMode::LabGrayscale => LAB_GRAYSCALE_FRAGMENT_SHADER,
        }
    }
}

} // verus!
