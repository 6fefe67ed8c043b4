use vstd::prelude::*;

verus! {

/// Channel layout of an 8-bit, four-channel frame.
#[derive(Debug, Clone, Copy, PartialEq, Eq, Structural)]
pub enum PixelFormat {
    /// Blue, green, red, alpha: the layout of every destination texture.
    Bgra8,
    /// Red, green, blue, alpha: the mirror image of `Bgra8`.
    Rgba8,
    /// Any layout the pipeline does not transfer.
    Other,
}

/// Shape of a frame the operating system handed out.
#[derive(Debug, Clone, Copy, PartialEq, Eq, Structural)]
pub struct FrameInfo {
    pub format: PixelFormat,
    pub width: u32,
    pub height: u32,
}

/// What a zero-timeout poll of one duplication session produced.
#[derive(Debug, Clone, Copy, PartialEq, Eq, Structural)]
pub enum AcquireOutcome {
    /// A new frame was acquired; it must be released again.
    Frame(FrameInfo),
    /// No new frame within the poll window.
    TimedOut,
    /// The session was invalidated and must be rebuilt.
    AccessLost,
    /// Any other acquire error; treated like a missed frame.
    Failed,
}

/// How an acquired frame reaches the destination texture.
#[derive(Debug, Clone, Copy, PartialEq, Eq, Structural)]
pub enum TransferPath {
    /// Direct region copy on the GPU.
    GpuCopy,
    /// Copy through a CPU-visible staging texture, swapping red and blue.
    CpuSwizzle,
    /// Leave the destination untouched this cycle.
    Skip,
}

/// Result of one capture attempt for one output.
#[derive(Debug, Clone, Copy, PartialEq, Eq, Structural)]
pub enum CaptureStatus {
    Updated,
    Skipped,
    AccessLost,
}

/// Everything the caller has to do with one poll result.
#[derive(Debug, Clone, Copy, PartialEq, Eq, Structural)]
pub struct CapturePlan {
    pub transfer: TransferPath,
    /// Whether the acquired frame has to be released afterwards.
    pub release_frame: bool,
    pub status: CaptureStatus,
}

/// Picks the transfer for a frame into a BGRA destination of the given size.
pub fn transfer_path(frame: FrameInfo, dest_width: u32, dest_height: u32) -> (r: TransferPath)
    ensures
        r == TransferPath::GpuCopy <==> (frame.format == PixelFormat::Bgra8 && frame.width
            == dest_width && frame.height == dest_height),
        r == TransferPath::CpuSwizzle <==> (frame.format == PixelFormat::Rgba8 && frame.width
            == dest_width && frame.height == dest_height),
        r == TransferPath::Skip <==> (frame.format == PixelFormat::Other || frame.width
            != dest_width || frame.height != dest_height),
{
    if frame.width != dest_width || frame.height != dest_height {
        return TransferPath::Skip;
    }
    match frame.format {
        PixelFormat::Bgra8 => TransferPath::GpuCopy,
        PixelFormat::Rgba8 => TransferPath::CpuSwizzle,
        PixelFormat::Other => TransferPath::Skip,
    }
}

/// Decides what to do with one poll result of an output whose destination
/// texture is `dest_width` by `dest_height`.
pub fn plan_capture(outcome: AcquireOutcome, dest_width: u32, dest_height: u32) -> (r: CapturePlan)
    ensures
        r.release_frame <==> outcome is Frame,
        outcome is Frame ==> r.transfer == transfer_path_of(outcome->0, dest_width, dest_height),
        outcome !is Frame ==> r.transfer == TransferPath::Skip,
        r.status == CaptureStatus::AccessLost <==> outcome is AccessLost,
        r.status == CaptureStatus::Updated <==> r.transfer != TransferPath::Skip,
{
    match outcome {
        AcquireOutcome::Frame(frame) => {
            let transfer = transfer_path(frame, dest_width, dest_height);
            let status = match transfer {
                TransferPath::Skip => CaptureStatus::Skipped,
                _ => CaptureStatus::Updated,
            };
            CapturePlan { transfer, release_frame: true, status }
        },
        AcquireOutcome::AccessLost => CapturePlan {
            transfer: TransferPath::Skip,
            release_frame: false,
            status: CaptureStatus::AccessLost,
        },
        _ => CapturePlan {
            transfer: TransferPath::Skip,
            release_frame: false,
            status: CaptureStatus::Skipped,
        },
    }
}

/// The transfer `transfer_path` picks, as a value.
pub open spec fn transfer_path_of(frame: FrameInfo, dest_width: u32, dest_height: u32) -> TransferPath {
    if frame.width != dest_width || frame.height != dest_height {
        TransferPath::Skip
    } else {
        match frame.format {
            PixelFormat::Bgra8 => TransferPath::GpuCopy,
            PixelFormat::Rgba8 => TransferPath::CpuSwizzle,
            PixelFormat::Other => TransferPath::Skip,
        }
    }
}

/// Which source channel lands in destination channel `c` of a pixel.
pub open spec fn source_channel(c: int, swap_red_blue: bool) -> int {
    if swap_red_blue && (c == 0 || c == 2) {
        2 - c
    } else {
        c
    }
}

/// Byte `c` of pixel `x` in row `y` of an image whose rows start `row_stride` bytes apart.
pub open spec fn pixel_byte(bytes: Seq<u8>, row_stride: int, y: int, x: int, c: int) -> u8 {
    bytes[y * row_stride + 4 * x + c]
}

/// Copies a mapped frame with rows `row_pitch` bytes apart into a tightly
/// packed BGRA image, `width` by `height` pixels. With `swap_red_blue` the
/// source is read as RGBA and red and blue trade places in every pixel.
pub fn pack_rows(src: &[u8], row_pitch: usize, width: usize, height: usize, swap_red_blue: bool) -> (r: Vec<u8>)
    requires
        4 * width <= row_pitch,
        height > 0 ==> (height - 1) * row_pitch + 4 * width <= src@.len(),
        4 * width * height <= usize::MAX,
    ensures
        r@.len() == 4 * width * height,
        forall|y: int, x: int, c: int|
            0 <= y < height && 0 <= x < width && 0 <= c < 4 ==> #[trigger] pixel_byte(
                r@,
                4 * width,
                y,
                x,
                c,
            ) == pixel_byte(src@, row_pitch as int, y, x, source_channel(c, swap_red_blue)),
{
    let src_len: usize = src.len();
    let row_bytes: usize = 4 * width;
    let mut out: Vec<u8> = Vec::new();
    let mut y: usize = 0;
    while y < height
        invariant
            row_bytes == 4 * width,
            4 * width <= row_pitch,
            height > 0 ==> (height - 1) * row_pitch + 4 * width <= src@.len(),
            4 * width * height <= usize::MAX,
            src_len == src@.len(),
            y <= height,
            out@.len() == y * row_bytes,
            forall|yy: int, x: int, c: int|
                0 <= yy < y && 0 <= x < width && 0 <= c < 4 ==> #[trigger] pixel_byte(
                    out@,
                    row_bytes as int,
                    yy,
                    x,
                    c,
                ) == pixel_byte(src@, row_pitch as int, yy, x, source_channel(c, swap_red_blue)),
        decreases height - y,
    {
        assert(y * row_pitch <= (height - 1) * row_pitch) by (nonlinear_arith)
            requires
                y < height,
        ;
        assert(0 <= y * row_pitch) by (nonlinear_arith);
        let row_start: usize = y * row_pitch;
        let ghost done = out@;
        let mut x: usize = 0;
        while x < width
            invariant
                row_bytes == 4 * width,
                4 * width <= row_pitch,
                row_start == y * row_pitch,
                row_start + 4 * width <= src@.len(),
                src_len == src@.len(),
                y < height,
                x <= width,
                done.len() == y * row_bytes,
                out@.len() == y * row_bytes + 4 * x,
                out@.subrange(0, done.len() as int) == done,
                forall|xx: int, c: int|
                    0 <= xx < x && 0 <= c < 4 ==> #[trigger] pixel_byte(out@, row_bytes as int, y as int, xx, c)
                        == pixel_byte(src@, row_pitch as int, y as int, xx, source_channel(c, swap_red_blue)),
            decreases width - x,
        {
            let ghost before = out@;
            let at: usize = row_start + 4 * x;
            let red_or_blue = src[at];
            let green = src[at + 1];
            let blue_or_red = src[at + 2];
            let alpha = src[at + 3];
            if swap_red_blue {
                out.push(blue_or_red);
                out.push(green);
                out.push(red_or_blue);
            } else {
                out.push(red_or_blue);
                out.push(green);
                out.push(blue_or_red);
            }
            out.push(alpha);
            assert forall|xx: int, c: int|
                0 <= xx < x + 1 && 0 <= c < 4 implies #[trigger] pixel_byte(out@, row_bytes as int, y as int, xx, c)
                    == pixel_byte(src@, row_pitch as int, y as int, xx, source_channel(c, swap_red_blue)) by {
                if xx < x {
                    assert(out@[y * row_bytes + 4 * xx + c] == before[y * row_bytes + 4 * xx + c]);
                    assert(pixel_byte(before, row_bytes as int, y as int, xx, c) == pixel_byte(
                        src@,
                        row_pitch as int,
                        y as int,
                        xx,
                        source_channel(c, swap_red_blue),
                    ));
                }
            }
            assert(out@.subrange(0, done.len() as int) =~= done) by {
                assert(before.subrange(0, done.len() as int) == done);
            }
            x = x + 1;
        }
        assert forall|yy: int, xx: int, c: int|
            0 <= yy < y + 1 && 0 <= xx < width && 0 <= c < 4 implies #[trigger] pixel_byte(
                out@,
                row_bytes as int,
                yy,
                xx,
                c,
            ) == pixel_byte(src@, row_pitch as int, yy, xx, source_channel(c, swap_red_blue)) by {
            if yy < y {
                assert(yy * row_bytes + 4 * xx + c < y * row_bytes) by (nonlinear_arith)
                    requires
                        0 <= yy < y,
                        0 <= xx < width,
                        0 <= c < 4,
                        row_bytes == 4 * width,
                ;
                assert(out@.subrange(0, done.len() as int)[yy * row_bytes + 4 * xx + c] == done[yy
                    * row_bytes + 4 * xx + c]);
                assert(pixel_byte(done, row_bytes as int, yy, xx, c) == pixel_byte(
                    src@,
                    row_pitch as int,
                    yy,
                    xx,
                    source_channel(c, swap_red_blue),
                ));
            }
        }
        assert(y * row_bytes + 4 * width == (y + 1) * row_bytes) by (nonlinear_arith)
            requires
                row_bytes == 4 * width,
        ;
        y = y + 1;
    }
    assert(height * row_bytes == 4 * width * height) by (nonlinear_arith)
        requires
            row_bytes == 4 * width,
    ;
    out
}

} // verus!
