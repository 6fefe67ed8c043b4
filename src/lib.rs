//! Decision logic of a whole-desktop color filter: per-display capture,
//! frame transfer planning, compositing, recovery and visibility control.
pub mod capture;
pub mod compositor;
pub mod filter;
pub mod keys;
pub mod pipeline;
pub mod update;

pub use capture::{
    pack_rows, plan_capture, transfer_path, AcquireOutcome, CapturePlan, CaptureStatus, FrameInfo,
    PixelFormat, TransferPath,
};
pub use compositor::{
    frame_commands, output_viewport, DesktopBounds, DrawCommand, OutputPlacement, Viewport,
    QUAD_VERTEX_COUNT,
};
pub use filter::FilterMode;
pub use keys::{Config, KeySequence, KeySequenceError};
pub use pipeline::{
    CaptureCycle, CycleStep, Pipeline, PipelineError, PipelineState, SurfaceChange, Tick, Work,
    IDLE_SLEEP_MS,
};
pub use update::{newer_release, Release};
