use screen_filter::{
    pack_rows, plan_capture, transfer_path, AcquireOutcome, CaptureStatus, FrameInfo, PixelFormat,
    TransferPath,
};

fn frame(format: PixelFormat, width: u32, height: u32) -> FrameInfo {
    FrameInfo { format, width, height }
}

#[test]
fn bgra_frame_of_matching_size_is_copied_on_the_gpu() {
    assert_eq!(transfer_path(frame(PixelFormat::Bgra8, 1920, 1080), 1920, 1080), TransferPath::GpuCopy);
}

#[test]
fn rgba_frame_of_matching_size_goes_through_the_cpu() {
    assert_eq!(transfer_path(frame(PixelFormat::Rgba8, 1920, 1080), 1920, 1080), TransferPath::CpuSwizzle);
}

#[test]
fn mismatched_size_or_unknown_format_is_skipped() {
    assert_eq!(transfer_path(frame(PixelFormat::Bgra8, 1280, 1080), 1920, 1080), TransferPath::Skip);
    assert_eq!(transfer_path(frame(PixelFormat::Rgba8, 1920, 720), 1920, 1080), TransferPath::Skip);
    assert_eq!(transfer_path(frame(PixelFormat::Other, 1920, 1080), 1920, 1080), TransferPath::Skip);
}

#[test]
fn acquired_frame_is_always_released() {
    let updated = plan_capture(AcquireOutcome::Frame(frame(PixelFormat::Bgra8, 800, 600)), 800, 600);
    assert_eq!(updated.transfer, TransferPath::GpuCopy);
    assert!(updated.release_frame);
    assert_eq!(updated.status, CaptureStatus::Updated);

    let skipped = plan_capture(AcquireOutcome::Frame(frame(PixelFormat::Other, 800, 600)), 800, 600);
    assert_eq!(skipped.transfer, TransferPath::Skip);
    assert!(skipped.release_frame);
    assert_eq!(skipped.status, CaptureStatus::Skipped);
}

#[test]
fn poll_without_frame_touches_nothing() {
    let timed_out = plan_capture(AcquireOutcome::TimedOut, 800, 600);
    assert_eq!(timed_out.transfer, TransferPath::Skip);
    assert!(!timed_out.release_frame);
    assert_eq!(timed_out.status, CaptureStatus::Skipped);

    let failed = plan_capture(AcquireOutcome::Failed, 800, 600);
    assert!(!failed.release_frame);
    assert_eq!(failed.status, CaptureStatus::Skipped);

    let lost = plan_capture(AcquireOutcome::AccessLost, 800, 600);
    assert_eq!(lost.transfer, TransferPath::Skip);
    assert!(!lost.release_frame);
    assert_eq!(lost.status, CaptureStatus::AccessLost);
}

#[test]
fn rgba_rows_are_packed_as_bgra() {
    // two pixels per row, rows 12 bytes apart (4 bytes of padding)
    let src: Vec<u8> = vec![
        1, 2, 3, 4, 5, 6, 7, 8, 99, 99, 99, 99, //
        9, 10, 11, 12, 13, 14, 15, 16,
    ];
    let out = pack_rows(&src, 12, 2, 2, true);
    assert_eq!(out, vec![3, 2, 1, 4, 7, 6, 5, 8, 11, 10, 9, 12, 15, 14, 13, 16]);
}

#[test]
fn bgra_rows_are_copied_unchanged() {
    let src: Vec<u8> = vec![
        1, 2, 3, 4, 0, 0, //
        5, 6, 7, 8, 0, 0, //
        9, 10, 11, 12,
    ];
    let out = pack_rows(&src, 6, 1, 3, false);
    assert_eq!(out, vec![1, 2, 3, 4, 5, 6, 7, 8, 9, 10, 11, 12]);
}

#[test]
fn empty_frame_packs_to_nothing() {
    let src: Vec<u8> = Vec::new();
    assert!(pack_rows(&src, 16, 4, 0, true).is_empty());
}
