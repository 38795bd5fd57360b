use media_lib::DeviceKind;
use media_lib::HardwareCandidate;
use media_lib::HardwareContext;
use media_lib::MediaLibError;
use media_lib::PIX_FMT_NONE;
use media_lib::StreamInfo;
use media_lib::negotiate_pixel_format;
use media_lib::next_eligible_candidate;
use media_lib::probe_hardware;
use media_lib::select_best_stream;

fn candidate(device_type: DeviceKind, pixel_format: i32, supported: bool) -> HardwareCandidate {
    HardwareCandidate { device_type, pixel_format, supports_device_context: supported }
}

#[test]
fn probe_keeps_first_successful_candidate() {
    let candidates = vec![
        candidate(DeviceKind::Cuda, 23, true),
        candidate(DeviceKind::VideoToolbox, 160, true),
    ];
    // CUDA device creation fails, VideoToolbox succeeds.
    let ctx = probe_hardware(&candidates, &vec![false, true]).unwrap();
    assert_eq!(ctx.device_type(), DeviceKind::VideoToolbox);
    assert_eq!(ctx.pixel_format(), 160);
}

#[test]
fn probe_skips_candidates_without_device_context() {
    let candidates = vec![
        candidate(DeviceKind::Cuda, 23, false),
        candidate(DeviceKind::VideoToolbox, 160, true),
    ];
    // The first candidate's "successful" creation does not count: it does
    // not decode through a device context.
    let ctx = probe_hardware(&candidates, &vec![true, true]).unwrap();
    assert_eq!(ctx.device_type(), DeviceKind::VideoToolbox);
}

#[test]
fn probe_on_unsupported_host_reports_no_hardware() {
    let candidates = vec![
        candidate(DeviceKind::Cuda, 23, true),
        candidate(DeviceKind::VideoToolbox, 160, true),
    ];
    // No device can be created: software-only operation, not an error.
    assert!(probe_hardware(&candidates, &vec![false, false]).is_none());
    assert!(probe_hardware(&vec![], &vec![]).is_none());
}

#[test]
fn next_eligible_candidate_walks_in_order() {
    let candidates = vec![
        candidate(DeviceKind::Cuda, 23, false),
        candidate(DeviceKind::VideoToolbox, 160, true),
        candidate(DeviceKind::Other, 1, true),
    ];
    assert_eq!(next_eligible_candidate(&candidates, 0), Some(1));
    assert_eq!(next_eligible_candidate(&candidates, 2), Some(2));
    assert_eq!(next_eligible_candidate(&candidates, 3), None);
}

#[test]
fn failed_device_creation_is_an_error_for_that_candidate() {
    match HardwareContext::new(DeviceKind::Cuda, 23, false) {
        Err(MediaLibError::FFmpegError(m)) => {
            assert_eq!(m, "Failed to create hardware device context for Cuda");
        },
        other => panic!("expected a device error, got {:?}", other),
    }
    match HardwareContext::new(DeviceKind::VideoToolbox, 160, false) {
        Err(MediaLibError::FFmpegError(m)) => {
            assert_eq!(m, "Failed to create hardware device context for VideoToolbox");
        },
        other => panic!("expected a device error, got {:?}", other),
    }
    let ctx = HardwareContext::new(DeviceKind::Cuda, 23, true).unwrap();
    assert_eq!(ctx.device_type(), DeviceKind::Cuda);
    assert_eq!(ctx.pixel_format(), 23);
}

#[test]
fn negotiation_returns_the_desired_format_when_offered() {
    assert_eq!(negotiate_pixel_format(&vec![0, 23, 160], 23), 23);
    assert_eq!(negotiate_pixel_format(&vec![23], 23), 23);
}

#[test]
fn negotiation_falls_back_to_none_when_not_offered() {
    assert_eq!(negotiate_pixel_format(&vec![0, 160], 23), PIX_FMT_NONE);
    assert_eq!(negotiate_pixel_format(&vec![], 23), PIX_FMT_NONE);
}

#[test]
fn best_stream_takes_highest_score() {
    let streams = vec![
        StreamInfo { index: 0, is_video: false, score: 100 },
        StreamInfo { index: 1, is_video: true, score: 10 },
        StreamInfo { index: 2, is_video: true, score: 50 },
    ];
    assert_eq!(select_best_stream(&streams), Some(2));
}

#[test]
fn best_stream_breaks_ties_by_earliest() {
    let streams = vec![
        StreamInfo { index: 0, is_video: true, score: 50 },
        StreamInfo { index: 1, is_video: true, score: 50 },
    ];
    assert_eq!(select_best_stream(&streams), Some(0));
}

#[test]
fn no_video_stream_selects_nothing() {
    let streams = vec![
        StreamInfo { index: 0, is_video: false, score: 100 },
        StreamInfo { index: 1, is_video: false, score: 7 },
    ];
    assert_eq!(select_best_stream(&streams), None);
    assert_eq!(select_best_stream(&vec![]), None);
}
