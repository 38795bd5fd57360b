use media_lib::DecoderPhase;
use media_lib::HardwareAcceleratedVideoDecoder;
use media_lib::HardwareContext;
use media_lib::DeviceKind;
use media_lib::MediaLibError;
use media_lib::PacketSource;
use media_lib::ReceiveOutcome;
use media_lib::DecodedVideoFrame;
use media_lib::NEED_MORE_DATA;
use media_lib::PIX_FMT_YUV420P;
use media_lib::VideoSize;

fn test_frame(width: u32, height: u32, pts: i64, key: bool) -> DecodedVideoFrame {
    let mut f = DecodedVideoFrame::new_tight_yuv420p(width, height, 16, 128, 128);
    f.pts = pts;
    f.key_frame = key;
    f
}

// A clip-like script: for each frame, the codec first asks for a packet,
// then hands the frame out; at the end it reports end of stream.
fn clip_script(width: u32, height: u32, frames: usize) -> Vec<ReceiveOutcome> {
    let mut replies = Vec::new();
    for i in 0..frames {
        replies.push(ReceiveOutcome::StatusCode { errno: NEED_MORE_DATA });
        replies.push(ReceiveOutcome::Decoded(test_frame(width, height, i as i64, i == 0)));
    }
    replies.push(ReceiveOutcome::EndOfStream);
    replies
}

fn video_only_source(n: usize) -> PacketSource {
    PacketSource { packets: vec![0usize; n], pos: 0 }
}

#[test]
fn yields_every_frame_then_none_forever() {
    let mut dec = HardwareAcceleratedVideoDecoder::new(0, None, None, 1, 25);
    let mut replies = clip_script(320, 240, 5);
    let mut source = video_only_source(5);

    let mut count = 0;
    loop {
        match dec.get_frame(&mut replies, &mut source) {
            Some(Ok(_)) => count += 1,
            Some(Err(e)) => panic!("unexpected error: {:?}", e),
            None => break,
        }
    }
    assert_eq!(count, 5);

    // Exhaustion is stable and repeatable.
    for _ in 0..10 {
        assert!(dec.get_frame(&mut replies, &mut source).is_none());
    }
    assert_eq!(dec.phase, DecoderPhase::Exhausted);
}

#[test]
fn drains_buffered_frames_after_end_of_stream() {
    // Two frames still come out of the codec after the packet source is
    // exhausted.
    let mut replies = vec![
        ReceiveOutcome::StatusCode { errno: NEED_MORE_DATA },
        ReceiveOutcome::Decoded(test_frame(64, 48, 0, true)),
        ReceiveOutcome::StatusCode { errno: NEED_MORE_DATA },
        ReceiveOutcome::Decoded(test_frame(64, 48, 1, false)),
        ReceiveOutcome::Decoded(test_frame(64, 48, 2, false)),
        ReceiveOutcome::StatusCode { errno: NEED_MORE_DATA },
    ];
    let mut source = video_only_source(1);
    let mut dec = HardwareAcceleratedVideoDecoder::new(0, None, None, 1, 25);

    let (frames, err) = dec.decode_all(&mut replies, &mut source);
    assert_eq!(frames.len(), 3);
    assert!(err.is_none());
    assert_eq!(dec.phase, DecoderPhase::Exhausted);
}

#[test]
fn skips_packets_of_other_streams() {
    let mut replies = vec![
        ReceiveOutcome::StatusCode { errno: NEED_MORE_DATA },
        ReceiveOutcome::Decoded(test_frame(64, 48, 0, true)),
        ReceiveOutcome::EndOfStream,
    ];
    // Audio packets (stream 1) come before the video packet (stream 2).
    let mut source = PacketSource { packets: vec![1, 1, 2, 1], pos: 0 };
    let mut dec = HardwareAcceleratedVideoDecoder::new(2, None, None, 1, 25);

    let (frames, err) = dec.decode_all(&mut replies, &mut source);
    assert_eq!(frames.len(), 1);
    assert!(err.is_none());
    // The scan consumed the two audio packets and the video packet.
    assert_eq!(source.pos, 3);
}

#[test]
fn clip_scaled_to_p240_has_target_dimensions_and_a_key_frame() {
    // A 10-second 25 fps 1280x720 clip, decoded with target size 426x240.
    let (tw, th) = VideoSize::P240.dimensions();
    assert_eq!((tw, th), (426, 240));
    let n = 250;
    let mut replies = clip_script(1280, 720, n);
    let mut source = video_only_source(n);
    let mut dec = HardwareAcceleratedVideoDecoder::new(0, Some((tw, th)), None, 1, 25);

    let (frames, err) = dec.decode_all(&mut replies, &mut source);
    assert!(err.is_none());
    assert_eq!(frames.len(), n);
    for f in &frames {
        assert_eq!(f.get_width(), 426);
        assert_eq!(f.get_height(), 240);
        assert_eq!(f.get_format(), PIX_FMT_YUV420P);
        assert_eq!(f.plane_count(), 3, "YUV420p should have 3 planes");
        assert_eq!(f.data(0).len(), 426 * 240, "Y plane size mismatch");
        assert_eq!(f.data(1).len(), 426 * 240 / 4, "U plane size mismatch");
        assert_eq!(f.data(2).len(), 426 * 240 / 4, "V plane size mismatch");
        assert!(f.data(0).iter().all(|&x| x <= 255), "Y values out of range");
    }
    assert!(frames.iter().any(|f| f.get_key_frame() == 1));
}

#[test]
fn unscaled_frames_keep_source_dimensions() {
    let mut replies = clip_script(1280, 720, 2);
    let mut source = video_only_source(2);
    let mut dec = HardwareAcceleratedVideoDecoder::new(0, None, None, 1, 25);

    let (frames, err) = dec.decode_all(&mut replies, &mut source);
    assert!(err.is_none());
    assert_eq!(frames.len(), 2);
    for f in &frames {
        assert_eq!(f.get_width(), 1280);
        assert_eq!(f.get_height(), 720);
    }
}

#[test]
fn software_fallback_yields_identical_sequence() {
    let (tw, th) = VideoSize::P240.dimensions();
    let hw_session = HardwareContext::new(DeviceKind::Cuda, 23, true).unwrap();

    let mut replies_hw = clip_script(1280, 720, 4);
    let mut source_hw = video_only_source(4);
    let mut with_hw = HardwareAcceleratedVideoDecoder::new(0, Some((tw, th)), Some(hw_session), 1, 25);
    let (frames_hw, err_hw) = with_hw.decode_all(&mut replies_hw, &mut source_hw);

    let mut replies_sw = clip_script(1280, 720, 4);
    let mut source_sw = video_only_source(4);
    let mut without_hw = HardwareAcceleratedVideoDecoder::new(0, Some((tw, th)), None, 1, 25);
    let (frames_sw, err_sw) = without_hw.decode_all(&mut replies_sw, &mut source_sw);

    assert!(err_hw.is_none());
    assert!(err_sw.is_none());
    // The runs agree on everything but the scaler's sample values.
    assert_eq!(frames_hw.len(), frames_sw.len());
    for (a, b) in frames_hw.iter().zip(frames_sw.iter()) {
        assert_eq!((a.get_width(), a.get_height()), (b.get_width(), b.get_height()));
        assert_eq!(a.get_format(), b.get_format());
        assert_eq!(a.get_pts(), b.get_pts());
        assert_eq!(a.get_key_frame(), b.get_key_frame());
        assert_eq!(a.plane_count(), b.plane_count());
        for idx in 0..a.plane_count() {
            assert_eq!(a.stride(idx), b.stride(idx));
            assert_eq!(a.data(idx).len(), b.data(idx).len());
        }
    }
}

#[test]
fn fatal_status_code_stops_the_decoder() {
    let mut replies = vec![
        ReceiveOutcome::StatusCode { errno: NEED_MORE_DATA },
        ReceiveOutcome::Decoded(test_frame(64, 48, 0, true)),
        ReceiveOutcome::StatusCode { errno: 1 },
        ReceiveOutcome::Decoded(test_frame(64, 48, 1, false)),
    ];
    let mut source = video_only_source(4);
    let mut dec = HardwareAcceleratedVideoDecoder::new(0, None, None, 1, 25);

    assert!(matches!(dec.get_frame(&mut replies, &mut source), Some(Ok(_))));
    match dec.get_frame(&mut replies, &mut source) {
        Some(Err(MediaLibError::FFmpegError(m))) => {
            assert_eq!(m, "Failed to receive frame: 1");
        },
        other => panic!("expected a fatal codec error, got {:?}", other),
    }
    assert_eq!(dec.phase, DecoderPhase::Failed);
    // A failed decoder never yields again.
    assert!(dec.get_frame(&mut replies, &mut source).is_none());
}

#[test]
fn codec_message_errors_are_forwarded() {
    let mut replies = vec![ReceiveOutcome::OtherError(String::from("device lost"))];
    let mut source = video_only_source(0);
    let mut dec = HardwareAcceleratedVideoDecoder::new(0, None, None, 1, 25);

    let (frames, err) = dec.decode_all(&mut replies, &mut source);
    assert!(frames.is_empty());
    match err {
        Some(MediaLibError::FFmpegError(m)) => assert_eq!(m, "device lost"),
        other => panic!("expected the codec's message, got {:?}", other),
    }
}

#[test]
fn graph_is_planned_once_and_reused() {
    let (tw, th) = VideoSize::P240.dimensions();
    let mut replies = clip_script(1280, 720, 3);
    let mut source = video_only_source(3);
    let mut dec = HardwareAcceleratedVideoDecoder::new(0, Some((tw, th)), None, 1, 25);

    assert!(dec.graph.is_none());
    assert!(matches!(dec.get_frame(&mut replies, &mut source), Some(Ok(_))));
    let planned = dec.graph.clone().expect("graph planned on first frame");
    assert_eq!(planned.target_width, 426);
    assert_eq!(planned.target_height, 240);
    assert_eq!(planned.source_width, 1280);
    assert_eq!(planned.source_height, 720);
    assert!(matches!(dec.get_frame(&mut replies, &mut source), Some(Ok(_))));
    assert_eq!(dec.graph, Some(planned));
}

#[test]
fn wrong_geometry_from_the_graph_is_fatal() {
    let mut dec = HardwareAcceleratedVideoDecoder::new(0, Some((426, 240)), None, 1, 25);
    let stray = test_frame(640, 360, 0, false);
    match dec.processed_frame(Ok(stray)) {
        Err(MediaLibError::FFmpegError(m)) => {
            assert_eq!(m, "Processing graph returned a frame of the wrong size");
        },
        other => panic!("expected a graph error, got {:?}", other),
    }
    assert_eq!(dec.phase, DecoderPhase::Failed);

    let mut dec = HardwareAcceleratedVideoDecoder::new(0, Some((426, 240)), None, 1, 25);
    let good = test_frame(426, 240, 7, true);
    let out = dec.processed_frame(Ok(good.clone())).unwrap();
    assert_eq!(out, good);
    assert_eq!(dec.phase, DecoderPhase::Streaming);
}

#[test]
fn failed_feeds_end_the_decoder() {
    let mut dec = HardwareAcceleratedVideoDecoder::new(0, None, None, 1, 25);
    let e = dec.feed_failed(String::from("send queue full"));
    match e {
        MediaLibError::FFmpegError(m) => assert_eq!(m, "send queue full"),
        other => panic!("expected the feed error, got {:?}", other),
    }
    assert_eq!(dec.phase, DecoderPhase::Failed);
    // A failed decoder never yields again.
    let mut replies = clip_script(64, 48, 1);
    let mut source = video_only_source(1);
    assert!(dec.get_frame(&mut replies, &mut source).is_none());
}
