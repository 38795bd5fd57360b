use media_lib::DecodedVideoFrame;
use media_lib::FramePlane;
use media_lib::PIX_FMT_YUV420P;
use media_lib::pack_plane;
use media_lib::pack_planar_frame;
use media_lib::scale_frame;

#[test]
fn yuv420p_plane_sizes_even_dimensions() {
    let f = DecodedVideoFrame::new_tight_yuv420p(426, 240, 0, 0, 0);
    assert_eq!(f.data(0).len(), 426 * 240);
    assert_eq!(f.data(1).len(), 213 * 120);
    assert_eq!(f.data(2).len(), 213 * 120);
    assert_eq!(f.plane_count(), 3);
    assert_eq!(f.get_format(), PIX_FMT_YUV420P);
}

#[test]
fn yuv420p_plane_sizes_odd_dimensions() {
    // Chroma planes round the half resolution up.
    let f = DecodedVideoFrame::new_tight_yuv420p(5, 3, 0, 0, 0);
    assert_eq!(f.data(0).len(), 15);
    assert_eq!(f.data(1).len(), 3 * 2);
    assert_eq!(f.data(2).len(), 3 * 2);
}

#[test]
fn strides_cover_row_widths() {
    let f = DecodedVideoFrame::new_tight_yuv420p(426, 240, 0, 0, 0);
    for idx in 0..f.plane_count() {
        assert!(f.stride(idx) >= f.data(idx).len() / (if idx == 0 { 240 } else { 120 }));
    }
    assert_eq!(f.stride(0), 426);
    assert_eq!(f.stride(1), 213);
    assert_eq!(f.stride(2), 213);
}

#[test]
fn pack_plane_strips_row_padding() {
    // Two meaningful bytes per row, two bytes of padding, two rows.
    let plane = FramePlane {
        stride: 4,
        width_bytes: 2,
        rows: 2,
        data: vec![1, 2, 9, 9, 3, 4, 9, 9],
    };
    assert_eq!(pack_plane(&plane), vec![1, 2, 3, 4]);
}

#[test]
fn pack_plane_keeps_tight_rows_unchanged() {
    let plane = FramePlane { stride: 3, width_bytes: 3, rows: 2, data: vec![1, 2, 3, 4, 5, 6] };
    assert_eq!(pack_plane(&plane), vec![1, 2, 3, 4, 5, 6]);
}

#[test]
fn pack_planar_frame_concatenates_planes() {
    let f = DecodedVideoFrame::new_tight_yuv420p(2, 2, 7, 8, 9);
    let packed = pack_planar_frame(&f);
    // 2x2 luma filled with 7, then 1x1 chroma planes filled with 8 and 9.
    assert_eq!(packed, vec![7, 7, 7, 7, 8, 9]);
}

#[test]
fn sample_values_fit_one_byte() {
    let f = DecodedVideoFrame::new_tight_yuv420p(8, 8, 255, 0, 128);
    assert!(f.data(0).iter().all(|&x| x <= 255));
    assert!(f.data(1).iter().all(|&x| x <= 255));
    assert!(f.data(2).iter().all(|&x| x <= 255));
}

#[test]
fn scaled_frame_has_target_geometry_and_keeps_metadata() {
    let mut src = DecodedVideoFrame::new_tight_yuv420p(1280, 720, 1, 2, 3);
    src.pts = 40;
    src.pkt_dts = 39;
    src.pkt_duration = 1;
    src.pkt_pos = 1234;
    src.key_frame = true;
    src.sample_rate = 0;
    let out = scale_frame(426, 240, &src);
    assert_eq!(out.get_width(), 426);
    assert_eq!(out.get_height(), 240);
    assert_eq!(out.get_format(), PIX_FMT_YUV420P);
    assert_eq!(out.get_pts(), 40);
    assert_eq!(out.get_pkt_dts(), 39);
    assert_eq!(out.get_pkt_duration(), 1);
    assert_eq!(out.get_pkt_pos(), 1234);
    assert_eq!(out.get_key_frame(), 1);
    assert_eq!(out.data(0).len(), 426 * 240);
    assert_eq!(out.data(1).len(), 213 * 120);
    assert_eq!(out.data(2).len(), 213 * 120);
}

#[test]
fn frame_flag_accessors_use_numeric_convention() {
    let mut f = DecodedVideoFrame::new_tight_yuv420p(4, 4, 0, 0, 0);
    assert_eq!(f.get_key_frame(), 0);
    assert_eq!(f.get_interlaced_frame(), 0);
    assert_eq!(f.get_top_field_first(), 0);
    assert_eq!(f.get_palette_has_changed(), 0);
    f.key_frame = true;
    f.interlaced_frame = true;
    f.top_field_first = true;
    f.palette_has_changed = true;
    assert_eq!(f.get_key_frame(), 1);
    assert_eq!(f.get_interlaced_frame(), 1);
    assert_eq!(f.get_top_field_first(), 1);
    assert_eq!(f.get_palette_has_changed(), 1);
}
