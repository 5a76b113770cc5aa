//! Geometry planning and rate smoothing: the pure per-frame arithmetic of
//! the capture loop.

use coproc::frame::{crop_rect, mask_to_bytes, resize_dims, Frame};
use coproc::metrics::Metrics;

#[test]
fn resize_hits_target_on_longer_side() {
    assert_eq!(resize_dims(640, 480, 400), (400, 300));
    assert_eq!(resize_dims(480, 640, 320), (240, 320));
    assert_eq!(resize_dims(1280, 720, 640), (640, 360));
}

#[test]
fn resize_is_noop_at_own_size() {
    assert_eq!(resize_dims(640, 480, 640), (640, 480));
    assert_eq!(resize_dims(123, 456, 456), (123, 456));
    assert_eq!(resize_dims(1, 1, 1), (1, 1));
}

#[test]
fn resize_rounds_shorter_side_down() {
    // 333 * 100 / 500 = 66.6, floored.
    assert_eq!(resize_dims(500, 333, 100), (100, 66));
}

#[test]
fn crop_keeps_centered_fraction() {
    // Keep half of each side of a 640x480 image.
    assert_eq!(crop_rect(640, 480, 1, 2), (160, 120, 320, 240));
    // Keep everything: the crop is the whole image.
    assert_eq!(crop_rect(640, 480, 1, 1), (0, 0, 640, 480));
    // Odd remainders stay inside the image.
    let (x, y, cw, ch) = crop_rect(641, 481, 1, 3);
    assert!(x + cw <= 641 && y + ch <= 481);
    assert_eq!((cw, ch), (213, 160));
}

#[test]
fn mask_maps_to_display_bytes() {
    assert_eq!(mask_to_bytes(&vec![true, false, true, true]), vec![255, 0, 255, 255]);
    assert_eq!(mask_to_bytes(&vec![]), Vec::<u8>::new());
}

#[test]
fn frame_encode_checks_shape() {
    let f = Frame::encode(4, 3, 1, vec![0u8; 12]).unwrap();
    assert_eq!((f.width(), f.height(), f.len()), (4, 3, 12));
    assert!(Frame::encode(4, 3, 1, vec![0u8; 11]).is_none());
    assert!(Frame::encode(4, 3, 2, vec![0u8; 12]).is_none());
    assert!(Frame::encode(0, 3, 1, vec![]).is_some());
}

#[test]
fn fps_converges_toward_steady_rate() {
    let mut m = Metrics::new();
    assert_eq!(m.fps_milli(), 0);
    // Three one-second intervals: the estimate climbs toward 1.000 fps.
    m.update(1_000_000);
    assert_eq!(m.fps_milli(), 100);
    m.update(1_000_000);
    assert_eq!(m.fps_milli(), 190);
    m.update(1_000_000);
    assert_eq!(m.fps_milli(), 271);
    // Strictly increasing toward the steady rate, never past it.
    assert!(100 < 190 && 190 < 271 && 271 < 1000);
}

#[test]
fn fps_zero_interval_leaves_estimate_unchanged() {
    let mut m = Metrics::new();
    m.update(1_000_000);
    let before = m.fps_milli();
    m.update(0);
    assert_eq!(m.fps_milli(), before);
}

#[test]
fn fps_never_overshoots_reading() {
    let mut m = Metrics::new();
    // 120 fps camera: 8333 us per frame -> 120004 milli-fps reading.
    for _ in 0..200 {
        m.update(8_333);
        assert!(m.fps_milli() <= 120_004);
    }
    assert!(m.fps_milli() > 119_000);
}
