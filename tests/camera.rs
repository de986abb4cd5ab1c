use pixel_camera::camera::{fit_canvas, RES_HEIGHT, RES_WIDTH};

#[test]
fn canvas_is_its_own_size_at_scale_one() {
    assert_eq!(fit_canvas(RES_WIDTH, RES_HEIGHT), 1);
}

#[test]
fn common_window_sizes_scale_exactly() {
    assert_eq!(fit_canvas(1280, 720), 4);
    assert_eq!(fit_canvas(1920, 1080), 6);
    assert_eq!(fit_canvas(2560, 1440), 8);
}

#[test]
fn smaller_ratio_decides() {
    // wide window: height limits
    assert_eq!(fit_canvas(2560, 720), 4);
    // tall window: width limits
    assert_eq!(fit_canvas(640, 1440), 2);
}

#[test]
fn halves_round_up() {
    // 480 / 320 = 1.5
    assert_eq!(fit_canvas(480, 1000), 2);
    assert_eq!(fit_canvas(479, 1000), 1);
    // 270 / 180 = 1.5
    assert_eq!(fit_canvas(1000, 270), 2);
    assert_eq!(fit_canvas(1000, 269), 1);
}

#[test]
fn tiny_window_gives_zero() {
    assert_eq!(fit_canvas(100, 100), 0);
    assert_eq!(fit_canvas(0, 0), 0);
}

#[test]
fn largest_window_does_not_overflow() {
    assert_eq!(fit_canvas(u32::MAX, u32::MAX), 13421773);
}
