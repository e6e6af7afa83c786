use winit_wgpu_egui::gui::fps_label;
use winit_wgpu_egui::gui::Test;

#[test]
fn panel_starts_open() {
    assert!(Test::new().is_window_open());
}

#[test]
fn dismissed_panel_stays_closed_until_reopened() {
    let mut view = Test::new();
    view.panel_shown(true);
    assert!(view.is_window_open());
    view.panel_shown(false);
    assert!(!view.is_window_open());
    view.panel_shown(true);
    assert!(!view.is_window_open());
    view.panel_shown(false);
    assert!(!view.is_window_open());
    view.open_about();
    assert!(view.is_window_open());
    view.open_about();
    assert!(view.is_window_open());
}

#[test]
fn label_shows_two_decimals() {
    assert_eq!(fps_label(Some(3000)), "FPS: 30.00");
    assert_eq!(fps_label(Some(5994)), "FPS: 59.94");
    assert_eq!(fps_label(Some(0)), "FPS: 0.00");
    assert_eq!(fps_label(Some(7)), "FPS: 0.07");
    assert_eq!(fps_label(Some(70)), "FPS: 0.70");
    assert_eq!(fps_label(Some(100)), "FPS: 1.00");
    assert_eq!(fps_label(Some(999)), "FPS: 9.99");
    assert_eq!(fps_label(Some(1000)), "FPS: 10.00");
    assert_eq!(fps_label(Some(375_000)), "FPS: 3750.00");
    assert_eq!(fps_label(Some(1_234_567_890)), "FPS: 12345678.90");
    assert_eq!(fps_label(Some(u64::MAX)), "FPS: 184467440737095516.15");
}

#[test]
fn label_without_a_rate() {
    assert_eq!(fps_label(None), "FPS: inf");
}

#[test]
fn label_agrees_with_float_formatting_on_exact_hundredths() {
    for rate in [0u64, 1, 25, 50, 3000, 5975, 14400, 100_000] {
        let shown = format!("FPS: {0:.2}", rate as f64 / 100.0);
        assert_eq!(fps_label(Some(rate)), shown);
    }
}
