use egui_glyphon::measure::{measure_buffer, BufferModel, RunModel};

fn run(width: u32, rtl: bool) -> RunModel {
    RunModel { width, rtl }
}

#[test]
fn height_is_line_count_times_line_height_without_max() {
    // Five lines of uniform line height 42, no configured maximum size.
    let b = BufferModel {
        runs: vec![run(10, false); 5],
        line_height: 42,
        max_width: None,
        max_height: None,
    };
    let r = measure_buffer(&b);
    assert_eq!(r.h, 5 * 42);
    assert_eq!(r.x, 0);
    assert_eq!(r.y, 0);
}

#[test]
fn width_is_widest_run_without_max() {
    let b = BufferModel {
        runs: vec![run(120, false), run(300, false), run(7, false)],
        line_height: 10,
        max_width: None,
        max_height: None,
    };
    let r = measure_buffer(&b);
    assert_eq!(r.w, 300);
}

#[test]
fn width_clamps_to_configured_max() {
    // Natural width 300 exceeds the configured maximum 200: the result is
    // the natural width clamped to the maximum, never more.
    let b = BufferModel {
        runs: vec![run(120, false), run(300, false)],
        line_height: 10,
        max_width: Some(200),
        max_height: None,
    };
    let r = measure_buffer(&b);
    assert_eq!(r.w, 200);
    assert!(r.w <= 200);
}

#[test]
fn width_below_max_stays_natural() {
    let b = BufferModel {
        runs: vec![run(120, false), run(150, false)],
        line_height: 10,
        max_width: Some(200),
        max_height: None,
    };
    let r = measure_buffer(&b);
    assert_eq!(r.w, 150);
}

#[test]
fn rtl_run_makes_width_the_configured_max() {
    // One right-to-left run: the width is the configured maximum exactly,
    // regardless of the natural run widths.
    let b = BufferModel {
        runs: vec![run(30, false), run(10, true)],
        line_height: 10,
        max_width: Some(500),
        max_height: None,
    };
    let r = measure_buffer(&b);
    assert_eq!(r.w, 500);
}

#[test]
fn rtl_without_max_uses_natural_width() {
    let b = BufferModel {
        runs: vec![run(30, true)],
        line_height: 10,
        max_width: None,
        max_height: None,
    };
    let r = measure_buffer(&b);
    assert_eq!(r.w, 30);
}

#[test]
fn height_clamps_to_configured_max() {
    let b = BufferModel {
        runs: vec![run(10, false); 9],
        line_height: 100,
        max_width: None,
        max_height: Some(250),
    };
    let r = measure_buffer(&b);
    assert_eq!(r.h, 250);
}

#[test]
fn empty_buffer_measures_zero() {
    let b = BufferModel { runs: vec![], line_height: 42, max_width: None, max_height: None };
    let r = measure_buffer(&b);
    assert_eq!(r.w, 0);
    assert_eq!(r.h, 0);
}

#[test]
fn empty_buffer_with_max_width_and_rtl_flag_unset() {
    // No run at all: nothing is right to left, so the width is the natural
    // width (zero) clamped to the maximum.
    let b = BufferModel { runs: vec![], line_height: 42, max_width: Some(90), max_height: None };
    let r = measure_buffer(&b);
    assert_eq!(r.w, 0);
}
