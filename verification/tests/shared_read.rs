use std::sync::Arc;

use egui::mutex::RwLock;
use egui_glyphon::measure::{measure_buffer, BufferModel, RunModel};
use glyphon::{Attrs, Buffer, Family, FontSystem, Metrics, Shaping};

/// Reads the layout state of a shaped buffer into the measurement model,
/// with one integer unit per thousandth of a point.
fn model_of(buffer: &Buffer) -> BufferModel {
    let runs = buffer
        .layout_runs()
        .map(|run| RunModel { width: (run.line_w * 1000.0).round() as u32, rtl: run.rtl })
        .collect();
    let (max_w, max_h) = buffer.size();
    BufferModel {
        runs,
        line_height: (buffer.metrics().line_height * 1000.0).round() as u32,
        max_width: max_w.map(|w| (w * 1000.0).round() as u32),
        max_height: max_h.map(|h| (h * 1000.0).round() as u32),
    }
}

#[test]
fn two_simultaneous_readers_see_the_same_layout() {
    let mut font_system = FontSystem::new();
    let mut buffer = Buffer::new(&mut font_system, Metrics::new(14.0, 20.0));
    buffer.set_text(
        &mut font_system,
        "hello world\nsecond line",
        Attrs::new().family(Family::SansSerif),
        Shaping::Advanced,
    );
    buffer.shape_until_scroll(&mut font_system, true);

    let shared = Arc::new(RwLock::new(buffer));
    let also_shared = Arc::clone(&shared);

    // Two render batches holding read access to the same buffer at the same
    // time: both proceed (no deadlock) and see identical shaped output.
    let guard_a = shared.read();
    let guard_b = also_shared.read();

    let model_a = model_of(&guard_a);
    let model_b = model_of(&guard_b);
    assert_eq!(model_a.runs, model_b.runs);
    assert_eq!(model_a.line_height, model_b.line_height);

    let rect_a = measure_buffer(&model_a);
    let rect_b = measure_buffer(&model_b);
    assert_eq!(rect_a, rect_b);
    assert_eq!(rect_a.h, model_a.runs.len() as u64 * model_a.line_height as u64);
}
