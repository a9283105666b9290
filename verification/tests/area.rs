use std::sync::Arc;

use egui::mutex::RwLock;
use egui_glyphon::area::BufferWithTextArea;
use egui_glyphon::geometry::{scale_len, scale_rect, Rect, Scale};
use glyphon::{Buffer, Color, FontSystem, Metrics};

fn shared_buffer() -> Arc<RwLock<Buffer>> {
    let mut font_system = FontSystem::new();
    Arc::new(RwLock::new(Buffer::new(&mut font_system, Metrics::new(14.0, 20.0))))
}

#[test]
fn stored_rect_is_scaled_uniformly() {
    // Logical rectangle scaled by a pixel-per-point ratio of 1.5: every
    // coordinate and extent is multiplied by the same ratio.
    let rect = Rect { x: 10, y: 20, w: 100, h: 40 };
    let ppp = Scale { milli: 1500 };
    let area = BufferWithTextArea::new(shared_buffer(), rect, 1000, Color::rgb(1, 2, 3), ppp);
    assert_eq!(area.rect, Rect { x: 15, y: 30, w: 150, h: 60 });
    assert_eq!(area.scale, ppp);
    assert_eq!(area.opacity, 1000);
    assert_eq!(area.default_color, Color::rgb(1, 2, 3));
}

#[test]
fn unit_scale_keeps_rect() {
    let rect = Rect { x: 3, y: 5, w: 7, h: 11 };
    let area = BufferWithTextArea::new(
        shared_buffer(),
        rect,
        500,
        Color::rgb(0, 0, 0),
        Scale { milli: 1000 },
    );
    assert_eq!(area.rect, rect);
}

#[test]
fn scaling_rounds_down() {
    assert_eq!(scale_len(3, Scale { milli: 1250 }), 3); // 3.75 -> 3
    assert_eq!(scale_len(10, Scale { milli: 1250 }), 12); // 12.5 -> 12
    assert_eq!(scale_len(0, Scale { milli: 2000 }), 0);
}

#[test]
fn scaling_saturates_at_the_integer_limit() {
    assert_eq!(scale_len(u64::MAX, Scale { milli: 2000 }), u64::MAX);
    let r = scale_rect(Rect { x: u64::MAX, y: 0, w: 1000, h: 0 }, Scale { milli: 3000 });
    assert_eq!(r.x, u64::MAX);
    assert_eq!(r.w, 3000);
}

#[test]
fn descriptor_clips_to_the_area_rect() {
    let rect = Rect { x: 8, y: 6, w: 100, h: 50 };
    let area = BufferWithTextArea::new(
        shared_buffer(),
        rect,
        1000,
        Color::rgb(9, 9, 9),
        Scale { milli: 2000 },
    );
    let d = area.text_area_desc();
    assert_eq!(d.left, 16);
    assert_eq!(d.top, 12);
    assert_eq!(d.bound_left, 16);
    assert_eq!(d.bound_top, 12);
    assert_eq!(d.bound_right, 16 + 200);
    assert_eq!(d.bound_bottom, 12 + 100);
    assert_eq!(d.scale, Scale { milli: 2000 });
    assert_eq!(d.default_color, Color::rgb(9, 9, 9));
}

#[test]
fn batch_descriptors_follow_batch_order() {
    let a = BufferWithTextArea::new(
        shared_buffer(),
        Rect { x: 0, y: 0, w: 10, h: 10 },
        1000,
        Color::rgb(1, 1, 1),
        Scale { milli: 1000 },
    );
    let b = BufferWithTextArea::new(
        shared_buffer(),
        Rect { x: 50, y: 60, w: 70, h: 80 },
        1000,
        Color::rgb(2, 2, 2),
        Scale { milli: 1000 },
    );
    let callback = egui_glyphon::callback::GlyphonRendererCallback { buffers: vec![a, b] };
    let descs = callback.text_area_descs();
    assert_eq!(descs.len(), 2);
    assert_eq!(descs[0].left, 0);
    assert_eq!(descs[0].default_color, Color::rgb(1, 1, 1));
    assert_eq!(descs[1].left, 50);
    assert_eq!(descs[1].top, 60);
    assert_eq!(descs[1].bound_right, 120);
    assert_eq!(descs[1].bound_bottom, 140);
}
