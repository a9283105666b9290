//! A shaped text buffer paired with the data needed to place it on screen:
//! a target rectangle in physical units, the display density it was scaled
//! by, an opacity, and a default text color.

use vstd::prelude::*;

use egui::mutex::RwLock;
use glyphon::Buffer;
use glyphon::Color;
use std::sync::Arc;

use crate::geometry::Rect;
use crate::geometry::Scale;
use crate::geometry::rect_bottom;
use crate::geometry::rect_right;
use crate::geometry::scale_rect;
use crate::geometry::scaled_rect;

verus! {

/// A shared shaped buffer with its placement for one frame. The buffer sits
/// behind a read/write lock: the application writes (reshapes) it while the
/// renderer only ever reads it, so several render batches may read one
/// buffer at the same time.
pub struct BufferWithTextArea {
    pub buffer: Arc<RwLock<Buffer>>,
    /// Target rectangle in physical units, already scaled by the display
    /// density.
    pub rect: Rect,
    /// The pixel-per-point ratio the rectangle was scaled by.
    pub scale: Scale,
    /// Opacity in thousandths: `1000` is fully opaque.
    pub opacity: u32,
    pub default_color: Color,
}

/// Everything the GPU text stack is told about one text area, derived
/// purely from a [`BufferWithTextArea`]: position, density, clip bounds and
/// default color. The clip bounds are the area's own rectangle.
pub struct TextAreaDesc {
    pub left: u64,
    pub top: u64,
    pub scale: Scale,
    pub bound_left: u64,
    pub bound_top: u64,
    pub bound_right: u64,
    pub bound_bottom: u64,
    pub opacity: u32,
    pub default_color: Color,
}

/// The descriptor a given area is rendered with: anchored at the area's
/// rectangle, clipped to it, with the area's density, opacity and color.
pub open spec fn desc_of(area: BufferWithTextArea) -> TextAreaDesc {
    TextAreaDesc {
        left: area.rect.x,
        top: area.rect.y,
        scale: area.scale,
        bound_left: area.rect.x,
        bound_top: area.rect.y,
        bound_right: rect_right(area.rect) as u64,
        bound_bottom: rect_bottom(area.rect) as u64,
        opacity: area.opacity,
        default_color: area.default_color,
    }
}

impl BufferWithTextArea {
    /// Wraps a shared buffer for one frame. The caller passes its rectangle
    /// in logical units together with the current pixel-per-point ratio;
    /// the stored rectangle is that rectangle scaled uniformly by the ratio
    /// in both dimensions, and the ratio itself is kept so the text is
    /// shaped at matching density.
    pub fn new(
        buffer: Arc<RwLock<Buffer>>,
        rect: Rect,
        opacity: u32,
        default_color: Color,
        pixels_per_point: Scale,
    ) -> (r: BufferWithTextArea)
        ensures
            r.buffer == buffer,
            r.rect == scaled_rect(rect, pixels_per_point),
            r.scale == pixels_per_point,
            r.opacity == opacity,
            r.default_color == default_color,
    {
        BufferWithTextArea {
            buffer,
            rect: scale_rect(rect, pixels_per_point),
            scale: pixels_per_point,
            opacity,
            default_color,
        }
    }

    /// Derives the render descriptor for this area.
    pub fn text_area_desc(&self) -> (d: TextAreaDesc)
        ensures
            d == desc_of(*self),
    {
        TextAreaDesc {
            left: self.rect.x,
            top: self.rect.y,
            scale: self.scale,
            bound_left: self.rect.x,
            bound_top: self.rect.y,
            bound_right: self.rect.right(),
            bound_bottom: self.rect.bottom(),
            opacity: self.opacity,
            default_color: self.default_color,
        }
    }
}

} // verus!
