//! Glue between an egui application, the wgpu render backend, and the
//! glyphon text stack: measuring shaped text buffers, positioning them in
//! physical pixels, and driving glyphon's per-frame prepare/render pair.
//!
//! All geometry in this crate is kept in integer units so that every
//! computation (measurement, density scaling, bounds derivation) carries an
//! exact contract. Callers that live in floating point convert at the edge.

pub mod area;
pub mod callback;
pub mod error;
pub mod geometry;
pub mod measure;
pub mod renderer;
pub mod upstream;

pub use area::BufferWithTextArea;
pub use area::TextAreaDesc;
pub use callback::GlyphonRendererCallback;
pub use error::PrepareError;
pub use error::RenderError;
pub use geometry::Rect;
pub use geometry::Scale;
pub use measure::BufferModel;
pub use measure::RunModel;
pub use measure::measure_buffer;
pub use renderer::GlyphonRenderer;
pub use renderer::empty_callback_resources;
pub use renderer::renderer_from_resources;
pub use renderer::renderer_from_resources_mut;
