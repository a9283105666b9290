//! The trusted boundary to the three collaborating libraries: the glyphon
//! text stack (shaping, glyph caching, atlas, draw pipeline), the wgpu
//! render backend, and egui's shared-ownership primitives.
//!
//! Every item here either declares an outside type so it can appear in this
//! crate's signatures, or wraps exactly the outside calls the library's
//! logic makes. Nothing in this module is verified; each wrapper's doc
//! comment names what it relies on.

use vstd::prelude::*;

use egui_wgpu::wgpu::Device;
use egui_wgpu::wgpu::Queue;
use egui_wgpu::wgpu::RenderPass;
use egui_wgpu::wgpu::TextureFormat;
use glyphon::Buffer;
use glyphon::FontSystem;
use glyphon::SwashCache;
use glyphon::TextAtlas;
use glyphon::TextRenderer;
use glyphon::Viewport;
use std::sync::Arc;

use crate::error::PrepareError;
use crate::error::RenderError;

verus! {

#[verifier::external_type_specification]
#[verifier::external_body]
pub struct ExBuffer(Buffer);

#[verifier::external_type_specification]
#[verifier::external_body]
pub struct ExFontSystem(FontSystem);

#[verifier::external_type_specification]
#[verifier::external_body]
pub struct ExSwashCache(SwashCache);

#[verifier::external_type_specification]
#[verifier::external_body]
pub struct ExGpuCache(glyphon::Cache);

#[verifier::external_type_specification]
#[verifier::external_body]
pub struct ExViewport(Viewport);

#[verifier::external_type_specification]
#[verifier::external_body]
pub struct ExTextAtlas(TextAtlas);

#[verifier::external_type_specification]
#[verifier::external_body]
pub struct ExTextRenderer(TextRenderer);

#[verifier::external_type_specification]
#[verifier::external_body]
pub struct ExColor(glyphon::Color);

#[verifier::external_type_specification]
#[verifier::external_body]
pub struct ExTextArea<'a>(glyphon::TextArea<'a>);

#[verifier::external_type_specification]
#[verifier::external_body]
#[verifier::reject_recursive_types(T)]
pub struct ExMutex<T>(egui::mutex::Mutex<T>);

#[verifier::external_type_specification]
#[verifier::external_body]
#[verifier::reject_recursive_types(T)]
pub struct ExRwLock<T: ?Sized>(egui::mutex::RwLock<T>);

#[verifier::external_type_specification]
#[verifier::external_body]
pub struct ExRenderState(egui_wgpu::RenderState);

#[verifier::external_type_specification]
#[verifier::external_body]
pub struct ExTypeMap(type_map::concurrent::TypeMap);

#[verifier::external_type_specification]
#[verifier::external_body]
pub struct ExDevice(Device);

#[verifier::external_type_specification]
#[verifier::external_body]
pub struct ExQueue(Queue);

#[verifier::external_type_specification]
#[verifier::external_body]
pub struct ExTextureFormat(TextureFormat);

#[verifier::external_type_specification]
#[verifier::external_body]
pub struct ExRenderPass<'a>(RenderPass<'a>);

/// Relies on the `device` field of `egui_wgpu::RenderState`: the wgpu
/// device this render context draws with.
#[verifier::external_body]
pub(crate) fn state_device<'a>(render_state: &'a egui_wgpu::RenderState) -> &'a Device {
    &render_state.device
}

/// Relies on the `queue` field of `egui_wgpu::RenderState`: the wgpu queue
/// this render context submits to.
#[verifier::external_body]
pub(crate) fn state_queue<'a>(render_state: &'a egui_wgpu::RenderState) -> &'a Queue {
    &render_state.queue
}

/// Relies on the `target_format` field of `egui_wgpu::RenderState`: the
/// texture format the context presents with.
#[verifier::external_body]
pub(crate) fn state_format(render_state: &egui_wgpu::RenderState) -> TextureFormat {
    render_state.target_format
}

/// Relies on `cosmic_text::SwashCache::new`: a fresh glyph rasterization
/// cache.
#[verifier::external_body]
pub(crate) fn new_swash_cache() -> SwashCache {
    SwashCache::new()
}

/// Relies on `glyphon::Cache::new`: the shared GPU-side cache glyphon's
/// viewport and atlas are built from.
#[verifier::external_body]
pub(crate) fn new_gpu_cache(device: &Device) -> glyphon::Cache {
    glyphon::Cache::new(device)
}

/// Relies on `glyphon::Viewport::new`: a viewport bound to this device.
#[verifier::external_body]
pub(crate) fn new_viewport(device: &Device, cache: &glyphon::Cache) -> Viewport {
    Viewport::new(device, cache)
}

/// Relies on `glyphon::TextAtlas::with_color_mode`: a GPU texture atlas
/// bound to the target's pixel format, with the web color mode that
/// matches egui's compositing convention.
#[verifier::external_body]
pub(crate) fn new_atlas_web(
    device: &Device,
    queue: &Queue,
    cache: &glyphon::Cache,
    format: TextureFormat,
) -> TextAtlas {
    TextAtlas::with_color_mode(device, queue, cache, format, glyphon::ColorMode::Web)
}

/// Relies on `glyphon::TextRenderer::new`: the text draw pipeline, built
/// without multisampling or a depth stencil.
#[verifier::external_body]
pub(crate) fn new_text_renderer(atlas: &mut TextAtlas, device: &Device) -> TextRenderer {
    TextRenderer::new(atlas, device, egui_wgpu::wgpu::MultisampleState::default(), None)
}

/// Relies on `glyphon::Viewport::update`: records the target resolution in
/// physical pixels for the next prepare/render pair.
#[verifier::external_body]
pub(crate) fn viewport_update(viewport: &mut Viewport, queue: &Queue, width: u32, height: u32) {
    viewport.update(queue, glyphon::Resolution { width, height })
}

/// Relies on `glyphon::TextAtlas::trim`: evicts atlas entries unused since
/// the previous frame.
#[verifier::external_body]
pub(crate) fn atlas_trim(atlas: &mut TextAtlas) {
    atlas.trim()
}

/// Relies on `glyphon::TextRenderer::prepare` and `egui::mutex::Mutex::lock`:
/// uploads glyph and layout data for the given text areas, holding the
/// shared font-system lock only for the duration of the call. Its one
/// failure, a rejected atlas allocation, is returned as
/// [`PrepareError::AtlasFull`].
#[verifier::external_body]
pub(crate) fn text_renderer_prepare<'a>(
    text_renderer: &mut TextRenderer,
    device: &Device,
    queue: &Queue,
    font_system: &Arc<egui::mutex::Mutex<FontSystem>>,
    atlas: &mut TextAtlas,
    viewport: &Viewport,
    text_areas: Vec<glyphon::TextArea<'a>>,
    swash_cache: &mut SwashCache,
) -> Result<(), PrepareError> {
    let mut fonts = font_system.lock();
    match text_renderer.prepare(device, queue, &mut fonts, atlas, viewport, text_areas, swash_cache)
    {
        Ok(()) => Ok(()),
        Err(glyphon::PrepareError::AtlasFull) => Err(PrepareError::AtlasFull),
    }
}

/// Relies on `glyphon::TextRenderer::render`: issues the draw commands for
/// everything the last prepare uploaded. Its two failures are returned as
/// the matching [`RenderError`] variant.
#[verifier::external_body]
pub(crate) fn text_renderer_render(
    text_renderer: &TextRenderer,
    atlas: &TextAtlas,
    viewport: &Viewport,
    pass: &mut RenderPass<'static>,
) -> Result<(), RenderError> {
    match text_renderer.render(atlas, viewport, pass) {
        Ok(()) => Ok(()),
        Err(glyphon::RenderError::RemovedFromAtlas) => Err(RenderError::RemovedFromAtlas),
        Err(glyphon::RenderError::ScreenResolutionChanged) => Err(
            RenderError::ScreenResolutionChanged,
        ),
    }
}

} // verus!
