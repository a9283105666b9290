//! The renderer resource: one instance per GPU render context, owning the
//! shared font-system handle, the glyph rasterization cache, the GPU
//! texture atlas and the text draw pipeline. It lives in the backend's
//! per-context resource table, keyed by its type, and must be registered
//! there before any frame callback renders text.

use vstd::prelude::*;

use egui::mutex::Mutex;
use egui_wgpu::CallbackResources;
use egui_wgpu::wgpu::Device;
use egui_wgpu::wgpu::Queue;
use egui_wgpu::wgpu::RenderPass;
use glyphon::FontSystem;
use glyphon::SwashCache;
use glyphon::TextAtlas;
use glyphon::TextRenderer;
use glyphon::Viewport;
use std::sync::Arc;

use crate::error::PrepareError;
use crate::error::RenderError;
use crate::upstream::atlas_trim;
use crate::upstream::new_atlas_web;
use crate::upstream::new_gpu_cache;
use crate::upstream::new_swash_cache;
use crate::upstream::new_text_renderer;
use crate::upstream::new_viewport;
use crate::upstream::state_device;
use crate::upstream::state_format;
use crate::upstream::state_queue;
use crate::upstream::text_renderer_prepare;
use crate::upstream::text_renderer_render;
use crate::upstream::viewport_update;

verus! {

/// The text-rendering resource of one GPU render context.
pub struct GlyphonRenderer {
    font_system: Arc<Mutex<FontSystem>>,
    cache: SwashCache,
    atlas: TextAtlas,
    viewport: Viewport,
    text_renderer: TextRenderer,
}

/// Whether a [`GlyphonRenderer`] is stored in the given per-context
/// resource table. The table keys each value by its type, so at most one
/// instance is retrievable per context.
pub uninterp spec fn holds_renderer(resources: CallbackResources) -> bool;

/// Relies on `type_map::concurrent::TypeMap::insert`: stores a value keyed
/// by its type; a prior value of that type is returned, and was present if
/// and only if one had been inserted before and not removed.
#[verifier::external_body]
fn resources_insert(resources: &mut CallbackResources, renderer: GlyphonRenderer) -> (prior: Option<
    GlyphonRenderer,
>)
    ensures
        holds_renderer(*final(resources)),
        prior is Some <==> holds_renderer(*old(resources)),
{
    resources.insert(renderer)
}

/// Relies on `type_map::concurrent::TypeMap::get`: the lookup succeeds if
/// and only if a value of the requested type is stored.
#[verifier::external_body]
fn resources_get<'a>(resources: &'a CallbackResources) -> (r: Option<&'a GlyphonRenderer>)
    ensures
        r is Some <==> holds_renderer(*resources),
{
    resources.get::<GlyphonRenderer>()
}

/// Relies on `type_map::concurrent::TypeMap::get_mut`: the lookup succeeds
/// if and only if a value of the requested type is stored; mutating that
/// value through the returned reference cannot remove it from the table.
#[verifier::external_body]
fn resources_get_mut<'a>(resources: &'a mut CallbackResources) -> (r: Option<
    &'a mut GlyphonRenderer,
>)
    ensures
        r is Some <==> holds_renderer(*old(resources)),
        holds_renderer(*final(resources)) == holds_renderer(*old(resources)),
{
    resources.get_mut::<GlyphonRenderer>()
}

/// Relies on `type_map::concurrent::TypeMap::new`: a fresh table stores
/// nothing, so no renderer can be looked up in it.
#[verifier::external_body]
fn resources_new() -> (r: CallbackResources)
    ensures
        !holds_renderer(r),
{
    type_map::concurrent::TypeMap::new()
}

/// Relies on `egui::mutex::RwLock::write` and
/// `type_map::concurrent::TypeMap::insert`: takes the backend's renderer
/// lock for the duration of the call and stores `renderer` in that
/// context's resource table, replacing any prior instance.
#[verifier::external_body]
fn install_renderer(render_state: &egui_wgpu::RenderState, renderer: GlyphonRenderer) {
    render_state.renderer.write().callback_resources.insert(renderer);
}

/// Looks the renderer up in a context's resource table. The lookup fails
/// exactly when no renderer was registered, reflecting the precondition
/// that [`GlyphonRenderer::insert`] must have run for this context first.
pub fn renderer_from_resources<'a>(resources: &'a CallbackResources) -> (r: Option<
    &'a GlyphonRenderer,
>)
    ensures
        r is Some <==> holds_renderer(*resources),
{
    resources_get(resources)
}

/// Looks the renderer up in a context's resource table for mutation, e.g.
/// the per-frame prepare. Fails exactly when no renderer was registered.
pub fn renderer_from_resources_mut<'a>(resources: &'a mut CallbackResources) -> (r: Option<
    &'a mut GlyphonRenderer,
>)
    ensures
        r is Some <==> holds_renderer(*old(resources)),
        holds_renderer(*final(resources)) == holds_renderer(*old(resources)),
{
    resources_get_mut(resources)
}

/// A resource table with nothing registered: every renderer lookup in it
/// fails.
pub fn empty_callback_resources() -> (r: CallbackResources)
    ensures
        !holds_renderer(r),
{
    resources_new()
}

impl GlyphonRenderer {
    /// Builds the renderer resource for one render context — rasterization
    /// cache, GPU atlas bound to the context's target format with the web
    /// color mode, viewport and draw pipeline — and stores it in that
    /// context's resource table, replacing any prior instance. Must run
    /// before the first frame that renders text for the context.
    pub fn insert(wgpu_render_state: &egui_wgpu::RenderState, font_system: Arc<Mutex<FontSystem>>) {
        let cache = new_swash_cache();
        let gpu_cache = new_gpu_cache(state_device(wgpu_render_state));
        let viewport = new_viewport(state_device(wgpu_render_state), &gpu_cache);
        let mut atlas = new_atlas_web(
            state_device(wgpu_render_state),
            state_queue(wgpu_render_state),
            &gpu_cache,
            state_format(wgpu_render_state),
        );
        let text_renderer = new_text_renderer(&mut atlas, state_device(wgpu_render_state));
        let renderer = GlyphonRenderer { font_system, cache, atlas, viewport, text_renderer };
        install_renderer(wgpu_render_state, renderer);
    }

    /// Stores `renderer` in a resource table directly, replacing any prior
    /// instance; afterwards the lookup is guaranteed to succeed.
    pub fn register(resources: &mut CallbackResources, renderer: GlyphonRenderer)
        ensures
            holds_renderer(*final(resources)),
    {
        let _prior = resources_insert(resources, renderer);
    }

    /// Evicts atlas entries unused since the previous frame; runs at the
    /// start of each frame's prepare.
    pub fn trim(&mut self) {
        atlas_trim(&mut self.atlas);
    }

    /// Records the target resolution, then uploads glyph and layout data
    /// for the given text areas, locking the shared font system only for
    /// the duration of the upload. Fails when the GPU backend rejects a
    /// resource allocation; the failure is terminating for this frame's
    /// text draw.
    pub fn prepare<'a>(
        &mut self,
        device: &Device,
        queue: &Queue,
        screen_width: u32,
        screen_height: u32,
        text_areas: Vec<glyphon::TextArea<'a>>,
    ) -> Result<(), PrepareError> {
        viewport_update(&mut self.viewport, queue, screen_width, screen_height);
        text_renderer_prepare(
            &mut self.text_renderer,
            device,
            queue,
            &self.font_system,
            &mut self.atlas,
            &self.viewport,
            text_areas,
            &mut self.cache,
        )
    }

    /// Issues the draw commands for everything the last prepare uploaded
    /// against the active render pass. Fails when the pass state no longer
    /// matches; the failure is terminating for this frame's text draw.
    pub fn render(&self, pass: &mut RenderPass<'static>) -> Result<(), RenderError> {
        text_renderer_render(&self.text_renderer, &self.atlas, &self.viewport, pass)
    }
}

} // verus!
