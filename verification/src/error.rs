//! The two failure kinds this crate surfaces. Both originate in the GPU
//! backend and are terminating for the current frame's text draw: no retry,
//! no partial recovery.

use vstd::prelude::*;

verus! {

/// Preparation failed: the GPU backend rejected a resource update, e.g. the
/// glyph texture atlas is full and could not grow.
#[derive(Clone, Copy, PartialEq, Eq, Structural, Debug)]
pub enum PrepareError {
    AtlasFull,
}

/// Drawing failed: the render pass state no longer matches what was
/// prepared.
#[derive(Clone, Copy, PartialEq, Eq, Structural, Debug)]
pub enum RenderError {
    RemovedFromAtlas,
    ScreenResolutionChanged,
}

impl PrepareError {
    /// A human-readable description of the failure.
    pub fn describe(&self) -> (r: &'static str)
        ensures
            r@ =~= "glyph texture atlas is full"@,
    {
        "glyph texture atlas is full"
    }
}

impl RenderError {
    /// A human-readable description of the failure.
    pub fn describe(&self) -> (r: &'static str)
        ensures
            *self is RemovedFromAtlas ==> r@ =~= "glyph no longer exists within the texture atlas"@,
            *self is ScreenResolutionChanged ==> r@
                =~= "screen resolution changed since the last prepare call"@,
    {
        match self {
            RenderError::RemovedFromAtlas => "glyph no longer exists within the texture atlas",
            RenderError::ScreenResolutionChanged => "screen resolution changed since the last prepare call",
        }
    }
}

} // verus!
