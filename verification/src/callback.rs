//! The per-frame batch: the text areas one frame callback renders together
//! on one layer. The batch is created and discarded within a single frame's
//! render traversal and holds no state across frames.

use vstd::prelude::*;

use crate::area::BufferWithTextArea;
use crate::area::TextAreaDesc;
use crate::area::desc_of;

verus! {

/// One frame's batch of text areas. All buffers in the batch are rendered
/// at the same time on the same layer.
pub struct GlyphonRendererCallback {
    pub buffers: Vec<BufferWithTextArea>,
}

impl GlyphonRendererCallback {
    /// Derives one render descriptor per buffer in the batch, in batch
    /// order.
    pub fn text_area_descs(&self) -> (v: Vec<TextAreaDesc>)
        ensures
            v@.len() == self.buffers@.len(),
            forall|i: int| 0 <= i < v@.len() ==> v@[i] == desc_of(self.buffers@[i]),
    {
        let mut v: Vec<TextAreaDesc> = Vec::new();
        let mut i: usize = 0;
        while i < self.buffers.len()
            invariant
                0 <= i <= self.buffers@.len(),
                v@.len() == i,
                forall|j: int| 0 <= j < i ==> v@[j] == desc_of(self.buffers@[j]),
            decreases self.buffers@.len() - i,
        {
            let d = self.buffers[i].text_area_desc();
            v.push(d);
            i = i + 1;
        }
        v
    }
}

} // verus!
