//! Measurement of shaped text: given the layout runs of a shaped buffer,
//! compute the minimal bounding rectangle consistent with the buffer's
//! layout direction and its configured maximum size.
//!
//! The shaping library reports, per laid-out line, the line's advance width
//! and whether the line runs right to left; a buffer further carries one
//! line height and an optional maximum width and height. [`BufferModel`]
//! holds exactly that data in integer units, and [`measure_buffer`] is a
//! pure function of it.

use vstd::prelude::*;

use crate::geometry::Rect;

verus! {

/// One laid-out line of a shaped buffer: its advance width in integer
/// units, and whether the line runs right to left.
#[derive(Clone, Copy, PartialEq, Eq, Structural, Debug)]
pub struct RunModel {
    pub width: u32,
    pub rtl: bool,
}

/// The layout state of a shaped text buffer, as far as measurement reads
/// it: one entry per laid-out line, the uniform line height, and the
/// buffer's configured maximum size (absent when the buffer is unbounded
/// on that axis).
pub struct BufferModel {
    pub runs: Vec<RunModel>,
    pub line_height: u32,
    pub max_width: Option<u32>,
    pub max_height: Option<u32>,
}

impl BufferModel {
    /// A buffer never lays out more lines than fit a `u32`; this keeps
    /// every height computation inside `u64`.
    pub open spec fn wf(&self) -> bool {
        self.runs@.len() <= u32::MAX
    }
}

/// The widest line among `runs`; zero when there is none.
pub open spec fn natural_width(runs: Seq<RunModel>) -> int
    decreases runs.len(),
{
    if runs.len() == 0 {
        0
    } else {
        let rest = natural_width(runs.drop_last());
        if runs.last().width >= rest {
            runs.last().width as int
        } else {
            rest
        }
    }
}

/// Whether any line of `runs` is laid out right to left.
pub open spec fn has_rtl(runs: Seq<RunModel>) -> bool {
    exists|i: int| 0 <= i < runs.len() && runs[i].rtl
}

/// The height the laid-out lines occupy before any clamping: line count
/// times line height.
pub open spec fn natural_height(b: BufferModel) -> int {
    b.runs@.len() * b.line_height
}

/// The width limit measurement works against: the configured maximum
/// width when one is set, else the natural width itself.
pub open spec fn width_limit(b: BufferModel) -> int {
    match b.max_width {
        Some(m) => m as int,
        None => natural_width(b.runs@),
    }
}

/// The measured width: right-to-left text is assumed to fill its box, so
/// any right-to-left line makes the width the limit itself; otherwise the
/// natural width, clamped to the limit.
pub open spec fn measured_width(b: BufferModel) -> int {
    if has_rtl(b.runs@) {
        width_limit(b)
    } else if natural_width(b.runs@) <= width_limit(b) {
        natural_width(b.runs@)
    } else {
        width_limit(b)
    }
}

/// The measured height: the natural height, clamped to the configured
/// maximum height when one is set.
pub open spec fn measured_height(b: BufferModel) -> int {
    let limit = match b.max_height {
        Some(m) => m as int,
        None => natural_height(b),
    };
    if natural_height(b) <= limit {
        natural_height(b)
    } else {
        limit
    }
}

/// Computes the pixel footprint of a shaped buffer: a rectangle anchored
/// at the origin whose size is the buffer's measured width and height.
/// Reads the buffer state only; no side effects.
pub fn measure_buffer(buffer: &BufferModel) -> (r: Rect)
    requires
        buffer.wf(),
    ensures
        r.x == 0,
        r.y == 0,
        r.w == measured_width(*buffer),
        r.h == measured_height(*buffer),
{
    let mut width: u32 = 0;
    let mut rtl: bool = false;
    let mut i: usize = 0;
    while i < buffer.runs.len()
        invariant
            0 <= i <= buffer.runs@.len(),
            width == natural_width(buffer.runs@.take(i as int)),
            rtl == has_rtl(buffer.runs@.take(i as int)),
        decreases buffer.runs@.len() - i,
    {
        let run = buffer.runs[i];
        if run.rtl {
            rtl = true;
        }
        if run.width > width {
            width = run.width;
        }
        proof {
            assert(buffer.runs@.take(i + 1 as int).drop_last() =~= buffer.runs@.take(i as int));
            assert(buffer.runs@.take(i + 1 as int).last() == buffer.runs@[i as int]);
            if !buffer.runs@[i as int].rtl {
                assert(has_rtl(buffer.runs@.take(i + 1 as int)) == has_rtl(
                    buffer.runs@.take(i as int),
                )) by {
                    let a = buffer.runs@.take(i as int);
                    let b = buffer.runs@.take(i + 1 as int);
                    assert(forall|j: int| 0 <= j < a.len() ==> a[j] == b[j]);
                    if has_rtl(b) {
                        let j = choose|j: int| 0 <= j < b.len() && b[j].rtl;
                        assert(j < a.len());
                        assert(a[j].rtl);
                    }
                }
            }
        }
        i = i + 1;
    }
    proof {
        assert(buffer.runs@.take(buffer.runs@.len() as int) =~= buffer.runs@);
    }
    proof {
        assert((buffer.runs@.len() as int) * (buffer.line_height as int) <= (u32::MAX as int) * (
        u32::MAX as int)) by (nonlinear_arith)
            requires
                buffer.runs@.len() <= u32::MAX,
                buffer.line_height <= u32::MAX,
        ;
    }
    let height: u64 = (buffer.runs.len() as u64) * (buffer.line_height as u64);
    let limit: u64 = match buffer.max_width {
        Some(m) => m as u64,
        None => width as u64,
    };
    let w: u64 = if rtl {
        limit
    } else if (width as u64) <= limit {
        width as u64
    } else {
        limit
    };
    let h: u64 = match buffer.max_height {
        Some(m) => if height <= m as u64 {
            height
        } else {
            m as u64
        },
        None => height,
    };
    Rect { x: 0, y: 0, w, h }
}

/// For a buffer with no configured maximum height, the measured height is
/// exactly the line count times the line height.
pub proof fn lemma_height_unclamped(b: BufferModel)
    requires
        b.max_height is None,
    ensures
        measured_height(b) == b.runs@.len() * b.line_height,
{
}

/// For a buffer with a configured maximum width and no right-to-left line,
/// the measured width is the natural width clamped to that maximum: it
/// equals the smaller of the two and never exceeds the maximum.
pub proof fn lemma_width_clamped(b: BufferModel, m: u32)
    requires
        !has_rtl(b.runs@),
        b.max_width == Some(m),
    ensures
        measured_width(b) == if natural_width(b.runs@) <= m {
            natural_width(b.runs@)
        } else {
            m as int
        },
        measured_width(b) <= m,
{
}

/// For a buffer with at least one right-to-left line and a configured
/// maximum width, the measured width equals that maximum exactly,
/// whatever the natural widths of the lines are.
pub proof fn lemma_rtl_width_fills_box(b: BufferModel, m: u32)
    requires
        has_rtl(b.runs@),
        b.max_width == Some(m),
    ensures
        measured_width(b) == m,
{
}

} // verus!
