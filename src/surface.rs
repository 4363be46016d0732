use vstd::prelude::*;

verus! {

/// Width in pixels of the canvas the program sets up.
pub const CANVAS_WIDTH: u32 = 640;

/// Height in pixels of the canvas the program sets up.
pub const CANVAS_HEIGHT: u32 = 480;

/// One command for a 2D canvas context that keeps a current path and a pen.
#[derive(Clone, Copy, Debug, PartialEq, Eq, Structural)]
pub enum DrawOp {
    /// Start a new, empty current path.
    BeginPath,
    /// Move the pen to a point without drawing.
    MoveTo { x: i32, y: i32 },
    /// Add a straight segment from the pen to a point.
    LineTo { x: i32, y: i32 },
    /// Render the current path's outline.
    Stroke,
    /// Fill a rectangle with its corner at `(x, y)`.
    FillRect { x: i32, y: i32, w: i32, h: i32 },
}

impl DrawOp {
    /// Whether the command puts pixels on the canvas (a stroke or a fill),
    /// as opposed to only shaping the current path.
    pub open spec fn renders(self) -> bool {
        self is Stroke || self is FillRect
    }
}

/// The number of commands in `ops` that put pixels on the canvas.
pub open spec fn render_count(ops: Seq<DrawOp>) -> nat
    decreases ops.len(),
{
    if ops.len() == 0 {
        0
    } else {
        render_count(ops.drop_last()) + if ops.last().renders() { 1nat } else { 0nat }
    }
}

/// Counting the rendering commands of two runs one after the other adds up.
pub proof fn lemma_render_count_concat(a: Seq<DrawOp>, b: Seq<DrawOp>)
    ensures
        render_count(a + b) == render_count(a) + render_count(b),
    decreases b.len(),
{
    if b.len() == 0 {
        assert(a + b =~= a);
    } else {
        lemma_render_count_concat(a, b.drop_last());
        assert((a + b).drop_last() =~= a + b.drop_last());
    }
}

} // verus!
