use vstd::prelude::*;
use crate::surface::{lemma_render_count_concat, render_count, DrawOp};

verus! {

/// Side of the square marker drawn where a stroke ends.
pub const END_MARKER_SIZE: i32 = 10;

/// A pointer event, at a position in the canvas's own coordinates.
#[derive(Clone, Copy, Debug, PartialEq, Eq, Structural)]
pub enum PointerEvent {
    Down { x: i32, y: i32 },
    Move { x: i32, y: i32 },
    Up { x: i32, y: i32 },
}

/// Commands issued when the pointer is pressed at `(x, y)`.
pub open spec fn down_ops(x: i32, y: i32) -> Seq<DrawOp> {
    seq![DrawOp::BeginPath, DrawOp::MoveTo { x, y }]
}

/// Commands issued when the pointer moves to `(x, y)` while drawing: one
/// stroked segment, then a fresh path starting at `(x, y)`.
pub open spec fn move_ops(x: i32, y: i32) -> Seq<DrawOp> {
    seq![DrawOp::LineTo { x, y }, DrawOp::Stroke, DrawOp::BeginPath, DrawOp::MoveTo { x, y }]
}

/// Commands issued when the pointer is released at `(x, y)`: a final stroked
/// segment and a filled square marker.
pub open spec fn up_ops(x: i32, y: i32) -> Seq<DrawOp> {
    seq![
        DrawOp::LineTo { x, y },
        DrawOp::Stroke,
        DrawOp::FillRect { x, y, w: END_MARKER_SIZE, h: END_MARKER_SIZE },
    ]
}

/// The state after `ev` in state `drawing`, and the commands it issues.
pub open spec fn step(drawing: bool, ev: PointerEvent) -> (bool, Seq<DrawOp>) {
    match ev {
        PointerEvent::Down { x, y } => (true, down_ops(x, y)),
        PointerEvent::Move { x, y } => if drawing {
            (true, move_ops(x, y))
        } else {
            (false, Seq::empty())
        },
        PointerEvent::Up { x, y } => (false, up_ops(x, y)),
    }
}

/// The state after the events `evs`, handled in order from state `drawing`,
/// and all the commands they issue, in order.
pub open spec fn replay(drawing: bool, evs: Seq<PointerEvent>) -> (bool, Seq<DrawOp>)
    decreases evs.len(),
{
    if evs.len() == 0 {
        (drawing, Seq::empty())
    } else {
        let (mid, first) = replay(drawing, evs.drop_last());
        let (end, last) = step(mid, evs.last());
        (end, first + last)
    }
}

/// Pointer moves at the given positions.
pub open spec fn moves(pts: Seq<(i32, i32)>) -> Seq<PointerEvent> {
    pts.map_values(|p: (i32, i32)| PointerEvent::Move { x: p.0, y: p.1 })
}

/// Replaying two runs of events one after the other is replaying the first,
/// then the second from where the first left the state.
pub proof fn lemma_replay_concat(drawing: bool, a: Seq<PointerEvent>, b: Seq<PointerEvent>)
    ensures
        replay(drawing, a + b) == ({
            let (mid, first) = replay(drawing, a);
            let (end, second) = replay(mid, b);
            (end, first + second)
        }),
    decreases b.len(),
{
    if b.len() == 0 {
        assert(a + b =~= a);
        assert(replay(drawing, a).1 + Seq::<DrawOp>::empty() =~= replay(drawing, a).1);
    } else {
        lemma_replay_concat(drawing, a, b.drop_last());
        assert((a + b).drop_last() =~= a + b.drop_last());
        assert((a + b).last() == b.last());
        let (mid, first) = replay(drawing, a);
        let (m2, o2) = replay(mid, b.drop_last());
        let (end, o3) = step(m2, b.last());
        assert(first + o2 + o3 =~= first + (o2 + o3));
    }
}

/// Replaying a single event is taking one step.
pub proof fn lemma_replay_one(drawing: bool, ev: PointerEvent)
    ensures
        replay(drawing, seq![ev]) == step(drawing, ev),
{
    let evs = seq![ev];
    assert(evs.drop_last() =~= Seq::<PointerEvent>::empty());
    assert(evs.last() == ev);
    assert(replay(drawing, evs.drop_last()) == (drawing, Seq::<DrawOp>::empty()));
    assert(Seq::<DrawOp>::empty() + step(drawing, ev).1 =~= step(drawing, ev).1);
}

/// During a stroke, each of `pts.len()` moves keeps the stroke going and
/// renders exactly once.
pub proof fn lemma_moves_while_drawing(pts: Seq<(i32, i32)>)
    ensures
        replay(true, moves(pts)).0,
        render_count(replay(true, moves(pts)).1) == pts.len(),
    decreases pts.len(),
{
    if pts.len() > 0 {
        let p = pts.last();
        lemma_moves_while_drawing(pts.drop_last());
        assert(moves(pts).drop_last() =~= moves(pts.drop_last()));
        let ops = replay(true, moves(pts.drop_last())).1;
        lemma_render_count_concat(ops, move_ops(p.0, p.1));
        let m = move_ops(p.0, p.1);
        assert(render_count(m) == 1) by {
            assert(m.drop_last().drop_last().drop_last().drop_last() =~= Seq::<DrawOp>::empty());
            reveal_with_fuel(render_count, 5);
        }
    }
}

/// A press, then moves at `pts`, then a release renders exactly
/// `pts.len() + 2` times: a stroke per move, and a stroke and a fill at the
/// release. No stroke is in progress afterwards.
pub proof fn drag_renders_moves_plus_two(
    x0: i32,
    y0: i32,
    pts: Seq<(i32, i32)>,
    x1: i32,
    y1: i32,
    drawing: bool,
)
    ensures
        ({
            let evs = seq![PointerEvent::Down { x: x0, y: y0 }] + moves(pts) + seq![
                PointerEvent::Up { x: x1, y: y1 },
            ];
            let (end, ops) = replay(drawing, evs);
            !end && render_count(ops) == pts.len() + 2
        }),
{
    let down = seq![PointerEvent::Down { x: x0, y: y0 }];
    let up = seq![PointerEvent::Up { x: x1, y: y1 }];
    lemma_replay_concat(drawing, down + moves(pts), up);
    lemma_replay_concat(drawing, down, moves(pts));
    lemma_moves_while_drawing(pts);
    lemma_replay_one(drawing, PointerEvent::Down { x: x0, y: y0 });
    lemma_replay_one(true, PointerEvent::Up { x: x1, y: y1 });
    let d = down_ops(x0, y0);
    let u = up_ops(x1, y1);
    let mv = replay(true, moves(pts)).1;
    assert(render_count(d) == 0) by {
        assert(d.drop_last().drop_last() =~= Seq::<DrawOp>::empty());
        reveal_with_fuel(render_count, 3);
    }
    assert(render_count(u) == 2) by {
        assert(u.drop_last().drop_last().drop_last() =~= Seq::<DrawOp>::empty());
        reveal_with_fuel(render_count, 4);
    }
    lemma_render_count_concat(d, mv);
    lemma_render_count_concat(d + mv, u);
}

/// Moves with no stroke in progress issue no command and leave the state
/// as it was.
pub proof fn idle_moves_draw_nothing(pts: Seq<(i32, i32)>)
    ensures
        replay(false, moves(pts)) == (false, Seq::<DrawOp>::empty()),
    decreases pts.len(),
{
    if pts.len() > 0 {
        idle_moves_draw_nothing(pts.drop_last());
        assert(moves(pts).drop_last() =~= moves(pts.drop_last()));
        assert(Seq::<DrawOp>::empty() + Seq::<DrawOp>::empty() =~= Seq::<DrawOp>::empty());
    }
}

/// Turns pointer presses, moves and releases into strokes. Its one piece of
/// state is whether a stroke is in progress.
pub struct DragTracker {
    drawing: bool,
}

impl View for DragTracker {
    type V = bool;

    /// Whether a stroke is in progress.
    closed spec fn view(&self) -> bool {
        self.drawing
    }
}

impl DragTracker {
    /// A tracker with no stroke in progress.
    pub fn new() -> (r: DragTracker)
        ensures
            !r@,
    {
        DragTracker { drawing: false }
    }

    /// Whether a stroke is in progress.
    pub fn is_drawing(&self) -> (r: bool)
        ensures
            r == self@,
    {
        self.drawing
    }

    /// Pressing the pointer starts a new path at `(x, y)` and a stroke.
    pub fn on_pointer_down(&mut self, x: i32, y: i32) -> (r: Vec<DrawOp>)
        ensures
            final(self)@,
            r@ == down_ops(x, y),
            (final(self)@, r@) == step(old(self)@, PointerEvent::Down { x, y }),
    {
        self.drawing = true;
        vec![DrawOp::BeginPath, DrawOp::MoveTo { x, y }]
    }

    /// Moving the pointer during a stroke draws a segment to `(x, y)` and
    /// restarts the path there; outside a stroke it does nothing.
    pub fn on_pointer_move(&mut self, x: i32, y: i32) -> (r: Vec<DrawOp>)
        ensures
            final(self)@ == old(self)@,
            old(self)@ ==> r@ == move_ops(x, y),
            !old(self)@ ==> r@.len() == 0,
            (final(self)@, r@) == step(old(self)@, PointerEvent::Move { x, y }),
    {
        if self.drawing {
            vec![DrawOp::LineTo { x, y }, DrawOp::Stroke, DrawOp::BeginPath, DrawOp::MoveTo { x, y }]
        } else {
            Vec::new()
        }
    }

    /// Releasing the pointer ends any stroke, draws a last segment to
    /// `(x, y)` and marks the end with a filled square. It does so whether or
    /// not a stroke was in progress.
    pub fn on_pointer_up(&mut self, x: i32, y: i32) -> (r: Vec<DrawOp>)
        ensures
            !final(self)@,
            r@ == up_ops(x, y),
            (final(self)@, r@) == step(old(self)@, PointerEvent::Up { x, y }),
    {
        self.drawing = false;
        vec![
            DrawOp::LineTo { x, y },
            DrawOp::Stroke,
            DrawOp::FillRect { x, y, w: END_MARKER_SIZE, h: END_MARKER_SIZE },
        ]
    }

    /// Handles one pointer event.
    pub fn handle(&mut self, ev: PointerEvent) -> (r: Vec<DrawOp>)
        ensures
            (final(self)@, r@) == step(old(self)@, ev),
    {
        match ev {
            PointerEvent::Down { x, y } => self.on_pointer_down(x, y),
            PointerEvent::Move { x, y } => self.on_pointer_move(x, y),
            PointerEvent::Up { x, y } => self.on_pointer_up(x, y),
        }
    }
}

} // verus!
