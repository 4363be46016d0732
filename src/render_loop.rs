use vstd::prelude::*;
use crate::surface::DrawOp;

verus! {

/// Side of the square that each frame fills.
pub const FRAME_SQUARE_SIZE: i32 = 50;

/// A frame's square has its corner in `[0, FRAME_SPAN)` on each axis.
pub const FRAME_SPAN: u32 = 100;

/// How many values a `u32` sample takes.
pub const SAMPLE_RANGE: u64 = 0x1_0000_0000;

/// Where in `[0, FRAME_SPAN)` a uniform sample in `[0, 2^32)` lands: the
/// sample read as a fraction of one, times the span, rounded down.
pub open spec fn offset_of(sample: u32) -> int {
    (sample as int * FRAME_SPAN as int) / SAMPLE_RANGE as int
}

/// The square a frame fills, for the samples that place it.
pub open spec fn frame_square(sample_x: u32, sample_y: u32) -> DrawOp {
    DrawOp::FillRect {
        x: offset_of(sample_x) as i32,
        y: offset_of(sample_y) as i32,
        w: FRAME_SQUARE_SIZE,
        h: FRAME_SQUARE_SIZE,
    }
}

/// What the host does after a frame callback.
#[derive(Clone, Copy, Debug, PartialEq, Eq, Structural)]
pub enum FrameAction {
    /// Fill `square`, then ask for the next frame and report its handle.
    PaintAndReschedule { square: DrawOp },
    /// Do nothing more: the loop has ended.
    Finish,
}

/// The state of a render loop, as the host sees it.
pub struct LoopState {
    /// The handle of the frame request that is pending, if any.
    pub animation_id: Option<i32>,
    /// Whether the loop still holds its callback, and so keeps going.
    pub active: bool,
}

/// The state after a frame callback in state `s`, and what the host is to do.
pub open spec fn frame_step(s: LoopState, sample_x: u32, sample_y: u32) -> (LoopState, FrameAction) {
    if s.active {
        (s, FrameAction::PaintAndReschedule { square: frame_square(sample_x, sample_y) })
    } else {
        (LoopState { animation_id: None, ..s }, FrameAction::Finish)
    }
}

/// One whole frame: the callback with the samples `f.0` and `f.1`, then, if
/// it asked for the next frame, the host reporting that request's handle
/// `f.2`.
pub open spec fn frame_cycle(s: LoopState, f: (u32, u32, i32)) -> (LoopState, FrameAction) {
    let (mid, act) = frame_step(s, f.0, f.1);
    match act {
        FrameAction::PaintAndReschedule { .. } => (LoopState { animation_id: Some(f.2), ..mid }, act),
        FrameAction::Finish => (mid, act),
    }
}

/// The state after the frames `fs`, in order from `s`, and what each asked of
/// the host.
pub open spec fn run_frames(s: LoopState, fs: Seq<(u32, u32, i32)>) -> (LoopState, Seq<FrameAction>)
    decreases fs.len(),
{
    if fs.len() == 0 {
        (s, Seq::empty())
    } else {
        let (mid, acts) = run_frames(s, fs.drop_last());
        let (end, act) = frame_cycle(mid, fs.last());
        (end, acts.push(act))
    }
}

/// The state after a stop request in state `s`.
pub open spec fn stopped(s: LoopState) -> LoopState {
    LoopState { active: false, ..s }
}

/// The number of frames in `acts` that painted and asked for another frame.
pub open spec fn paint_count(acts: Seq<FrameAction>) -> nat
    decreases acts.len(),
{
    if acts.len() == 0 {
        0
    } else {
        paint_count(acts.drop_last()) + if acts.last() is PaintAndReschedule { 1nat } else { 0nat }
    }
}

/// A render loop that paints a square each frame and asks the host for the
/// next frame, until it is told to stop.
pub struct RenderLoop {
    animation_id: Option<i32>,
    active: bool,
}

impl View for RenderLoop {
    type V = LoopState;

    closed spec fn view(&self) -> LoopState {
        LoopState { animation_id: self.animation_id, active: self.active }
    }
}

/// The corner offset for a uniform sample in `[0, 2^32)`: the sample read as
/// a fraction of one, times `FRAME_SPAN`, rounded down.
pub fn frame_offset(sample: u32) -> (r: i32)
    ensures
        r == offset_of(sample),
        0 <= r < FRAME_SPAN,
{
    proof {
        assert(sample as u64 * FRAME_SPAN as u64 <= u32::MAX as u64 * FRAME_SPAN as u64) by (nonlinear_arith)
            requires
                sample as u64 <= u32::MAX as u64,
        ;
    }
    let wide: u64 = sample as u64 * FRAME_SPAN as u64;
    let q: u64 = wide / SAMPLE_RANGE;
    proof {
        assert(wide < FRAME_SPAN as u64 * SAMPLE_RANGE) by (nonlinear_arith)
            requires
                wide == sample as u64 * FRAME_SPAN as u64,
                (sample as u64) < SAMPLE_RANGE,
        ;
        assert(q < FRAME_SPAN as u64) by (nonlinear_arith)
            requires
                wide < FRAME_SPAN as u64 * SAMPLE_RANGE,
                q == wide / SAMPLE_RANGE,
        ;
    }
    q as i32
}

impl RenderLoop {
    /// A loop that holds no callback yet, with the placeholder handle 0.
    pub fn new() -> (r: RenderLoop)
        ensures
            r@.animation_id == Some(0i32),
            !r@.active,
    {
        RenderLoop { animation_id: Some(0), active: false }
    }

    /// Records that the loop's callback is in place and that its first frame
    /// was requested under `handle`.
    pub fn begin(&mut self, handle: i32)
        ensures
            final(self)@.animation_id == Some(handle),
            final(self)@.active,
    {
        self.animation_id = Some(handle);
        self.active = true;
    }

    /// The frame callback. While the loop is active it asks for one square,
    /// placed by the two samples, and one more frame, and keeps its state.
    /// Once stopped it asks for nothing and forgets its pending handle.
    pub fn on_frame(&mut self, sample_x: u32, sample_y: u32) -> (r: FrameAction)
        ensures
            (final(self)@, r) == frame_step(old(self)@, sample_x, sample_y),
            old(self)@.active ==> r == (FrameAction::PaintAndReschedule {
                square: DrawOp::FillRect {
                    x: offset_of(sample_x) as i32,
                    y: offset_of(sample_y) as i32,
                    w: 50,
                    h: 50,
                },
            }),
            old(self)@.active ==> 0 <= offset_of(sample_x) < 100 && 0 <= offset_of(sample_y) < 100,
            !old(self)@.active ==> r == FrameAction::Finish && final(self)@.animation_id is None,
    {
        if self.active {
            let x = frame_offset(sample_x);
            let y = frame_offset(sample_y);
            FrameAction::PaintAndReschedule {
                square: DrawOp::FillRect { x, y, w: FRAME_SQUARE_SIZE, h: FRAME_SQUARE_SIZE },
            }
        } else {
            self.animation_id = None;
            FrameAction::Finish
        }
    }

    /// Records the handle of the frame that was just requested.
    pub fn rescheduled(&mut self, handle: i32)
        ensures
            final(self)@ == (LoopState { animation_id: Some(handle), ..old(self)@ }),
    {
        self.animation_id = Some(handle);
    }

    /// Asks the loop to end: the next frame callback will be its last and
    /// will paint nothing.
    pub fn stop(&mut self)
        ensures
            final(self)@ == stopped(old(self)@),
    {
        self.active = false;
    }

    /// The handle of the pending frame request, if any.
    pub fn animation_id(&self) -> (r: Option<i32>)
        ensures
            r == self@.animation_id,
    {
        self.animation_id
    }

    /// Whether the loop keeps going.
    pub fn is_active(&self) -> (r: bool)
        ensures
            r == self@.active,
    {
        self.active
    }
}

/// Once a loop is stopped, no later frame paints or asks for another
/// frame: every one finishes, the loop stays stopped, and after the first
/// no frame request is pending.
pub proof fn stopped_loop_paints_nothing(s: LoopState, fs: Seq<(u32, u32, i32)>)
    ensures
        ({
            let (end, acts) = run_frames(stopped(s), fs);
            &&& paint_count(acts) == 0
            &&& forall|i: int| 0 <= i < acts.len() ==> acts[i] == FrameAction::Finish
            &&& acts.len() == fs.len()
            &&& !end.active
            &&& fs.len() > 0 ==> end.animation_id is None
        }),
    decreases fs.len(),
{
    if fs.len() > 0 {
        stopped_loop_paints_nothing(s, fs.drop_last());
        let (mid, acts) = run_frames(stopped(s), fs.drop_last());
        let acts2 = run_frames(stopped(s), fs).1;
        assert(acts2.drop_last() =~= acts);
        assert forall|i: int| 0 <= i < acts2.len() implies acts2[i] == FrameAction::Finish by {
            if i < acts.len() {
                assert(acts2[i] == acts[i]);
            }
        }
    }
}

} // verus!
