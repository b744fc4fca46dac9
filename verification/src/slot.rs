//! The single-frame cell between the decode side and the render loop.
//!
//! The decode side publishes whole frames; each one replaces whatever the cell
//! held, unread or not. The render loop looks at the cell once per tick through
//! a guard that it only ever tries to enter: when the guard is taken, the tick
//! goes without a frame. A `FrameSlot` is what lives behind that guard.

use crate::frame::{Dimensions, Frame, FrameView};
use std::sync::Arc;
use vstd::prelude::*;

verus! {

/// A shared handle to a published frame. Handing one out copies the handle,
/// never the pixels.
pub type FrameRef = Arc<Frame>;

/// Calls `Arc::clone`. Taken on trust: the new handle points to the same
/// allocation as `frame`, and so stands for the same frame.
#[verifier::external_body]
fn share(frame: &Arc<Frame>) -> (again: Arc<Frame>)
    ensures
        again == *frame,
{
    Arc::clone(frame)
}

/// Mathematical content of a [`FrameSlot`].
pub struct SlotView {
    /// The size every published frame must have, for a slot of fixed size.
    pub required: Option<Dimensions>,
    /// The most recently published frame.
    pub current: Option<FrameView>,
}

impl SlotView {
    /// Whether the slot takes the frame: a slot of fixed size takes only frames of that size.
    pub open spec fn accepts(self, frame: FrameView) -> bool {
        self.required matches Some(d) ==> frame.dims == d
    }

    /// The slot after `frame` has been offered to it.
    pub open spec fn publish(self, frame: FrameView) -> SlotView {
        if self.accepts(frame) {
            SlotView { required: self.required, current: Some(frame) }
        } else {
            self
        }
    }

    /// What one look at the slot yields, given whether the guard could be entered.
    pub open spec fn take(self, entered: bool) -> Option<FrameView> {
        if entered {
            self.current
        } else {
            None
        }
    }

    /// The stored frame is well formed and has the required size, if one is required.
    pub open spec fn valid(self) -> bool {
        self.current matches Some(f) ==> f.valid() && self.accepts(f)
    }
}

/// Why a publish was refused.
#[derive(Clone, Copy, Debug, PartialEq, Eq, Structural)]
pub enum SlotError {
    /// The slot has a fixed size and the frame has another.
    SizeMismatch { expected: Dimensions, actual: Dimensions },
}

/// Storage for the most recent decoded frame.
#[derive(Debug)]
pub struct FrameSlot {
    required: Option<Dimensions>,
    current: Option<Arc<Frame>>,
}

impl View for FrameSlot {
    type V = SlotView;

    closed spec fn view(&self) -> SlotView {
        SlotView {
            required: self.required,
            current: match self.current {
                Some(frame) => Some(frame@),
                None => None,
            },
        }
    }
}

impl FrameSlot {
    #[verifier::type_invariant]
    spec fn well_formed(self) -> bool {
        self.current matches Some(f) ==> self@.accepts(f@)
    }

    /// An empty slot that takes frames of any size; the first frame published
    /// decides what the render side allocates.
    pub fn new() -> (slot: FrameSlot)
        ensures
            slot@ == (SlotView { required: None, current: None }),
    {
        FrameSlot { required: None, current: None }
    }

    /// An empty slot for a stream of known size: every frame published must be
    /// `width` by `height`.
    pub fn with_size(width: u32, height: u32) -> (slot: FrameSlot)
        ensures
            slot@ == (SlotView { required: Some(Dimensions { width, height }), current: None }),
    {
        FrameSlot { required: Some(Dimensions { width, height }), current: None }
    }

    /// The size that this slot insists on, if any.
    pub fn required_size(&self) -> (d: Option<Dimensions>)
        ensures
            d == self@.required,
    {
        self.required
    }

    /// Stores `frame` in place of whatever the slot held. A slot of fixed size
    /// refuses a frame of another size and keeps what it had.
    pub fn publish(&mut self, frame: Frame) -> (outcome: Result<(), SlotError>)
        ensures
            final(self)@ == old(self)@.publish(frame@),
            outcome is Ok <==> old(self)@.accepts(frame@),
            outcome matches Err(e) ==> old(self)@.required is Some && e == (SlotError::SizeMismatch {
                expected: old(self)@.required->0,
                actual: frame@.dims,
            }),
    {
        let actual = frame.dimensions();
        match self.required {
            Some(expected) => {
                if expected.width != actual.width || expected.height != actual.height {
                    return Err(SlotError::SizeMismatch { expected, actual });
                }
            },
            None => {},
        }
        self.current = Some(Arc::new(frame));
        Ok(())
    }

    /// The frame most recently published, left in place.
    pub fn latest(&self) -> (frame: Option<&Frame>)
        ensures
            match frame {
                Some(f) => self@.current == Some(f@) && f@.valid() && self@.accepts(f@),
                None => self@.current is None,
            },
    {
        proof {
            use_type_invariant(self);
        }
        match &self.current {
            Some(frame) => {
                let frame: &Frame = &**frame;
                proof {
                    use_type_invariant(frame);
                }
                Some(frame)
            },
            None => None,
        }
    }

    /// One look at the slot from the render loop. `attempt` is what a
    /// non-blocking try at the slot's guard gave: the slot, or nothing when the
    /// decode side was inside. The look never waits, and it copies a handle
    /// only, so the guard can be left at once. The frame stays in the slot: the
    /// next look sees it again unless a newer one has arrived.
    pub fn try_take_latest(attempt: Option<&FrameSlot>) -> (frame: Option<FrameRef>)
        ensures
            match attempt {
                Some(slot) => match frame {
                    Some(f) => slot@.take(true) == Some(f@) && f@.valid() && slot@.accepts(f@),
                    None => slot@.take(true) is None,
                },
                None => frame is None,
            },
    {
        match attempt {
            Some(slot) => {
                proof {
                    use_type_invariant(slot);
                }
                match &slot.current {
                    Some(frame) => {
                        proof {
                            use_type_invariant(&**frame);
                        }
                        Some(share(frame))
                    },
                    None => None,
                }
            },
            None => None,
        }
    }
}

/// One call on a slot, as the model of a run sees it.
pub enum SlotOp {
    /// A publish of the given frame, run to completion.
    Publish(FrameView),
    /// A look by the render loop, which did or did not get into the guard.
    Take { entered: bool },
}

/// The slot after the calls `ops` were made on `start`, in order.
pub open spec fn replay(start: SlotView, ops: Seq<SlotOp>) -> SlotView
    decreases ops.len(),
{
    if ops.len() == 0 {
        start
    } else {
        let before = replay(start, ops.drop_last());
        match ops.last() {
            SlotOp::Publish(frame) => before.publish(frame),
            SlotOp::Take { .. } => before,
        }
    }
}

/// What the look at position `at` of `ops` hands to the render loop.
pub open spec fn taken(start: SlotView, ops: Seq<SlotOp>, at: int) -> Option<FrameView>
    recommends
        0 <= at < ops.len(),
        ops[at] is Take,
{
    replay(start, ops.take(at)).take(ops[at]->entered)
}

/// Call `i` of `ops` is a publish that the slot took.
pub open spec fn accepted_at(start: SlotView, ops: Seq<SlotOp>, i: int) -> bool {
    &&& 0 <= i < ops.len()
    &&& ops[i] matches SlotOp::Publish(frame)
    &&& start.accepts(frame)
}

/// The first `n` calls of `ops` leave the slot with the frame of the last
/// publish among them that it took, or with what it had when there is none.
proof fn lemma_replay_prefix(start: SlotView, ops: Seq<SlotOp>, n: int)
    requires
        0 <= n <= ops.len(),
    ensures
        replay(start, ops.take(n)).required == start.required,
        (forall|j: int| 0 <= j < n ==> !accepted_at(start, ops, j)) ==> replay(
            start,
            ops.take(n),
        ).current == start.current,
        forall|i: int|
            0 <= i < n && accepted_at(start, ops, i) && (forall|j: int|
                i < j < n ==> !accepted_at(start, ops, j)) ==> replay(start, ops.take(n)).current
                == Some(#[trigger] ops[i]->Publish_0),
    decreases n,
{
    if n > 0 {
        lemma_replay_prefix(start, ops, n - 1);
        assert(ops.take(n).drop_last() =~= ops.take(n - 1));
        assert(ops.take(n).last() == ops[n - 1]);
        let before = replay(start, ops.take(n - 1));
        let after = replay(start, ops.take(n));
        if accepted_at(start, ops, n - 1) {
            assert(after.current == Some(ops[n - 1]->Publish_0));
        } else {
            assert(after == before);
        }
    }
}

/// A look that gets into the guard returns the frame of the newest publish
/// completed before it, however many publishes and looks came earlier; a look
/// that does not get in returns nothing.
pub proof fn lemma_take_sees_newest_publish(start: SlotView, ops: Seq<SlotOp>, at: int)
    requires
        0 <= at < ops.len(),
        ops[at] is Take,
    ensures
        !ops[at]->entered ==> taken(start, ops, at) is None,
        ops[at]->entered && (forall|j: int| 0 <= j < at ==> !accepted_at(start, ops, j))
            ==> taken(start, ops, at) == start.current,
        forall|i: int|
            ops[at]->entered && 0 <= i < at && accepted_at(start, ops, i) && (forall|j: int|
                i < j < at ==> !accepted_at(start, ops, j)) ==> taken(start, ops, at) == Some(
                #[trigger] ops[i]->Publish_0,
            ),
{
    lemma_replay_prefix(start, ops, at);
}

/// Looks leave the slot as it is: over a stretch of calls without a publish
/// the slot does not change.
proof fn lemma_looks_leave_slot(start: SlotView, ops: Seq<SlotOp>, lo: int, hi: int)
    requires
        0 <= lo <= hi <= ops.len(),
        forall|k: int| lo <= k < hi ==> ops[k] is Take,
    ensures
        replay(start, ops.take(lo)) == replay(start, ops.take(hi)),
    decreases hi - lo,
{
    if lo < hi {
        lemma_looks_leave_slot(start, ops, lo, hi - 1);
        assert(ops.take(hi).drop_last() =~= ops.take(hi - 1));
        assert(ops.take(hi).last() == ops[hi - 1]);
    }
}

/// Two looks that both get into the guard, with no publish between them,
/// return the same frame.
pub proof fn lemma_repeated_take_is_stable(
    start: SlotView,
    ops: Seq<SlotOp>,
    first: int,
    second: int,
)
    requires
        0 <= first <= second < ops.len(),
        ops[first] matches SlotOp::Take { entered } && entered,
        ops[second] matches SlotOp::Take { entered } && entered,
        forall|k: int| first < k < second ==> ops[k] is Take,
    ensures
        taken(start, ops, first) == taken(start, ops, second),
{
    lemma_looks_leave_slot(start, ops, first, second);
}

/// The position of the newest publish that the slot took among the first `at`
/// calls of `ops`, or -1 where it took none.
pub open spec fn newest_accepted(start: SlotView, ops: Seq<SlotOp>, at: int) -> int
    decreases at,
{
    if at <= 0 {
        -1
    } else if accepted_at(start, ops, at - 1) {
        at - 1
    } else {
        newest_accepted(start, ops, at - 1)
    }
}

/// `newest_accepted` is what its name says: a publish that the slot took,
/// before `at`, with none that it took after it; or -1 when there is none.
proof fn lemma_newest_accepted(start: SlotView, ops: Seq<SlotOp>, at: int)
    requires
        0 <= at <= ops.len(),
    ensures
        -1 <= newest_accepted(start, ops, at) < at,
        newest_accepted(start, ops, at) >= 0 ==> accepted_at(
            start,
            ops,
            newest_accepted(start, ops, at),
        ),
        forall|j: int|
            newest_accepted(start, ops, at) < j < at ==> !accepted_at(start, ops, j),
    decreases at,
{
    if at > 0 && !accepted_at(start, ops, at - 1) {
        lemma_newest_accepted(start, ops, at - 1);
    }
}

/// The render loop sees frames in the order in which they were produced: of
/// two looks that get into the guard, the later one never returns a frame
/// published before the one that the earlier look returned. Frames in between
/// may go unseen.
pub proof fn lemma_takes_follow_production_order(
    start: SlotView,
    ops: Seq<SlotOp>,
    first: int,
    second: int,
)
    requires
        0 <= first <= second < ops.len(),
        ops[first] matches SlotOp::Take { entered } && entered,
        ops[second] matches SlotOp::Take { entered } && entered,
    ensures
        newest_accepted(start, ops, first) <= newest_accepted(start, ops, second),
        taken(start, ops, first) == if newest_accepted(start, ops, first) >= 0 {
            Some(ops[newest_accepted(start, ops, first)]->Publish_0)
        } else {
            start.current
        },
        taken(start, ops, second) == if newest_accepted(start, ops, second) >= 0 {
            Some(ops[newest_accepted(start, ops, second)]->Publish_0)
        } else {
            start.current
        },
{
    lemma_newest_accepted(start, ops, first);
    lemma_newest_accepted(start, ops, second);
    lemma_take_sees_newest_publish(start, ops, first);
    lemma_take_sees_newest_publish(start, ops, second);
    let a = newest_accepted(start, ops, first);
    let b = newest_accepted(start, ops, second);
    if a >= 0 {
        assert(accepted_at(start, ops, a));
        assert(ops[a]->Publish_0 == ops[a]->Publish_0);
    }
    if b >= 0 {
        assert(accepted_at(start, ops, b));
        assert(ops[b]->Publish_0 == ops[b]->Publish_0);
    }
}

/// Publishing keeps a valid slot valid, whatever well-formed frame is offered.
pub proof fn lemma_publish_keeps_valid(slot: SlotView, frame: FrameView)
    requires
        slot.valid(),
        frame.valid(),
    ensures
        slot.publish(frame).valid(),
        slot.publish(frame).required == slot.required,
{
}

} // verus!
