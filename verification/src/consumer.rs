//! The render side: what to do with the texture on each tick.
//!
//! Once per tick the render loop shows the consumer what its look at the frame
//! slot gave. The consumer answers with the one thing to do to the texture:
//! nothing, allocate, reallocate, update in place, or bind the decoder's own
//! texture. It keeps the record of the texture that results.

use crate::frame::{Dimensions, Frame, FrameView, PayloadView, PixelFormat};
use crate::slot::{FrameRef, FrameSlot, SlotView};
use vstd::prelude::*;

verus! {

/// Which texture a record stands for.
#[derive(Clone, Copy, Debug, PartialEq, Eq, Structural)]
pub enum TextureHandle {
    /// A texture that the render side allocated; the number tells allocations apart.
    Owned(u64),
    /// A texture that the decoder filled; the number is its name on the GPU.
    Shared(u32),
}

/// Record of the texture that the render loop draws.
#[derive(Clone, Copy, Debug, PartialEq, Eq, Structural)]
pub struct Texture {
    pub handle: TextureHandle,
    pub dims: Dimensions,
    pub format: PixelFormat,
}

/// What a tick did to the texture.
#[derive(Clone, Copy, Debug, PartialEq, Eq, Structural)]
pub enum UploadOutcome {
    /// No frame this tick; the texture, if any, stays as it is.
    Skipped,
    /// There was no texture of the render side's own: one was allocated for the frame.
    Allocated,
    /// The frame's size differs from the texture's: the texture was replaced.
    Reallocated,
    /// The frame's bytes go into the existing texture.
    Updated,
    /// The frame already lives in a texture of the decoder's, which is now the one to draw.
    Bound,
}

/// The handle issued after `issued`.
pub open spec fn next_handle(issued: u64) -> u64 {
    if issued == u64::MAX {
        0
    } else {
        (issued + 1) as u64
    }
}

/// Mathematical content of a [`FrameConsumer`].
pub struct ConsumerView {
    /// The texture to draw, once a frame has been seen.
    pub texture: Option<Texture>,
    /// The number that the next allocation gets.
    pub issued: u64,
}

impl ConsumerView {
    /// The texture of the render side's own, if it has one.
    pub open spec fn owned(self) -> Option<Texture> {
        match self.texture {
            Some(t) => if t.handle is Owned {
                Some(t)
            } else {
                None
            },
            None => None,
        }
    }

    /// A pixel frame was seen whose size is not that of the owned texture.
    pub open spec fn size_differs(self, seen: Option<FrameView>) -> bool {
        &&& seen is Some
        &&& seen->0.payload is Pixels
        &&& self.owned() is Some
        &&& self.owned()->0.dims != seen->0.dims
    }

    /// An owned texture carries the number issued just before the next one.
    pub open spec fn valid(self) -> bool {
        self.texture matches Some(t) ==> (t.handle matches TextureHandle::Owned(h)
            ==> self.issued == next_handle(h))
    }

    /// What a tick does when the look at the slot gave `seen`.
    pub open spec fn outcome(self, seen: Option<FrameView>) -> UploadOutcome {
        match seen {
            None => UploadOutcome::Skipped,
            Some(frame) => match frame.payload {
                PayloadView::Texture(_) => UploadOutcome::Bound,
                PayloadView::Pixels(_) => match self.owned() {
                    None => UploadOutcome::Allocated,
                    Some(t) => if t.dims == frame.dims {
                        UploadOutcome::Updated
                    } else {
                        UploadOutcome::Reallocated
                    },
                },
            },
        }
    }

    /// The consumer after a tick on which the look at the slot gave `seen`.
    pub open spec fn tick(self, seen: Option<FrameView>) -> ConsumerView {
        match self.outcome(seen) {
            UploadOutcome::Skipped | UploadOutcome::Updated => self,
            UploadOutcome::Bound => ConsumerView {
                texture: Some(
                    Texture {
                        handle: TextureHandle::Shared(seen->0.payload->Texture_0),
                        dims: seen->0.dims,
                        format: PixelFormat::Rgba8,
                    },
                ),
                issued: self.issued,
            },
            UploadOutcome::Allocated | UploadOutcome::Reallocated => ConsumerView {
                texture: Some(
                    Texture {
                        handle: TextureHandle::Owned(self.issued),
                        dims: seen->0.dims,
                        format: PixelFormat::Rgba8,
                    },
                ),
                issued: next_handle(self.issued),
            },
        }
    }
}

/// The render side's bookkeeping for the one texture it draws.
#[derive(Debug)]
pub struct FrameConsumer {
    texture: Option<Texture>,
    issued: u64,
}

impl View for FrameConsumer {
    type V = ConsumerView;

    closed spec fn view(&self) -> ConsumerView {
        ConsumerView { texture: self.texture, issued: self.issued }
    }
}

/// What a look at the slot gives, given what a non-blocking try at its guard gave.
pub open spec fn look(attempt: Option<SlotView>) -> Option<FrameView> {
    match attempt {
        Some(slot) => slot.take(true),
        None => None,
    }
}

/// The slot behind an optional reference, as a mathematical value.
pub open spec fn attempt_view(attempt: Option<&FrameSlot>) -> Option<SlotView> {
    match attempt {
        Some(slot) => Some(slot@),
        None => None,
    }
}

/// The frame behind an optional reference, as a mathematical value.
pub open spec fn frame_view(seen: Option<&Frame>) -> Option<FrameView> {
    match seen {
        Some(frame) => Some(frame@),
        None => None,
    }
}

/// The frame behind an optional handle, as a mathematical value.
pub open spec fn seen_view(seen: Option<FrameRef>) -> Option<FrameView> {
    match seen {
        Some(frame) => Some(frame@),
        None => None,
    }
}

impl FrameConsumer {
    #[verifier::type_invariant]
    spec fn well_formed(self) -> bool {
        self@.valid()
    }

    /// A consumer that has not seen a frame and has no texture.
    pub fn new() -> (consumer: FrameConsumer)
        ensures
            consumer@ == (ConsumerView { texture: None, issued: 0 }),
    {
        FrameConsumer { texture: None, issued: 0 }
    }

    /// The texture to draw, if any frame has been seen so far.
    pub fn texture(&self) -> (t: Option<Texture>)
        ensures
            t == self@.texture,
            self@.valid(),
    {
        proof {
            use_type_invariant(self);
        }
        self.texture
    }

    /// One render tick. `attempt` is what a non-blocking try at the slot's
    /// guard gave: the slot, or nothing when the decode side was inside. The
    /// tick looks at the slot once and does at most one thing to the texture,
    /// which the result names together with the frame to draw from. It never
    /// waits: without a frame the texture stays as it is. The texture is
    /// replaced exactly when a pixel frame arrives whose size differs from that
    /// of the texture the render side owns; with equal sizes the same texture,
    /// under the same handle, takes the new bytes.
    pub fn tick(&mut self, attempt: Option<&FrameSlot>) -> (done: (
        UploadOutcome,
        Option<FrameRef>,
    ))
        ensures
            seen_view(done.1) == look(attempt_view(attempt)),
            done.1 matches Some(f) ==> f@.valid(),
            done.0 == old(self)@.outcome(seen_view(done.1)),
            final(self)@ == old(self)@.tick(seen_view(done.1)),
            done.0 is Reallocated <==> old(self)@.size_differs(seen_view(done.1)),
            done.0 is Updated ==> final(self)@.texture == old(self)@.texture,
            done.0 is Skipped <==> done.1 is None,
            done.0 is Skipped ==> final(self)@ == old(self)@,
            done.0 is Reallocated ==> final(self)@.texture is Some,
            done.0 is Reallocated ==> final(self)@.texture->0.handle != old(self)@.texture->0.handle,
    {
        let seen = FrameSlot::try_take_latest(attempt);
        let outcome = match &seen {
            Some(frame) => self.upload(Some(&**frame)),
            None => self.upload(None),
        };
        (outcome, seen)
    }

    /// Decides what the frame seen on this tick does to the texture, and
    /// records the texture that results.
    fn upload(&mut self, seen: Option<&Frame>) -> (outcome: UploadOutcome)
        ensures
            outcome == old(self)@.outcome(frame_view(seen)),
            final(self)@ == old(self)@.tick(frame_view(seen)),
            final(self)@.valid(),
            old(self)@.valid(),
    {
        proof {
            use_type_invariant(&*self);
        }
        let frame = match seen {
            Some(frame) => frame,
            None => {
                return UploadOutcome::Skipped;
            },
        };
        let dims = frame.dimensions();
        match frame.texture() {
            Some(name) => {
                self.texture = Some(
                    Texture {
                        handle: TextureHandle::Shared(name),
                        dims,
                        format: PixelFormat::Rgba8,
                    },
                );
                UploadOutcome::Bound
            },
            None => {
                let owned: Option<Texture> = match self.texture {
                    Some(t) => match t.handle {
                        TextureHandle::Owned(_) => Some(t),
                        TextureHandle::Shared(_) => None,
                    },
                    None => None,
                };
                match owned {
                    Some(t) => {
                        if t.dims.width == dims.width && t.dims.height == dims.height {
                            UploadOutcome::Updated
                        } else {
                            self.allocate(dims);
                            UploadOutcome::Reallocated
                        }
                    },
                    None => {
                        self.allocate(dims);
                        UploadOutcome::Allocated
                    },
                }
            },
        }
    }

    /// Records a fresh texture of the given size under the next handle.
    fn allocate(&mut self, dims: Dimensions)
        ensures
            final(self)@ == (ConsumerView {
                texture: Some(
                    Texture {
                        handle: TextureHandle::Owned(old(self)@.issued),
                        dims,
                        format: PixelFormat::Rgba8,
                    },
                ),
                issued: next_handle(old(self)@.issued),
            }),
    {
        let handle: u64 = self.issued;
        let following: u64 = if handle == u64::MAX {
            0
        } else {
            handle + 1
        };
        *self = FrameConsumer {
            texture: Some(
                Texture { handle: TextureHandle::Owned(handle), dims, format: PixelFormat::Rgba8 },
            ),
            issued: following,
        };
    }
}

/// The consumer after one tick for each entry of `seen`, in order.
pub open spec fn run(start: ConsumerView, seen: Seq<Option<FrameView>>) -> ConsumerView
    decreases seen.len(),
{
    if seen.len() == 0 {
        start
    } else {
        run(start, seen.drop_last()).tick(seen.last())
    }
}

/// What tick number `at` of a run over `seen` does to the texture.
pub open spec fn outcome_at(
    start: ConsumerView,
    seen: Seq<Option<FrameView>>,
    at: int,
) -> UploadOutcome
    recommends
        0 <= at < seen.len(),
{
    run(start, seen.take(at)).outcome(seen[at])
}

/// Every frame of `seen` is a pixel frame of size `dims`.
pub open spec fn constant_size(seen: Seq<Option<FrameView>>, dims: Dimensions) -> bool {
    forall|i: int|
        0 <= i < seen.len() ==> (#[trigger] seen[i] matches Some(f) ==> f.dims == dims
            && f.payload is Pixels)
}

/// The consumer owns no texture, or one of size `dims`.
pub open spec fn fits(consumer: ConsumerView, dims: Dimensions) -> bool {
    consumer.owned() matches Some(t) ==> t.dims == dims
}

/// Over the first `n` ticks of a stream of constant size, a consumer that
/// owned no texture of another size still owns none of another size.
proof fn lemma_run_keeps_fit(
    start: ConsumerView,
    seen: Seq<Option<FrameView>>,
    dims: Dimensions,
    n: int,
)
    requires
        fits(start, dims),
        constant_size(seen, dims),
        0 <= n <= seen.len(),
    ensures
        fits(run(start, seen.take(n)), dims),
    decreases n,
{
    if n > 0 {
        lemma_run_keeps_fit(start, seen, dims, n - 1);
        assert(seen.take(n).drop_last() =~= seen.take(n - 1));
        assert(seen.take(n).last() == seen[n - 1]);
    }
}

/// Over the first `n` ticks of a stream of constant size, a consumer that
/// started without a texture has none until the first frame, and from then on
/// the one it allocated for that frame.
proof fn lemma_run_constant_size(
    start: ConsumerView,
    seen: Seq<Option<FrameView>>,
    dims: Dimensions,
    n: int,
)
    requires
        start.texture is None,
        constant_size(seen, dims),
        0 <= n <= seen.len(),
    ensures
        (forall|j: int| 0 <= j < n ==> seen[j] is None) ==> run(start, seen.take(n)) == start,
        (exists|j: int| 0 <= j < n && seen[j] is Some) ==> run(start, seen.take(n)).texture
            == Some(
            Texture {
                handle: TextureHandle::Owned(start.issued),
                dims,
                format: PixelFormat::Rgba8,
            },
        ),
    decreases n,
{
    if n > 0 {
        lemma_run_constant_size(start, seen, dims, n - 1);
        assert(seen.take(n).drop_last() =~= seen.take(n - 1));
        assert(seen.take(n).last() == seen[n - 1]);
        if exists|j: int| 0 <= j < n - 1 && seen[j] is Some {
        } else if seen[n - 1] is Some {
            assert(forall|j: int| 0 <= j < n - 1 ==> seen[j] is None);
        } else {
            assert forall|j: int| 0 <= j < n implies seen[j] is None by {
                if j < n - 1 {
                } else {
                }
            }
        }
    }
}

/// A stream of constant size never has the texture replaced, provided the
/// consumer does not start out owning a texture of another size.
pub proof fn lemma_constant_size_never_reallocates(
    start: ConsumerView,
    seen: Seq<Option<FrameView>>,
    dims: Dimensions,
    at: int,
)
    requires
        fits(start, dims),
        constant_size(seen, dims),
        0 <= at < seen.len(),
    ensures
        outcome_at(start, seen, at) !is Reallocated,
{
    lemma_run_keeps_fit(start, seen, dims, at);
}

/// A stream of constant size costs one allocation: a consumer that starts
/// without a texture allocates on the first tick that brings a frame, and on
/// every later tick that brings one it updates that same texture in place.
pub proof fn lemma_constant_size_allocates_once(
    start: ConsumerView,
    seen: Seq<Option<FrameView>>,
    dims: Dimensions,
    at: int,
)
    requires
        start.texture is None,
        constant_size(seen, dims),
        0 <= at < seen.len(),
    ensures
        outcome_at(start, seen, at) is Allocated <==> seen[at] is Some && (forall|j: int|
            0 <= j < at ==> seen[j] is None),
        outcome_at(start, seen, at) is Updated <==> seen[at] is Some && (exists|j: int|
            0 <= j < at && seen[j] is Some),
        outcome_at(start, seen, at) is Updated ==> run(start, seen.take(at + 1)).texture == Some(
            Texture {
                handle: TextureHandle::Owned(start.issued),
                dims,
                format: PixelFormat::Rgba8,
            },
        ),
{
    lemma_run_constant_size(start, seen, dims, at);
    lemma_run_constant_size(start, seen, dims, at + 1);
    if exists|j: int| 0 <= j < at && seen[j] is Some {
        let j = choose|j: int| 0 <= j < at && seen[j] is Some;
        assert(0 <= j < at + 1 && seen[j] is Some);
    }
}

} // verus!
