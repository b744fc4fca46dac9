//! Controller and slot together, over whole runs of events.
//!
//! Three things happen to a started pipeline, in any order: the engine
//! delivers a decoded sample, the engine posts a message on the bus, or the
//! caller stops the pipeline. The statements here say what any such run does
//! to the pipeline's state and to the frame that the render loop sees.

use crate::frame::{Dimensions, FrameView, PayloadView};
use crate::pipeline::{BusAction, ControllerView, MessageView, StateView};
use crate::slot::SlotView;
use vstd::prelude::*;

verus! {

/// One thing that happens to a pipeline.
pub enum Event {
    /// The engine delivers a decoded sample.
    Sample { dims: Dimensions, payload: PayloadView },
    /// The engine posts a message on the bus.
    Message(MessageView),
    /// The caller stops the pipeline.
    Stop,
}

/// The controller and the slot it publishes to.
pub struct SessionView {
    pub controller: ControllerView,
    pub slot: SlotView,
}

impl SessionView {
    /// The session after one event.
    pub open spec fn step(self, event: Event) -> SessionView {
        match event {
            Event::Sample { dims, payload } => SessionView {
                controller: self.controller,
                slot: self.controller.sample(self.slot, dims, payload).0,
            },
            Event::Message(msg) => SessionView {
                controller: self.controller.on_message(msg).0,
                slot: self.slot,
            },
            Event::Stop => SessionView { controller: self.controller.stop().0, slot: self.slot },
        }
    }

    /// What the caller is told to do upon one event.
    pub open spec fn action(self, event: Event) -> BusAction {
        match event {
            Event::Message(msg) => self.controller.on_message(msg).1,
            _ => BusAction::Nothing,
        }
    }
}

/// The session after the events `events`, in order.
pub open spec fn run(start: SessionView, events: Seq<Event>) -> SessionView
    decreases events.len(),
{
    if events.len() == 0 {
        start
    } else {
        run(start, events.drop_last()).step(events.last())
    }
}

/// What the caller is told to do upon event number `at`.
pub open spec fn action_at(start: SessionView, events: Seq<Event>, at: int) -> BusAction
    recommends
        0 <= at < events.len(),
{
    run(start, events.take(at)).action(events[at])
}

/// The event is neither an error message nor a stop.
pub open spec fn undisturbing(event: Event) -> bool {
    match event {
        Event::Message(MessageView::Error(_)) => false,
        Event::Stop => false,
        _ => true,
    }
}

/// No event is an error message or a stop.
pub open spec fn undisturbed(events: Seq<Event>) -> bool {
    forall|i: int| 0 <= i < events.len() ==> undisturbing(#[trigger] events[i])
}

/// A pipeline that does not play publishes nothing: whatever the engine
/// delivers, and whether or not the pipeline is stopped on the way, the slot
/// keeps the frame it has. The pipeline does not come to play of itself.
pub proof fn lemma_halted_pipeline_keeps_frame(start: SessionView, events: Seq<Event>)
    requires
        !(start.controller.state is Playing),
    ensures
        run(start, events).slot == start.slot,
        !(run(start, events).controller.state is Playing),
        run(start, events).controller.policy == start.controller.policy,
    decreases events.len(),
{
    if events.len() > 0 {
        lemma_halted_pipeline_keeps_frame(start, events.drop_last());
    }
}

/// Stopping leaves the slot alone, whenever it comes: the frame that the
/// render loop sees is the one it saw before.
pub proof fn lemma_stop_leaves_slot(start: SessionView, later: Seq<Event>)
    ensures
        start.step(Event::Stop).slot == start.slot,
        start.step(Event::Stop).controller.state is Null,
        run(start.step(Event::Stop), later).slot == start.slot,
{
    lemma_halted_pipeline_keeps_frame(start.step(Event::Stop), later);
}

/// Under the stop policy the end of the stream halts a live pipeline, and
/// from then on no frame is published: the slot stays as the end of the stream
/// found it, whatever else happens.
pub proof fn lemma_end_of_stream_halts(start: SessionView, later: Seq<Event>)
    requires
        start.controller.policy is Stop,
        start.controller.state.live(),
    ensures
        ({
            let halted = start.step(Event::Message(MessageView::EndOfStream));
            &&& halted.controller.state is EndOfStream
            &&& start.action(Event::Message(MessageView::EndOfStream)) is Nothing
            &&& run(halted, later).slot == start.slot
            &&& undisturbed(later) ==> run(halted, later).controller.state is EndOfStream
        }),
{
    let halted = start.step(Event::Message(MessageView::EndOfStream));
    lemma_halted_pipeline_keeps_frame(halted, later);
    lemma_undisturbed_keeps_end_of_stream(halted, later);
}

/// Without an error message and without a stop, a pipeline at the end of its
/// stream stays there.
proof fn lemma_undisturbed_keeps_end_of_stream(start: SessionView, events: Seq<Event>)
    requires
        start.controller.state is EndOfStream,
    ensures
        undisturbed(events) ==> run(start, events).controller.state is EndOfStream,
    decreases events.len(),
{
    if events.len() > 0 && undisturbed(events) {
        let front = events.drop_last();
        assert forall|i: int| 0 <= i < front.len() implies undisturbing(#[trigger] front[i]) by {
            assert(front[i] == events[i]);
        }
        lemma_undisturbed_keeps_end_of_stream(start, front);
        assert(undisturbing(events[events.len() - 1]));
    }
}

/// An error message puts any pipeline that is not stopped into the error
/// state with the message's text, and leaves the slot alone. After it the
/// slot keeps its frame whatever else happens, and until the pipeline is
/// stopped it stays in an error state.
pub proof fn lemma_error_freezes_last_frame(
    start: SessionView,
    detail: Seq<char>,
    later: Seq<Event>,
)
    requires
        !(start.controller.state is Null),
    ensures
        ({
            let failed = start.step(Event::Message(MessageView::Error(detail)));
            &&& failed.controller.state == StateView::Error(detail)
            &&& failed.slot == start.slot
            &&& run(failed, later).slot == start.slot
            &&& run(failed, later).controller.state is Error || run(
                failed,
                later,
            ).controller.state is Null
            &&& (forall|i: int| 0 <= i < later.len() ==> !(#[trigger] later[i] is Stop)) ==> run(
                failed,
                later,
            ).controller.state is Error
        }),
{
    let failed = start.step(Event::Message(MessageView::Error(detail)));
    lemma_halted_pipeline_keeps_frame(failed, later);
    lemma_error_state_stays(failed, later);
}

/// A pipeline in an error state stays in one until it is stopped, and a
/// stopped pipeline stays stopped.
proof fn lemma_error_state_stays(start: SessionView, events: Seq<Event>)
    requires
        start.controller.state is Error || start.controller.state is Null,
    ensures
        run(start, events).controller.state is Error || run(start, events).controller.state is Null,
        start.controller.state is Error && (forall|i: int|
            0 <= i < events.len() ==> !(#[trigger] events[i] is Stop)) ==> run(
            start,
            events,
        ).controller.state is Error,
    decreases events.len(),
{
    if events.len() > 0 {
        let front = events.drop_last();
        lemma_error_state_stays(start, front);
        if forall|i: int| 0 <= i < events.len() ==> !(#[trigger] events[i] is Stop) {
            assert forall|i: int| 0 <= i < front.len() implies !(#[trigger] front[i] is Stop) by {
                assert(front[i] == events[i]);
            }
            assert(!(events[events.len() - 1] is Stop));
        }
    }
}

/// Under the loop policy a playing pipeline plays on through every end of
/// stream: as long as no error arrives and nobody stops it the state stays
/// `Playing`, each end of stream is answered with a seek to the start, and a
/// sample that arrives afterwards is published like any other.
pub proof fn lemma_loop_plays_on(start: SessionView, events: Seq<Event>, at: int)
    requires
        start.controller.policy is Loop,
        start.controller.state is Playing,
        undisturbed(events),
        0 <= at < events.len(),
    ensures
        run(start, events).controller.state is Playing,
        events[at] == Event::Message(MessageView::EndOfStream) ==> action_at(start, events, at)
            is SeekToStart,
        forall|dims: Dimensions, payload: PayloadView|
            #![trigger run(start, events).step(Event::Sample { dims, payload })]
            {
                let frame = FrameView { dims, payload };
                frame.valid() && start.slot.accepts(frame) ==> run(start, events).step(
                    Event::Sample { dims, payload },
                ).slot.current == Some(frame)
            },
{
    lemma_loop_keeps_playing(start, events, events.len() as int);
    lemma_loop_keeps_playing(start, events, at);
    assert(events.take(events.len() as int) =~= events);
}

/// Under the loop policy, the first `n` events of an undisturbed run leave a
/// playing pipeline playing and the slot's required size untouched.
proof fn lemma_loop_keeps_playing(start: SessionView, events: Seq<Event>, n: int)
    requires
        start.controller.policy is Loop,
        start.controller.state is Playing,
        undisturbed(events),
        0 <= n <= events.len(),
    ensures
        run(start, events.take(n)).controller.state is Playing,
        run(start, events.take(n)).controller.policy is Loop,
        run(start, events.take(n)).slot.required == start.slot.required,
    decreases n,
{
    if n > 0 {
        lemma_loop_keeps_playing(start, events, n - 1);
        assert(events.take(n).drop_last() =~= events.take(n - 1));
        assert(events.take(n).last() == events[n - 1]);
        assert(undisturbing(events[n - 1]));
    }
}

} // verus!
