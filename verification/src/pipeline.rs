//! The decode pipeline's lifecycle, as the controller keeps it.
//!
//! The engine that decodes runs on threads of its own. The controller never
//! calls it: it is told what the engine answered (which elements could be made,
//! whether a state change went through, what arrived on the bus, which sample
//! was decoded) and decides what follows: the new state, what to hand to the
//! frame slot, and what the caller is to ask of the engine next.

use crate::frame::{Dimensions, Frame, FrameView, PayloadView};
use crate::gl_bridge::{
    kind_of,
    BridgeCommand,
    BridgeView,
    ContextReply,
    CurrentContext,
    GlContextBridge,
};
use crate::slot::{FrameSlot, SlotView};
use crate::topology::{
    first_missing,
    first_missing_role,
    has_all,
    is_first_missing,
    required_elements,
    required_roles,
    ElementProbe,
    ElementRole,
    MediaSource,
    MediaSourceView,
    SinkCapabilities,
};
use vstd::prelude::*;

verus! {

/// What to do when the stream runs out.
#[derive(Clone, Copy, Debug, PartialEq, Eq, Structural)]
pub enum EosPolicy {
    /// Stay on the last frame.
    Stop,
    /// Seek back to the start and play on.
    Loop,
}

/// Where the pipeline stands.
#[derive(Debug, PartialEq, Eq)]
pub enum PipelineState {
    Null,
    Ready,
    Paused,
    Playing,
    EndOfStream,
    /// The engine reported an error; the text is what it said.
    Error(String),
}

/// Mathematical content of a [`PipelineState`].
pub enum StateView {
    Null,
    Ready,
    Paused,
    Playing,
    EndOfStream,
    Error(Seq<char>),
}

impl View for PipelineState {
    type V = StateView;

    open spec fn view(&self) -> StateView {
        match self {
            PipelineState::Null => StateView::Null,
            PipelineState::Ready => StateView::Ready,
            PipelineState::Paused => StateView::Paused,
            PipelineState::Playing => StateView::Playing,
            PipelineState::EndOfStream => StateView::EndOfStream,
            PipelineState::Error(detail) => StateView::Error(detail@),
        }
    }
}

impl Clone for PipelineState {
    fn clone(&self) -> (copy: PipelineState)
        ensures
            copy@ == self@,
    {
        match self {
            PipelineState::Null => PipelineState::Null,
            PipelineState::Ready => PipelineState::Ready,
            PipelineState::Paused => PipelineState::Paused,
            PipelineState::Playing => PipelineState::Playing,
            PipelineState::EndOfStream => PipelineState::EndOfStream,
            PipelineState::Error(detail) => PipelineState::Error(detail.clone()),
        }
    }
}

impl StateView {
    /// The engine holds a pipeline that may still deliver: messages on
    /// end of stream are acted on only then.
    pub open spec fn live(self) -> bool {
        self is Ready || self is Paused || self is Playing
    }
}

/// One change of state asked of the engine during start-up.
#[derive(Clone, Copy, Debug, PartialEq, Eq, Structural)]
pub enum Hop {
    ToReady,
    ToPlaying,
}

/// Why the controller refused, or what the engine refused.
#[derive(Clone, Copy, Debug, PartialEq, Eq, Structural)]
pub enum PipelineError {
    /// An element that the pipeline needs could not be made.
    ElementCreation(ElementRole),
    /// The engine refused a change of state.
    StateTransition(Hop),
    /// There is no pipeline to start.
    NotConfigured,
    /// The pipeline has to be stopped before this can be done.
    NotStopped,
}

/// The pipeline as configured.
#[derive(Debug, PartialEq, Eq)]
pub struct Topology {
    pub source: MediaSource,
    pub caps: SinkCapabilities,
}

/// Mathematical content of a [`Topology`].
pub struct TopologyView {
    pub source: MediaSourceView,
    pub caps: SinkCapabilities,
}

impl View for Topology {
    type V = TopologyView;

    open spec fn view(&self) -> TopologyView {
        TopologyView { source: self.source@, caps: self.caps }
    }
}

impl Clone for Topology {
    fn clone(&self) -> (copy: Topology)
        ensures
            copy@ == self@,
    {
        Topology { source: self.source.clone(), caps: self.caps }
    }
}

/// A message from the engine's bus.
#[derive(Debug, PartialEq, Eq)]
pub enum BusMessage {
    EndOfStream,
    Error(String),
    NeedContext { context_type: String, from_element: bool },
}

/// Mathematical content of a [`BusMessage`].
pub enum MessageView {
    EndOfStream,
    Error(Seq<char>),
    NeedContext { context_type: Seq<char>, from_element: bool },
}

impl View for BusMessage {
    type V = MessageView;

    open spec fn view(&self) -> MessageView {
        match self {
            BusMessage::EndOfStream => MessageView::EndOfStream,
            BusMessage::Error(detail) => MessageView::Error(detail@),
            BusMessage::NeedContext { context_type, from_element } => MessageView::NeedContext {
                context_type: context_type@,
                from_element: *from_element,
            },
        }
    }
}

impl Clone for BusMessage {
    fn clone(&self) -> (copy: BusMessage)
        ensures
            copy@ == self@,
    {
        match self {
            BusMessage::EndOfStream => BusMessage::EndOfStream,
            BusMessage::Error(detail) => BusMessage::Error(detail.clone()),
            BusMessage::NeedContext { context_type, from_element } => BusMessage::NeedContext {
                context_type: context_type.clone(),
                from_element: *from_element,
            },
        }
    }
}

/// What the caller is to do in answer to a bus message.
#[derive(Clone, Copy, Debug, PartialEq, Eq, Structural)]
pub enum BusAction {
    Nothing,
    /// Seek the pipeline to time zero.
    SeekToStart,
    /// Set the graphics display as context on the element that asked.
    ProvideDisplay,
    /// Set the wrapped application context on the element that asked.
    ProvideAppContext,
}

/// What became of a decoded sample.
#[derive(Clone, Copy, Debug, PartialEq, Eq, Structural)]
pub enum SampleOutcome {
    /// The sample is now the slot's frame.
    Published,
    /// The pipeline is not playing; the sample was dropped.
    NotPlaying,
    /// The bytes do not make a frame of the stated size; the sample was dropped.
    Malformed,
    /// The slot takes frames of another size; the sample was dropped.
    SizeMismatch,
}

/// What a stop leaves for the caller to release.
#[derive(Clone, Copy, Debug, PartialEq, Eq, Structural)]
pub struct Teardown {
    /// The engine's pipeline is to be set to its null state and let go.
    pub release_pipeline: bool,
    /// The shared graphics context is to be let go.
    pub release_context: bool,
    /// The context to make current again on the render thread, where the
    /// bridge had taken it away and not yet handed it back.
    pub restore: Option<CurrentContext>,
}

/// The action that carries out a reply to a context request.
pub open spec fn action_for(reply: ContextReply) -> BusAction {
    match reply {
        ContextReply::Nothing => BusAction::Nothing,
        ContextReply::Display => BusAction::ProvideDisplay,
        ContextReply::Application => BusAction::ProvideAppContext,
    }
}

/// Mathematical content of a [`PipelineController`].
pub struct ControllerView {
    pub policy: EosPolicy,
    pub state: StateView,
    pub topology: Option<TopologyView>,
    pub bridge: Option<BridgeView>,
}

impl ControllerView {
    /// A pipeline that has left the null state has been configured.
    pub open spec fn valid(self) -> bool {
        !(self.state is Null) ==> self.topology is Some
    }

    /// This controller in another state.
    pub open spec fn in_state(self, state: StateView) -> ControllerView {
        ControllerView {
            policy: self.policy,
            state,
            topology: self.topology,
            bridge: self.bridge,
        }
    }

    /// Configuring. A pipeline that is not stopped is left alone. Otherwise
    /// the first element that could not be made is the error and nothing
    /// changes; with every element there, the pipeline is ready.
    pub open spec fn configure(
        self,
        source: MediaSourceView,
        caps: SinkCapabilities,
        probe: ElementProbe,
    ) -> (ControllerView, Result<(), PipelineError>) {
        if !(self.state is Null) {
            (self, Err(PipelineError::NotStopped))
        } else {
            match first_missing_role(required_roles(source, caps.stage), probe) {
                Some(role) => (self, Err(PipelineError::ElementCreation(role))),
                None => (
                    ControllerView {
                        policy: self.policy,
                        state: StateView::Ready,
                        topology: Some(TopologyView { source, caps }),
                        bridge: self.bridge,
                    },
                    Ok(()),
                ),
            }
        }
    }

    /// The changes of state that a start has to ask of the engine, in order.
    pub open spec fn start_plan(self) -> Result<Seq<Hop>, PipelineError> {
        if self.topology is None {
            Err(PipelineError::NotConfigured)
        } else {
            match self.state {
                StateView::Null => Ok(seq![Hop::ToReady, Hop::ToPlaying]),
                StateView::Ready | StateView::Paused => Ok(seq![Hop::ToPlaying]),
                StateView::Playing => Ok(Seq::empty()),
                StateView::EndOfStream | StateView::Error(_) => Err(PipelineError::NotStopped),
            }
        }
    }

    /// Starting, given the change of state that the engine refused, if it
    /// refused one. A refusal ends the start and leaves the pipeline in the
    /// state reached before it.
    pub open spec fn start(self, refused: Option<Hop>) -> (
        ControllerView,
        Result<(), PipelineError>,
    ) {
        match self.start_plan() {
            Err(e) => (self, Err(e)),
            Ok(_) => match refused {
                None => (self.in_state(StateView::Playing), Ok(())),
                Some(Hop::ToReady) => (self, Err(PipelineError::StateTransition(Hop::ToReady))),
                Some(Hop::ToPlaying) => (
                    if self.state is Null {
                        self.in_state(StateView::Ready)
                    } else {
                        self
                    },
                    Err(PipelineError::StateTransition(Hop::ToPlaying)),
                ),
            },
        }
    }

    /// Stopping: back to the null state, with the shared context let go. The
    /// configuration stays, so the pipeline can be started again.
    pub open spec fn stop(self) -> (ControllerView, Teardown) {
        (
            ControllerView {
                policy: self.policy,
                state: StateView::Null,
                topology: self.topology,
                bridge: None,
            },
            Teardown {
                release_pipeline: !(self.state is Null),
                release_context: self.bridge is Some,
                restore: match self.bridge {
                    Some(bridge) => match bridge.release().1 {
                        BridgeCommand::Restore(current) => Some(current),
                        _ => None,
                    },
                    None => None,
                },
            },
        )
    }

    /// A bus message. End of stream halts a live pipeline or, under the loop
    /// policy, sends it back to the start without a change of state. An error
    /// is kept as the state of any pipeline that is not stopped. A context
    /// request is the bridge's to answer, and changes nothing.
    pub open spec fn on_message(self, msg: MessageView) -> (ControllerView, BusAction) {
        match msg {
            MessageView::EndOfStream => if !self.state.live() {
                (self, BusAction::Nothing)
            } else {
                match self.policy {
                    EosPolicy::Stop => (self.in_state(StateView::EndOfStream), BusAction::Nothing),
                    EosPolicy::Loop => (self, BusAction::SeekToStart),
                }
            },
            MessageView::Error(detail) => if self.state is Null {
                (self, BusAction::Nothing)
            } else {
                (self.in_state(StateView::Error(detail)), BusAction::Nothing)
            },
            MessageView::NeedContext { context_type, from_element } => (
                self,
                match self.bridge {
                    Some(bridge) => action_for(bridge.reply(kind_of(context_type), from_element)),
                    None => BusAction::Nothing,
                },
            ),
        }
    }

    /// A decoded sample. It reaches the slot only while the pipeline plays,
    /// only if it makes a well-formed frame, and only if the slot takes it.
    pub open spec fn sample(self, slot: SlotView, dims: Dimensions, payload: PayloadView) -> (
        SlotView,
        SampleOutcome,
    ) {
        let frame = FrameView { dims, payload };
        if !(self.state is Playing) {
            (slot, SampleOutcome::NotPlaying)
        } else if !frame.valid() {
            (slot, SampleOutcome::Malformed)
        } else if !slot.accepts(frame) {
            (slot, SampleOutcome::SizeMismatch)
        } else {
            (slot.publish(frame), SampleOutcome::Published)
        }
    }
}

/// An optional bridge, as a mathematical value.
pub open spec fn bridge_view(bridge: Option<GlContextBridge>) -> Option<BridgeView> {
    match bridge {
        Some(b) => Some(b@),
        None => None,
    }
}

/// Keeps the lifecycle of one decode pipeline.
#[derive(Debug)]
pub struct PipelineController {
    policy: EosPolicy,
    state: PipelineState,
    topology: Option<Topology>,
    bridge: Option<GlContextBridge>,
}

impl View for PipelineController {
    type V = ControllerView;

    closed spec fn view(&self) -> ControllerView {
        ControllerView {
            policy: self.policy,
            state: self.state@,
            topology: match self.topology {
                Some(t) => Some(t@),
                None => None,
            },
            bridge: bridge_view(self.bridge),
        }
    }
}

impl PipelineController {
    #[verifier::type_invariant]
    spec fn well_formed(self) -> bool {
        self@.valid()
    }

    /// A controller with no pipeline yet, which will treat the end of the
    /// stream as `policy` says.
    pub fn new(policy: EosPolicy) -> (controller: PipelineController)
        ensures
            controller@ == (ControllerView {
                policy,
                state: StateView::Null,
                topology: None,
                bridge: None,
            }),
    {
        PipelineController { policy, state: PipelineState::Null, topology: None, bridge: None }
    }

    /// Where the pipeline stands.
    pub fn state(&self) -> (state: &PipelineState)
        ensures
            state@ == self@.state,
            self@.valid(),
    {
        proof {
            use_type_invariant(self);
        }
        &self.state
    }

    /// What this controller does when the stream runs out.
    pub fn policy(&self) -> (policy: EosPolicy)
        ensures
            policy == self@.policy,
    {
        self.policy
    }

    /// The pipeline as it was last configured, if it ever was.
    pub fn topology(&self) -> (topology: Option<&Topology>)
        ensures
            match topology {
                Some(t) => self@.topology == Some(t@),
                None => self@.topology is None,
            },
    {
        self.topology.as_ref()
    }

    /// Hands the controller the bridge that answers context requests. The
    /// bridge that was there before, if any, comes back to the caller.
    pub fn attach_bridge(&mut self, bridge: GlContextBridge) -> (previous: Option<
        GlContextBridge,
    >)
        ensures
            final(self)@ == (ControllerView {
                policy: old(self)@.policy,
                state: old(self)@.state,
                topology: old(self)@.topology,
                bridge: Some(bridge@),
            }),
            bridge_view(previous) == old(self)@.bridge,
    {
        proof {
            use_type_invariant(&*self);
        }
        let mut incoming: Option<GlContextBridge> = Some(bridge);
        std::mem::swap(&mut self.bridge, &mut incoming);
        incoming
    }

    /// Builds the pipeline: source, then the stage that `caps` asks for, then
    /// the sink. `probe` says which elements the engine could make. Fails with
    /// the first element that is needed and missing, and then leaves no pipeline
    /// behind; fails too on a pipeline that has not been stopped.
    pub fn configure(
        &mut self,
        source: MediaSource,
        caps: SinkCapabilities,
        probe: &ElementProbe,
    ) -> (outcome: Result<(), PipelineError>)
        ensures
            (final(self)@, outcome) == old(self)@.configure(source@, caps, *probe),
            outcome is Ok <==> old(self)@.state is Null && has_all(
                required_roles(source@, caps.stage),
                *probe,
            ),
            outcome is Ok ==> final(self)@.state is Ready,
            outcome matches Err(PipelineError::ElementCreation(role)) ==> is_first_missing(
                required_roles(source@, caps.stage),
                *probe,
                role,
            ),
    {
        proof {
            use_type_invariant(&*self);
        }
        match self.state {
            PipelineState::Null => {},
            _ => {
                return Err(PipelineError::NotStopped);
            },
        }
        let roles = required_elements(&source, caps.stage);
        match first_missing(&roles, probe) {
            Some(role) => Err(PipelineError::ElementCreation(role)),
            None => {
                self.topology = Some(Topology { source, caps });
                self.state = PipelineState::Ready;
                Ok(())
            },
        }
    }

    /// The changes of state that a start has to ask of the engine now, in
    /// order. The caller asks for one after the other and stops at the first
    /// that the engine refuses.
    pub fn start_plan(&self) -> (plan: Result<Vec<Hop>, PipelineError>)
        ensures
            match plan {
                Ok(hops) => self@.start_plan() == Ok::<Seq<Hop>, PipelineError>(hops@),
                Err(e) => self@.start_plan() == Err::<Seq<Hop>, PipelineError>(e),
            },
    {
        if self.topology.is_none() {
            return Err(PipelineError::NotConfigured);
        }
        let mut hops: Vec<Hop> = Vec::new();
        match self.state {
            PipelineState::Null => {
                hops.push(Hop::ToReady);
                hops.push(Hop::ToPlaying);
                assert(hops@ =~= seq![Hop::ToReady, Hop::ToPlaying]);
            },
            PipelineState::Ready | PipelineState::Paused => {
                hops.push(Hop::ToPlaying);
                assert(hops@ =~= seq![Hop::ToPlaying]);
            },
            PipelineState::Playing => {
                assert(hops@ =~= Seq::<Hop>::empty());
            },
            PipelineState::EndOfStream | PipelineState::Error(_) => {
                return Err(PipelineError::NotStopped);
            },
        }
        Ok(hops)
    }

    /// Starts the pipeline, given how the engine took the changes of state
    /// that [`start_plan`](Self::start_plan) called for: `refused` is the one
    /// it refused, or nothing when it made them all. With none refused the
    /// pipeline plays. A refusal is the error, and the pipeline stays in the
    /// state it had reached.
    pub fn start(&mut self, refused: Option<Hop>) -> (outcome: Result<(), PipelineError>)
        ensures
            (final(self)@, outcome) == old(self)@.start(refused),
            outcome is Ok <==> old(self)@.start_plan() is Ok && refused is None,
            outcome is Ok ==> final(self)@.state is Playing,
    {
        proof {
            use_type_invariant(&*self);
        }
        if self.topology.is_none() {
            return Err(PipelineError::NotConfigured);
        }
        let stopped = match self.state {
            PipelineState::Null => true,
            PipelineState::EndOfStream | PipelineState::Error(_) => {
                return Err(PipelineError::NotStopped);
            },
            _ => false,
        };
        match refused {
            None => {
                self.state = PipelineState::Playing;
                Ok(())
            },
            Some(Hop::ToReady) => Err(PipelineError::StateTransition(Hop::ToReady)),
            Some(Hop::ToPlaying) => {
                if stopped {
                    self.state = PipelineState::Ready;
                }
                Err(PipelineError::StateTransition(Hop::ToPlaying))
            },
        }
    }

    /// Stops the pipeline. The answer lists what the caller has to let go;
    /// stopping a stopped pipeline changes nothing and lists nothing.
    pub fn stop(&mut self) -> (teardown: Teardown)
        ensures
            (final(self)@, teardown) == old(self)@.stop(),
    {
        proof {
            use_type_invariant(&*self);
        }
        let release_pipeline = match self.state {
            PipelineState::Null => false,
            _ => true,
        };
        let mut bridge: Option<GlContextBridge> = None;
        std::mem::swap(&mut self.bridge, &mut bridge);
        self.state = PipelineState::Null;
        match bridge {
            Some(mut b) => {
                let restore = match b.release() {
                    BridgeCommand::Restore(current) => Some(current),
                    _ => None,
                };
                Teardown { release_pipeline, release_context: true, restore }
            },
            None => Teardown { release_pipeline, release_context: false, restore: None },
        }
    }

    /// Handles one message from the engine's bus and says what the caller is
    /// to do about it.
    pub fn on_message(&mut self, msg: BusMessage) -> (action: BusAction)
        ensures
            (final(self)@, action) == old(self)@.on_message(msg@),
    {
        proof {
            use_type_invariant(&*self);
        }
        match msg {
            BusMessage::EndOfStream => {
                let live = match self.state {
                    PipelineState::Ready | PipelineState::Paused | PipelineState::Playing => true,
                    _ => false,
                };
                if !live {
                    BusAction::Nothing
                } else {
                    match self.policy {
                        EosPolicy::Stop => {
                            self.state = PipelineState::EndOfStream;
                            BusAction::Nothing
                        },
                        EosPolicy::Loop => BusAction::SeekToStart,
                    }
                }
            },
            BusMessage::Error(detail) => {
                match self.state {
                    PipelineState::Null => {},
                    _ => {
                        self.state = PipelineState::Error(detail);
                    },
                }
                BusAction::Nothing
            },
            BusMessage::NeedContext { context_type, from_element } => {
                match &self.bridge {
                    Some(bridge) => match bridge.reply(context_type.as_str(), from_element) {
                        ContextReply::Nothing => BusAction::Nothing,
                        ContextReply::Display => BusAction::ProvideDisplay,
                        ContextReply::Application => BusAction::ProvideAppContext,
                    },
                    None => BusAction::Nothing,
                }
            },
        }
    }

    /// Takes one decoded sample in system memory and publishes it to `slot`,
    /// provided the pipeline plays, the bytes make a frame of the stated size,
    /// and the slot takes frames of that size.
    pub fn sample_ready(
        &self,
        slot: &mut FrameSlot,
        bytes: Vec<u8>,
        width: u32,
        height: u32,
    ) -> (outcome: SampleOutcome)
        ensures
            (final(slot)@, outcome) == self@.sample(
                old(slot)@,
                Dimensions { width, height },
                PayloadView::Pixels(bytes@),
            ),
    {
        match self.state {
            PipelineState::Playing => {},
            _ => {
                return SampleOutcome::NotPlaying;
            },
        }
        match Frame::from_pixels(width, height, bytes) {
            Some(frame) => Self::hand_over(slot, frame),
            None => SampleOutcome::Malformed,
        }
    }

    /// Takes one decoded sample that lives in a GPU texture and publishes it
    /// to `slot`, provided the pipeline plays and the slot takes frames of
    /// that size.
    pub fn texture_ready(
        &self,
        slot: &mut FrameSlot,
        texture: u32,
        width: u32,
        height: u32,
    ) -> (outcome: SampleOutcome)
        ensures
            (final(slot)@, outcome) == self@.sample(
                old(slot)@,
                Dimensions { width, height },
                PayloadView::Texture(texture),
            ),
    {
        match self.state {
            PipelineState::Playing => {},
            _ => {
                return SampleOutcome::NotPlaying;
            },
        }
        Self::hand_over(slot, Frame::from_texture(width, height, texture))
    }

    /// Publishes a frame and names the outcome.
    fn hand_over(slot: &mut FrameSlot, frame: Frame) -> (outcome: SampleOutcome)
        ensures
            final(slot)@ == old(slot)@.publish(frame@),
            outcome == if old(slot)@.accepts(frame@) {
                SampleOutcome::Published
            } else {
                SampleOutcome::SizeMismatch
            },
    {
        match slot.publish(frame) {
            Ok(()) => SampleOutcome::Published,
            Err(_) => SampleOutcome::SizeMismatch,
        }
    }
}

/// Stopping twice is stopping once: the second stop changes nothing and has
/// nothing left to release.
pub proof fn lemma_stop_is_idempotent(controller: ControllerView)
    ensures
        controller.stop().0.stop().0 == controller.stop().0,
        controller.stop().0.stop().1 == (Teardown {
            release_pipeline: false,
            release_context: false,
            restore: None,
        }),
        controller.stop().0.state is Null,
        controller.stop().0.valid(),
{
}

/// The shared context lives as long as the pipeline: configuring, starting
/// and bus messages leave the bridge as it is, and only a stop lets it go.
pub proof fn lemma_context_lives_until_stop(
    controller: ControllerView,
    source: MediaSourceView,
    caps: SinkCapabilities,
    probe: ElementProbe,
    refused: Option<Hop>,
    msg: MessageView,
)
    ensures
        controller.configure(source, caps, probe).0.bridge == controller.bridge,
        controller.start(refused).0.bridge == controller.bridge,
        controller.on_message(msg).0.bridge == controller.bridge,
        controller.stop().0.bridge is None,
        controller.stop().1.release_context <==> controller.bridge is Some,
{
}

/// Every step of the controller keeps a configured pipeline behind every
/// state but the null state.
pub proof fn lemma_steps_keep_valid(
    controller: ControllerView,
    source: MediaSourceView,
    caps: SinkCapabilities,
    probe: ElementProbe,
    refused: Option<Hop>,
    msg: MessageView,
)
    requires
        controller.valid(),
    ensures
        controller.configure(source, caps, probe).0.valid(),
        controller.start(refused).0.valid(),
        controller.stop().0.valid(),
        controller.on_message(msg).0.valid(),
{
}

} // verus!
