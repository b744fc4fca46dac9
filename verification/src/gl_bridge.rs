//! Sharing the render thread's graphics context with the decoder.
//!
//! When the decoder is to write frames straight into GPU memory it asks, over
//! the bus, for the display and for the application's graphics context. The
//! bridge decides what to answer, and it sequences the one-time wrapping of the
//! render thread's native context: the context is made not current, wrapped,
//! and made current again whatever the wrapping gave; only then is the wrapped
//! context activated and described.

use vstd::prelude::*;

verus! {

/// What a context request asks for.
#[derive(Clone, Copy, Debug, PartialEq, Eq, Structural)]
pub enum ContextKind {
    /// The graphics display.
    Display,
    /// The application's graphics context.
    Application,
    /// Anything else; not the bridge's to answer.
    Other,
}

/// The context type under which the decoder asks for the display.
pub open spec fn display_context_type() -> Seq<char> {
    "gst.gl.GLDisplay"@
}

/// The context type under which the decoder asks for the application's context.
pub open spec fn app_context_type() -> Seq<char> {
    "gst.gl.app_context"@
}

/// The kind of request that a context type names.
pub open spec fn kind_of(context_type: Seq<char>) -> ContextKind {
    if context_type == display_context_type() {
        ContextKind::Display
    } else if context_type == app_context_type() {
        ContextKind::Application
    } else {
        ContextKind::Other
    }
}

/// Whether two pieces of text are the same, character for character.
fn same_text(a: &str, b: &str) -> (same: bool)
    ensures
        same == (a@ == b@),
{
    let left: String = a.to_owned();
    let right: String = b.to_owned();
    left == right
}

/// Reads the context type of a request.
pub fn classify(context_type: &str) -> (kind: ContextKind)
    ensures
        kind == kind_of(context_type@),
{
    if same_text(context_type, "gst.gl.GLDisplay") {
        ContextKind::Display
    } else if same_text(context_type, "gst.gl.app_context") {
        ContextKind::Application
    } else {
        ContextKind::Other
    }
}

/// The windowing-system flavour of a native graphics context.
#[derive(Clone, Copy, Debug, PartialEq, Eq, Structural)]
pub enum GlPlatform {
    Egl,
    Glx,
    Wgl,
    Cgl,
}

/// The graphics API that a native context speaks.
#[derive(Clone, Copy, Debug, PartialEq, Eq, Structural)]
pub enum GlApi {
    OpenGl,
    OpenGl3,
    Gles2,
}

/// The render thread's native graphics context, as the windowing system names it.
#[derive(Clone, Copy, Debug, PartialEq, Eq, Structural)]
pub struct NativeContext {
    pub handle: usize,
    pub platform: GlPlatform,
    pub api: GlApi,
}

/// What was current on the render thread before the bridge touched it.
#[derive(Clone, Copy, Debug, PartialEq, Eq, Structural)]
pub struct CurrentContext {
    pub device: usize,
    pub context: usize,
}

/// The step of the wrapping that went wrong.
#[derive(Clone, Copy, Debug, PartialEq, Eq, Structural)]
pub enum BridgeError {
    /// The render thread's context could not be made not current.
    DetachFailed,
    /// The native context could not be wrapped.
    WrapFailed,
    /// The render thread's context could not be made current again.
    RestoreFailed,
    /// The wrapped context could not be activated.
    ActivateFailed,
    /// The wrapped context could not be described.
    InfoFailed,
}

/// How far the wrapping has come.
#[derive(Clone, Copy, Debug, PartialEq, Eq, Structural)]
pub enum BridgePhase {
    /// Nothing has been done yet.
    Idle,
    /// The render thread was told to make its context not current.
    Detaching,
    /// The render thread was told to wrap the native context.
    Wrapping,
    /// The render thread was told to make its context current again;
    /// `failure` is what went wrong before, if anything did.
    Restoring { failure: Option<BridgeError> },
    /// The render thread was told to activate the wrapped context.
    Activating,
    /// The render thread was told to fill in the wrapped context's description.
    Describing,
    /// The wrapped context is there for the decoder to share.
    Shared,
    /// The wrapping was given up.
    Failed(BridgeError),
    /// The shared context was let go at teardown.
    Released,
}

/// What the render thread is to do next.
#[derive(Clone, Copy, Debug, PartialEq, Eq, Structural)]
pub enum BridgeCommand {
    /// Make no context current on this thread.
    ReleaseCurrent,
    /// Wrap the native context.
    Wrap(NativeContext),
    /// Make this context current again.
    Restore(CurrentContext),
    /// Activate the wrapped context.
    Activate,
    /// Fill in the wrapped context's description.
    FillInfo,
    /// Nothing.
    Rest,
}

/// What to hand to an element that asked for a context.
#[derive(Clone, Copy, Debug, PartialEq, Eq, Structural)]
pub enum ContextReply {
    /// Nothing; the request is left for others to answer.
    Nothing,
    /// The graphics display.
    Display,
    /// The wrapped application context.
    Application,
}

/// Mathematical content of a [`GlContextBridge`].
pub struct BridgeView {
    pub native: NativeContext,
    pub saved: CurrentContext,
    pub phase: BridgePhase,
}

impl BridgeView {
    /// The bridge has taken the render thread's context away and has not yet
    /// heard that it is back.
    pub open spec fn detached(self) -> bool {
        self.phase is Detaching || self.phase is Wrapping || self.phase is Restoring
    }

    /// The bridge and its first command once wrapping is asked for. Wrapping
    /// starts once only, from the idle bridge.
    pub open spec fn begin(self, current: CurrentContext) -> (BridgeView, BridgeCommand) {
        if self.phase is Idle {
            (
                BridgeView { native: self.native, saved: current, phase: BridgePhase::Detaching },
                BridgeCommand::ReleaseCurrent,
            )
        } else {
            (self, BridgeCommand::Rest)
        }
    }

    /// The bridge and its next command after the render thread reports whether
    /// the last command succeeded.
    pub open spec fn advance(self, ok: bool) -> (BridgeView, BridgeCommand) {
        match self.phase {
            BridgePhase::Detaching => if ok {
                (self.at(BridgePhase::Wrapping), BridgeCommand::Wrap(self.native))
            } else {
                (
                    self.at(BridgePhase::Restoring { failure: Some(BridgeError::DetachFailed) }),
                    BridgeCommand::Restore(self.saved),
                )
            },
            BridgePhase::Wrapping => (
                self.at(
                    BridgePhase::Restoring {
                        failure: if ok {
                            None
                        } else {
                            Some(BridgeError::WrapFailed)
                        },
                    },
                ),
                BridgeCommand::Restore(self.saved),
            ),
            BridgePhase::Restoring { failure } => match failure {
                Some(e) => (self.at(BridgePhase::Failed(e)), BridgeCommand::Rest),
                None => if ok {
                    (self.at(BridgePhase::Activating), BridgeCommand::Activate)
                } else {
                    (self.at(BridgePhase::Failed(BridgeError::RestoreFailed)), BridgeCommand::Rest)
                },
            },
            BridgePhase::Activating => if ok {
                (self.at(BridgePhase::Describing), BridgeCommand::FillInfo)
            } else {
                (self.at(BridgePhase::Failed(BridgeError::ActivateFailed)), BridgeCommand::Rest)
            },
            BridgePhase::Describing => if ok {
                (self.at(BridgePhase::Shared), BridgeCommand::Rest)
            } else {
                (self.at(BridgePhase::Failed(BridgeError::InfoFailed)), BridgeCommand::Rest)
            },
            _ => (self, BridgeCommand::Rest),
        }
    }

    /// The bridge and its last command at teardown. A context that the bridge
    /// took away is handed back even then.
    pub open spec fn release(self) -> (BridgeView, BridgeCommand) {
        (
            self.at(BridgePhase::Released),
            if self.detached() {
                BridgeCommand::Restore(self.saved)
            } else {
                BridgeCommand::Rest
            },
        )
    }

    /// The answer to a context request of the given kind. Only an element can
    /// be handed a context; the application's context is there to hand out only
    /// once it has been wrapped, activated and described.
    pub open spec fn reply(self, kind: ContextKind, from_element: bool) -> ContextReply {
        if !from_element {
            ContextReply::Nothing
        } else {
            match kind {
                ContextKind::Display => if self.phase is Released {
                    ContextReply::Nothing
                } else {
                    ContextReply::Display
                },
                ContextKind::Application => if self.phase is Shared {
                    ContextReply::Application
                } else {
                    ContextReply::Nothing
                },
                ContextKind::Other => ContextReply::Nothing,
            }
        }
    }

    /// This bridge in another phase.
    pub open spec fn at(self, phase: BridgePhase) -> BridgeView {
        BridgeView { native: self.native, saved: self.saved, phase }
    }
}

/// Negotiates the graphics context that the render loop and the decoder share.
#[derive(Debug)]
pub struct GlContextBridge {
    native: NativeContext,
    saved: CurrentContext,
    phase: BridgePhase,
}

impl View for GlContextBridge {
    type V = BridgeView;

    closed spec fn view(&self) -> BridgeView {
        BridgeView { native: self.native, saved: self.saved, phase: self.phase }
    }
}

impl GlContextBridge {
    /// A bridge for the given native context, with nothing wrapped yet.
    pub fn new(native: NativeContext) -> (bridge: GlContextBridge)
        ensures
            bridge@ == (BridgeView {
                native,
                saved: CurrentContext { device: 0, context: 0 },
                phase: BridgePhase::Idle,
            }),
    {
        GlContextBridge {
            native,
            saved: CurrentContext { device: 0, context: 0 },
            phase: BridgePhase::Idle,
        }
    }

    /// How far the wrapping has come.
    pub fn phase(&self) -> (phase: BridgePhase)
        ensures
            phase == self@.phase,
    {
        self.phase
    }

    /// The native context that this bridge wraps.
    pub fn native(&self) -> (native: NativeContext)
        ensures
            native == self@.native,
    {
        self.native
    }

    /// Starts the wrapping. `current` is what is current on the render thread
    /// now; it is kept to be made current again. The answer is the first thing
    /// to do. A bridge that has started before answers `Rest` and stays as it is.
    pub fn begin_wrap(&mut self, current: CurrentContext) -> (command: BridgeCommand)
        ensures
            (final(self)@, command) == old(self)@.begin(current),
    {
        match self.phase {
            BridgePhase::Idle => {
                self.saved = current;
                self.phase = BridgePhase::Detaching;
                BridgeCommand::ReleaseCurrent
            },
            _ => BridgeCommand::Rest,
        }
    }

    /// Takes the outcome of the last command and answers with the next one.
    pub fn advance(&mut self, ok: bool) -> (command: BridgeCommand)
        ensures
            (final(self)@, command) == old(self)@.advance(ok),
    {
        match self.phase {
            BridgePhase::Detaching => {
                if ok {
                    self.phase = BridgePhase::Wrapping;
                    BridgeCommand::Wrap(self.native)
                } else {
                    self.phase = BridgePhase::Restoring { failure: Some(BridgeError::DetachFailed) };
                    BridgeCommand::Restore(self.saved)
                }
            },
            BridgePhase::Wrapping => {
                let failure: Option<BridgeError> = if ok {
                    None
                } else {
                    Some(BridgeError::WrapFailed)
                };
                self.phase = BridgePhase::Restoring { failure };
                BridgeCommand::Restore(self.saved)
            },
            BridgePhase::Restoring { failure } => {
                match failure {
                    Some(e) => {
                        self.phase = BridgePhase::Failed(e);
                        BridgeCommand::Rest
                    },
                    None => {
                        if ok {
                            self.phase = BridgePhase::Activating;
                            BridgeCommand::Activate
                        } else {
                            self.phase = BridgePhase::Failed(BridgeError::RestoreFailed);
                            BridgeCommand::Rest
                        }
                    },
                }
            },
            BridgePhase::Activating => {
                if ok {
                    self.phase = BridgePhase::Describing;
                    BridgeCommand::FillInfo
                } else {
                    self.phase = BridgePhase::Failed(BridgeError::ActivateFailed);
                    BridgeCommand::Rest
                }
            },
            BridgePhase::Describing => {
                if ok {
                    self.phase = BridgePhase::Shared;
                } else {
                    self.phase = BridgePhase::Failed(BridgeError::InfoFailed);
                }
                BridgeCommand::Rest
            },
            _ => BridgeCommand::Rest,
        }
    }

    /// Lets the shared context go. The answer is `Restore` where the bridge
    /// still owes the render thread its context, else `Rest`.
    pub fn release(&mut self) -> (command: BridgeCommand)
        ensures
            (final(self)@, command) == old(self)@.release(),
    {
        let command = match self.phase {
            BridgePhase::Detaching | BridgePhase::Wrapping | BridgePhase::Restoring { .. } => {
                BridgeCommand::Restore(self.saved)
            },
            _ => BridgeCommand::Rest,
        };
        self.phase = BridgePhase::Released;
        command
    }

    /// Answers a context request. `from_element` says whether the request came
    /// from a pipeline element, the only thing a context can be set on.
    pub fn reply(&self, context_type: &str, from_element: bool) -> (reply: ContextReply)
        ensures
            reply == self@.reply(kind_of(context_type@), from_element),
    {
        if !from_element {
            return ContextReply::Nothing;
        }
        match classify(context_type) {
            ContextKind::Display => match self.phase {
                BridgePhase::Released => ContextReply::Nothing,
                _ => ContextReply::Display,
            },
            ContextKind::Application => match self.phase {
                BridgePhase::Shared => ContextReply::Application,
                _ => ContextReply::Nothing,
            },
            ContextKind::Other => ContextReply::Nothing,
        }
    }
}

/// The bridge after the render thread has reported `outcomes`, one per command.
pub open spec fn drive(bridge: BridgeView, outcomes: Seq<bool>) -> BridgeView
    decreases outcomes.len(),
{
    if outcomes.len() == 0 {
        bridge
    } else {
        drive(bridge, outcomes.drop_last()).advance(outcomes.last()).0
    }
}

/// The command that answers report number `at` of `outcomes`.
pub open spec fn command_at(bridge: BridgeView, outcomes: Seq<bool>, at: int) -> BridgeCommand
    recommends
        0 <= at < outcomes.len(),
{
    drive(bridge, outcomes.take(at)).advance(outcomes[at]).1
}

/// The first `n` reports are all successes.
pub open spec fn all_succeeded(outcomes: Seq<bool>, n: int) -> bool {
    n <= outcomes.len() && forall|k: int| 0 <= k < n ==> outcomes[k]
}

/// Where a started wrapping stands after `n` reports: phase by phase, by what
/// the reports were.
proof fn lemma_drive_phases(
    idle: BridgeView,
    current: CurrentContext,
    outcomes: Seq<bool>,
    n: int,
)
    requires
        idle.phase is Idle,
        0 <= n <= outcomes.len(),
    ensures
        ({
            let now = drive(idle.begin(current).0, outcomes.take(n));
            &&& now.native == idle.native
            &&& now.saved == current
            &&& now.phase !is Idle
            &&& now.phase !is Released
            &&& n == 0 ==> now.phase is Detaching
            &&& n == 1 ==> now.phase == if outcomes[0] {
                BridgePhase::Wrapping
            } else {
                BridgePhase::Restoring { failure: Some(BridgeError::DetachFailed) }
            }
            &&& n == 2 ==> now.phase == if !outcomes[0] {
                BridgePhase::Failed(BridgeError::DetachFailed)
            } else {
                BridgePhase::Restoring {
                    failure: if outcomes[1] {
                        None
                    } else {
                        Some(BridgeError::WrapFailed)
                    },
                }
            }
            &&& n >= 3 ==> !now.detached()
            &&& now.phase is Activating <==> n == 3 && all_succeeded(outcomes, 3)
            &&& now.phase is Describing <==> n == 4 && all_succeeded(outcomes, 4)
            &&& now.phase is Shared <==> n >= 5 && all_succeeded(outcomes, 5)
        }),
    decreases n,
{
    if n > 0 {
        lemma_drive_phases(idle, current, outcomes, n - 1);
        assert(outcomes.take(n).drop_last() =~= outcomes.take(n - 1));
        assert(outcomes.take(n).last() == outcomes[n - 1]);
    }
}

/// However the steps of a wrapping turn out, the render thread gets its own
/// context back: the command to make it current again comes second or third,
/// before anything is activated, and until it has been reported done a
/// teardown asks for it once more. The context is shared exactly when all five
/// steps succeeded, and no step lets it go: that is left to the teardown.
pub proof fn lemma_wrap_restores_render_context(
    idle: BridgeView,
    current: CurrentContext,
    outcomes: Seq<bool>,
)
    requires
        idle.phase is Idle,
    ensures
        idle.begin(current).1 == BridgeCommand::ReleaseCurrent,
        ({
            let started = idle.begin(current).0;
            let end = drive(started, outcomes);
            &&& end.detached() ==> end.release().1 == BridgeCommand::Restore(current)
            &&& end.detached() <==> outcomes.len() < 2 || (outcomes.len() == 2 && outcomes[0])
            &&& outcomes.len() >= 1 && !outcomes[0] ==> command_at(started, outcomes, 0)
                == BridgeCommand::Restore(current)
            &&& outcomes.len() >= 2 && outcomes[0] ==> command_at(started, outcomes, 0)
                == BridgeCommand::Wrap(idle.native) && command_at(started, outcomes, 1)
                == BridgeCommand::Restore(current)
            &&& end.phase is Shared <==> all_succeeded(outcomes, 5)
            &&& end.phase !is Released
            &&& end.native == idle.native
        }),
{
    let n = outcomes.len() as int;
    assert(outcomes.take(n) =~= outcomes);
    lemma_drive_phases(idle, current, outcomes, n);
    lemma_drive_phases(idle, current, outcomes, 0);
    if n >= 1 {
        lemma_drive_phases(idle, current, outcomes, 1);
    }
}

} // verus!
