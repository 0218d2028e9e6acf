//! The script host session: the state machine that drives one call through
//! a freshly created, isolated execution environment, from allocation to an
//! unconditional teardown.
//!
//! The machine owns no environment itself: an unverified driver performs
//! each pending [`HostAction`] against the concrete scripting engine and
//! reports back what happened.  The machine decides everything else — the
//! order of the steps, how a failure at each step is classified, and what
//! the delivered payload means — so that every session ends closed with
//! exactly one outcome: a success string, a non-empty error list, or a
//! bridge fault.

use vstd::prelude::*;

use crate::decode::decode_payload;
use crate::decode::delivered_errors_view;
use crate::decode::parse_payload;
use crate::decode::DecodedPayload;
use crate::decode::DeliveredError;
use crate::decode::SpecGraphQlError;
use crate::decode::SpecPayload;

verus! {

/// The lifecycle states of one session, in the order a fault-free call
/// passes through them.
#[derive(Clone, Copy, PartialEq, Eq, Structural, Debug)]
pub enum SessionState {
    /// A fresh, isolated execution environment has been allocated; nothing
    /// of any earlier call is reachable from it.
    Created,
    /// The host capability registry is bound into the environment.
    CapabilitiesInstalled,
    /// The fixed bootstrap script has run.
    BootstrapLoaded,
    /// The precompiled embedded module has been evaluated and is callable.
    ModuleLoaded,
    /// The marshaled request has been evaluated as a global assignment.
    InputInjected,
    /// The entry-point driver script has run.
    Triggered,
    /// The rendezvous has been consumed and the outcome recorded.
    ResultAwaited,
    /// The environment and all its resources are released.
    Closed,
}

/// The host actions a session asks its driver to perform.
#[derive(Clone, Copy, PartialEq, Eq, Structural, Debug)]
pub enum HostAction {
    /// Bind the capability registry (diagnostic output, result delivery)
    /// into the environment.
    InstallCapabilities,
    /// Evaluate the fixed bootstrap script.
    RunBootstrap,
    /// Evaluate the precompiled embedded module.
    LoadModule,
    /// Evaluate the marshaled request as a global assignment.
    InjectInput,
    /// Evaluate the entry-point driver script.
    RunDriver,
    /// Consume the result rendezvous.
    TakeResult,
    /// Release the environment.
    ReleaseEnvironment,
}

/// The ways the bridge itself can fail, all distinct from a content error
/// list reported by the embedded module, and none retryable.
#[derive(Clone, Copy, PartialEq, Eq, Structural, Debug)]
pub enum BridgeFault {
    /// A bridge asset failed to evaluate while the environment was being
    /// stood up: the bridge's own deployment is broken, the caller's input
    /// is not at fault.  Carries the action that failed.
    Construction(HostAction),
    /// The entry point raised an unrecovered script fault.
    ExecutionFault,
    /// Execution completed but no result was ever delivered into the
    /// rendezvous; never to be mistaken for a success with empty errors.
    NoResultDelivered,
    /// A result was delivered whose shape the bridge does not understand: a
    /// version mismatch between bridge and embedded module.
    ContractViolation,
}

/// What one session ends with: exactly one of a success value, a non-empty
/// content error list, or a bridge fault.
pub enum BridgeOutcome {
    /// The call succeeded with one result string.
    Success(String),
    /// The embedded module reported content errors.
    Errors(Vec<DeliveredError>),
    /// The bridge itself failed.
    Fault(BridgeFault),
}

/// The mathematical model of a [`BridgeOutcome`].
pub enum SpecBridgeOutcome {
    Success(Seq<char>),
    Errors(Seq<SpecGraphQlError>),
    Fault(BridgeFault),
}

impl View for BridgeOutcome {
    type V = SpecBridgeOutcome;

    open spec fn view(&self) -> SpecBridgeOutcome {
        match self {
            BridgeOutcome::Success(s) => SpecBridgeOutcome::Success(s@),
            BridgeOutcome::Errors(l) => SpecBridgeOutcome::Errors(delivered_errors_view(l@)),
            BridgeOutcome::Fault(f) => SpecBridgeOutcome::Fault(*f),
        }
    }
}

/// The model of a session: its state and, once resolved or faulted, its
/// outcome.
pub struct SpecSession {
    pub state: SessionState,
    pub outcome: Option<SpecBridgeOutcome>,
}

/// One event a session can observe from its driver.
pub enum SpecSessionEvent {
    /// The pending set-up step succeeded.
    StepOk,
    /// The pending set-up step failed to evaluate.
    StepFaulted,
    /// The rendezvous was consumed, holding this payload, if any.
    Resolve(Option<Seq<char>>),
    /// The environment was released.
    Close,
}

/// A session as it begins: a fresh environment, no outcome.
pub open spec fn init_session() -> SpecSession {
    SpecSession { state: SessionState::Created, outcome: None }
}

/// The host action pending in each state.
pub open spec fn spec_pending_action(st: SessionState) -> Option<HostAction> {
    match st {
        SessionState::Created => Some(HostAction::InstallCapabilities),
        SessionState::CapabilitiesInstalled => Some(HostAction::RunBootstrap),
        SessionState::BootstrapLoaded => Some(HostAction::LoadModule),
        SessionState::ModuleLoaded => Some(HostAction::InjectInput),
        SessionState::InputInjected => Some(HostAction::RunDriver),
        SessionState::Triggered => Some(HostAction::TakeResult),
        SessionState::ResultAwaited => Some(HostAction::ReleaseEnvironment),
        SessionState::Closed => None,
    }
}

/// The states whose pending step, on success, advances the chain.
pub open spec fn can_step_ok(st: SessionState) -> bool {
    match st {
        SessionState::Created => true,
        SessionState::CapabilitiesInstalled => true,
        SessionState::BootstrapLoaded => true,
        SessionState::ModuleLoaded => true,
        SessionState::InputInjected => true,
        _ => false,
    }
}

/// The states whose pending step is an evaluation that can fault.
pub open spec fn can_fault(st: SessionState) -> bool {
    match st {
        SessionState::CapabilitiesInstalled => true,
        SessionState::BootstrapLoaded => true,
        SessionState::ModuleLoaded => true,
        SessionState::InputInjected => true,
        _ => false,
    }
}

/// The next state of the fault-free chain.
pub open spec fn next_state(st: SessionState) -> SessionState {
    match st {
        SessionState::Created => SessionState::CapabilitiesInstalled,
        SessionState::CapabilitiesInstalled => SessionState::BootstrapLoaded,
        SessionState::BootstrapLoaded => SessionState::ModuleLoaded,
        SessionState::ModuleLoaded => SessionState::InputInjected,
        SessionState::InputInjected => SessionState::Triggered,
        _ => st,
    }
}

/// How a fault is classified: a bootstrap, module-load or input-injection
/// failure is a bridge construction failure naming the failed action; a
/// fault while the driver runs is an unrecovered execution fault.
pub open spec fn fault_of(st: SessionState) -> BridgeFault {
    match st {
        SessionState::CapabilitiesInstalled => BridgeFault::Construction(HostAction::RunBootstrap),
        SessionState::BootstrapLoaded => BridgeFault::Construction(HostAction::LoadModule),
        SessionState::ModuleLoaded => BridgeFault::Construction(HostAction::InjectInput),
        _ => BridgeFault::ExecutionFault,
    }
}

/// What a consumed rendezvous means: no payload is a missing delivery; an
/// undecodable payload is a contract violation; otherwise the payload's own
/// success value or error list.
pub open spec fn resolve_outcome(p: Option<Seq<char>>) -> SpecBridgeOutcome {
    match p {
        None => SpecBridgeOutcome::Fault(BridgeFault::NoResultDelivered),
        Some(t) => match parse_payload(t) {
            None => SpecBridgeOutcome::Fault(BridgeFault::ContractViolation),
            Some(SpecPayload::Data(s)) => SpecBridgeOutcome::Success(s),
            Some(SpecPayload::Errors(l)) => SpecBridgeOutcome::Errors(l),
        },
    }
}

/// The session's total transition function.  An event that is not enabled
/// in the current state leaves the session unchanged.
pub open spec fn session_step(s: SpecSession, ev: SpecSessionEvent) -> SpecSession {
    match ev {
        SpecSessionEvent::StepOk => if can_step_ok(s.state) {
            SpecSession { state: next_state(s.state), outcome: s.outcome }
        } else {
            s
        },
        SpecSessionEvent::StepFaulted => if can_fault(s.state) {
            SpecSession {
                state: SessionState::Closed,
                outcome: Some(SpecBridgeOutcome::Fault(fault_of(s.state))),
            }
        } else {
            s
        },
        SpecSessionEvent::Resolve(p) => if s.state is Triggered {
            SpecSession { state: SessionState::ResultAwaited, outcome: Some(resolve_outcome(p)) }
        } else {
            s
        },
        SpecSessionEvent::Close => if s.state is ResultAwaited {
            SpecSession { state: SessionState::Closed, outcome: s.outcome }
        } else {
            s
        },
    }
}

/// A session driven through a whole event sequence.
pub open spec fn session_run(s: SpecSession, evs: Seq<SpecSessionEvent>) -> SpecSession
    decreases evs.len(),
{
    if evs.len() == 0 {
        s
    } else {
        session_run(session_step(s, evs[0]), evs.drop_first())
    }
}

/// A well-formed session: it holds an outcome exactly from resolution (or a
/// fault) onward, and a reported content error list is never empty.
pub open spec fn session_wf(s: SpecSession) -> bool {
    &&& (s.outcome is Some <==> (s.state is ResultAwaited || s.state is Closed))
    &&& match s.outcome {
        Some(SpecBridgeOutcome::Errors(l)) => l.len() > 0,
        _ => true,
    }
}

/// One session of the script host bridge.  Both call-shapes drive the same
/// machine; only their marshaled input and their adapted error type differ.
pub struct Session {
    state: SessionState,
    outcome: Option<BridgeOutcome>,
}

impl View for Session {
    type V = SpecSession;

    closed spec fn view(&self) -> SpecSession {
        SpecSession {
            state: self.state,
            outcome: match self.outcome {
                Some(o) => Some(o@),
                None => None,
            },
        }
    }
}

impl Session {
    /// A session over a freshly allocated, isolated environment.
    pub fn new() -> (s: Session)
        ensures
            s@ == init_session(),
    {
        Session { state: SessionState::Created, outcome: None }
    }

    /// The host action the driver must perform next; nothing once closed.
    pub fn pending_action(&self) -> (r: Option<HostAction>)
        ensures
            r == spec_pending_action(self@.state),
    {
        match self.state {
            SessionState::Created => Some(HostAction::InstallCapabilities),
            SessionState::CapabilitiesInstalled => Some(HostAction::RunBootstrap),
            SessionState::BootstrapLoaded => Some(HostAction::LoadModule),
            SessionState::ModuleLoaded => Some(HostAction::InjectInput),
            SessionState::InputInjected => Some(HostAction::RunDriver),
            SessionState::Triggered => Some(HostAction::TakeResult),
            SessionState::ResultAwaited => Some(HostAction::ReleaseEnvironment),
            SessionState::Closed => None,
        }
    }

    /// Record that the pending set-up step succeeded.
    pub fn step_ok(&mut self)
        requires
            can_step_ok(old(self)@.state),
        ensures
            final(self)@ == session_step(old(self)@, SpecSessionEvent::StepOk),
    {
        let next = match self.state {
            SessionState::Created => SessionState::CapabilitiesInstalled,
            SessionState::CapabilitiesInstalled => SessionState::BootstrapLoaded,
            SessionState::BootstrapLoaded => SessionState::ModuleLoaded,
            SessionState::ModuleLoaded => SessionState::InputInjected,
            _ => SessionState::Triggered,
        };
        self.state = next;
    }

    /// Record that the pending evaluation step failed; the session closes
    /// with the fault that classifies the failed stage.
    pub fn step_faulted(&mut self)
        requires
            can_fault(old(self)@.state),
        ensures
            final(self)@ == session_step(old(self)@, SpecSessionEvent::StepFaulted),
    {
        let fault = match self.state {
            SessionState::CapabilitiesInstalled => BridgeFault::Construction(
                HostAction::RunBootstrap,
            ),
            SessionState::BootstrapLoaded => BridgeFault::Construction(HostAction::LoadModule),
            SessionState::ModuleLoaded => BridgeFault::Construction(HostAction::InjectInput),
            _ => BridgeFault::ExecutionFault,
        };
        self.state = SessionState::Closed;
        self.outcome = Some(BridgeOutcome::Fault(fault));
    }

    /// Resolve the session from what the rendezvous held: no payload, an
    /// undecodable payload, or a decoded success or error list.
    pub fn resolve(&mut self, delivered: Option<String>)
        requires
            old(self)@.state is Triggered,
        ensures
            final(self)@ == session_step(
                old(self)@,
                SpecSessionEvent::Resolve(
                    match delivered {
                        Some(p) => Some(p@),
                        None => None,
                    },
                ),
            ),
    {
        let outcome = match delivered {
            None => BridgeOutcome::Fault(BridgeFault::NoResultDelivered),
            Some(p) => match decode_payload(p.as_str()) {
                None => BridgeOutcome::Fault(BridgeFault::ContractViolation),
                Some(DecodedPayload::Data(s)) => BridgeOutcome::Success(s),
                Some(DecodedPayload::Errors(l)) => BridgeOutcome::Errors(l),
            },
        };
        self.state = SessionState::ResultAwaited;
        self.outcome = Some(outcome);
    }

    /// Record the unconditional release of the environment.
    pub fn close(&mut self)
        requires
            old(self)@.state is ResultAwaited,
        ensures
            final(self)@ == session_step(old(self)@, SpecSessionEvent::Close),
    {
        self.state = SessionState::Closed;
    }

    /// The session's outcome: present exactly once the session has resolved
    /// or faulted.
    pub fn into_outcome(self) -> (r: Option<BridgeOutcome>)
        ensures
            match r {
                Some(o) => self@.outcome == Some(o@),
                None => self@.outcome is None,
            },
    {
        self.outcome
    }
}

/// One transition preserves well-formedness.
pub proof fn lemma_step_preserves_wf(s: SpecSession, ev: SpecSessionEvent)
    requires
        session_wf(s),
    ensures
        session_wf(session_step(s, ev)),
{
}

/// Law: however a session is driven from its fresh environment, it stays
/// well formed — in particular it never exits silently: a closed session
/// always holds exactly one outcome (a success, a non-empty content error
/// list, or a bridge fault), and a reported error list is never empty.
pub proof fn lemma_session_never_exits_silently(evs: Seq<SpecSessionEvent>)
    ensures
        session_wf(session_run(init_session(), evs)),
        session_run(init_session(), evs).state is Closed ==> session_run(
            init_session(),
            evs,
        ).outcome is Some,
{
    lemma_run_preserves_wf(init_session(), evs);
}

/// Well-formedness is preserved along any whole run.
pub proof fn lemma_run_preserves_wf(s: SpecSession, evs: Seq<SpecSessionEvent>)
    requires
        session_wf(s),
    ensures
        session_wf(session_run(s, evs)),
    decreases evs.len(),
{
    if evs.len() > 0 {
        lemma_step_preserves_wf(s, evs[0]);
        lemma_run_preserves_wf(session_step(s, evs[0]), evs.drop_first());
    }
}

/// Law: a session's result is a function of its own event sequence alone.
/// Two sessions driven by the same events from their own fresh environments
/// reach the same state and the same outcome; sessions share no mutable
/// state, so concurrent calls cannot contaminate one another's results.
pub proof fn lemma_session_deterministic(a: Seq<SpecSessionEvent>, b: Seq<SpecSessionEvent>)
    requires
        a == b,
    ensures
        session_run(init_session(), a) == session_run(init_session(), b),
{
}

/// Law: a fault-free session — five successful set-up steps, one resolution,
/// one release — closes with exactly the outcome its delivered payload
/// determines.  The same payload yields the same outcome on every run.
pub proof fn lemma_fault_free_session_outcome(p: Option<Seq<char>>)
    ensures
        ({
            let evs = seq![
                SpecSessionEvent::StepOk,
                SpecSessionEvent::StepOk,
                SpecSessionEvent::StepOk,
                SpecSessionEvent::StepOk,
                SpecSessionEvent::StepOk,
                SpecSessionEvent::Resolve(p),
                SpecSessionEvent::Close,
            ];
            let fin = session_run(init_session(), evs);
            fin.state is Closed && fin.outcome == Some(resolve_outcome(p))
        }),
{
    reveal_with_fuel(session_run, 8);
    let evs = seq![
        SpecSessionEvent::StepOk,
        SpecSessionEvent::StepOk,
        SpecSessionEvent::StepOk,
        SpecSessionEvent::StepOk,
        SpecSessionEvent::StepOk,
        SpecSessionEvent::Resolve(p),
        SpecSessionEvent::Close,
    ];
    assert(session_run(init_session(), evs).outcome == Some(resolve_outcome(p)));
}

} // verus!
