use vstd::prelude::*;

verus! {

/// The states of the session cycle. There is no terminal state: every
/// state has a successor under every event, short of process shutdown.
#[derive(Clone, Copy, Debug, PartialEq, Eq, Structural)]
pub enum SessionState {
    /// Before the loop is armed.
    Idle,
    /// Blocked on device discovery.
    WaitingForDevice,
    /// A token-classified device was discovered and is being initialized.
    Initializing,
    /// The token passed the identity check and faces the digest gate.
    Authenticating,
    /// The token is authenticated; commands are awaited and dispatched.
    CommandLoop,
    /// The session is over; the channel is being released.
    Disconnecting,
}

/// What the environment reports back to the loop: the outcome of the
/// action it was asked to perform.
#[derive(Clone, Copy, Debug, PartialEq, Eq, Structural)]
pub enum SessionEvent {
    /// Discovery yielded a device; the payload says whether its
    /// descriptor classifies it as a token.
    DeviceFound(bool),
    /// Discovery timed out or failed; both are transient.
    DeviceWaitFailed,
    /// The identity check succeeded.
    InitSucceeded,
    /// The identity check failed; the token is discarded without retry.
    InitFailed,
    /// The digest gate accepted the token.
    AuthSucceeded,
    /// The digest gate rejected the token.
    AuthFailed,
    /// A command string arrived within the bound.
    CommandReceived,
    /// The received command was dispatched and its outcome reported,
    /// whether it succeeded or failed.
    CommandHandled,
    /// The command wait timed out or the channel failed.
    CommandWaitFailed,
    /// The channel was released, successfully or not.
    Disconnected,
}

/// What the loop asks the environment to do next.
#[derive(Clone, Copy, Debug, PartialEq, Eq, Structural)]
pub enum SessionAction {
    /// Block on device discovery with the configured device timeout.
    WaitForDevice,
    /// Run the token's identity check.
    InitializeToken,
    /// Run the digest gate over fresh token data.
    AuthenticateToken,
    /// Block on the next command with the configured command timeout.
    WaitForCommand,
    /// Dispatch the command that was just received and report its outcome.
    DispatchCommand,
    /// Release the channel.
    Disconnect,
}

/// One transition of the session machine: the state the loop moves to and
/// the action it performs there.
#[derive(Clone, Copy, Debug, PartialEq, Eq, Structural)]
pub struct Transition {
    pub state: SessionState,
    pub action: SessionAction,
}

/// The session cycle, one transition per observed event.
///
/// Discovery failures and non-token devices re-arm discovery; an
/// initialization or authentication failure discards the token and
/// re-arms discovery; a failed command wait is the designed way back to a
/// de-authenticated, re-armed state, through `Disconnecting`. An event
/// that its state cannot produce re-arms discovery as well, so the
/// machine is total and never halts.
pub open spec fn step_spec(state: SessionState, event: SessionEvent) -> Transition {
    let rearm = Transition {
        state: SessionState::WaitingForDevice,
        action: SessionAction::WaitForDevice,
    };
    match (state, event) {
        (SessionState::WaitingForDevice, SessionEvent::DeviceFound(true)) => Transition {
            state: SessionState::Initializing,
            action: SessionAction::InitializeToken,
        },
        (SessionState::WaitingForDevice, SessionEvent::DeviceFound(false)) => rearm,
        (SessionState::WaitingForDevice, SessionEvent::DeviceWaitFailed) => rearm,
        (SessionState::Initializing, SessionEvent::InitSucceeded) => Transition {
            state: SessionState::Authenticating,
            action: SessionAction::AuthenticateToken,
        },
        (SessionState::Initializing, SessionEvent::InitFailed) => rearm,
        (SessionState::Authenticating, SessionEvent::AuthSucceeded) => Transition {
            state: SessionState::CommandLoop,
            action: SessionAction::WaitForCommand,
        },
        (SessionState::Authenticating, SessionEvent::AuthFailed) => rearm,
        (SessionState::CommandLoop, SessionEvent::CommandReceived) => Transition {
            state: SessionState::CommandLoop,
            action: SessionAction::DispatchCommand,
        },
        (SessionState::CommandLoop, SessionEvent::CommandHandled) => Transition {
            state: SessionState::CommandLoop,
            action: SessionAction::WaitForCommand,
        },
        (SessionState::CommandLoop, SessionEvent::CommandWaitFailed) => Transition {
            state: SessionState::Disconnecting,
            action: SessionAction::Disconnect,
        },
        (SessionState::Disconnecting, SessionEvent::Disconnected) => rearm,
        (_, _) => rearm,
    }
}

/// Take one transition of the session machine.
pub fn step(state: SessionState, event: SessionEvent) -> (r: Transition)
    ensures
        r == step_spec(state, event),
{
    let rearm = Transition {
        state: SessionState::WaitingForDevice,
        action: SessionAction::WaitForDevice,
    };
    match (state, event) {
        (SessionState::WaitingForDevice, SessionEvent::DeviceFound(true)) => Transition {
            state: SessionState::Initializing,
            action: SessionAction::InitializeToken,
        },
        (SessionState::Initializing, SessionEvent::InitSucceeded) => Transition {
            state: SessionState::Authenticating,
            action: SessionAction::AuthenticateToken,
        },
        (SessionState::Authenticating, SessionEvent::AuthSucceeded) => Transition {
            state: SessionState::CommandLoop,
            action: SessionAction::WaitForCommand,
        },
        (SessionState::CommandLoop, SessionEvent::CommandReceived) => Transition {
            state: SessionState::CommandLoop,
            action: SessionAction::DispatchCommand,
        },
        (SessionState::CommandLoop, SessionEvent::CommandHandled) => Transition {
            state: SessionState::CommandLoop,
            action: SessionAction::WaitForCommand,
        },
        (SessionState::CommandLoop, SessionEvent::CommandWaitFailed) => Transition {
            state: SessionState::Disconnecting,
            action: SessionAction::Disconnect,
        },
        (_, _) => rearm,
    }
}

/// The state the machine reaches from `state` once all of `events` have
/// been observed, in order.
pub open spec fn run_states(state: SessionState, events: Seq<SessionEvent>) -> SessionState
    decreases events.len(),
{
    if events.len() == 0 {
        state
    } else {
        run_states(step_spec(state, events.first()).state, events.drop_first())
    }
}

/// The actions the machine asks for from `state` under `events`, in order.
pub open spec fn run_actions(state: SessionState, events: Seq<SessionEvent>) -> Seq<SessionAction>
    decreases events.len(),
{
    if events.len() == 0 {
        Seq::empty()
    } else {
        seq![step_spec(state, events.first()).action] + run_actions(
            step_spec(state, events.first()).state,
            events.drop_first(),
        )
    }
}

/// Initialization is asked for exactly when discovery has just yielded a
/// token-classified device, and authentication exactly when that token's
/// identity check has just succeeded. A device whose descriptor is not a
/// token is never initialized and never reaches the digest gate.
pub proof fn lemma_gate_order(state: SessionState, event: SessionEvent)
    ensures
        step_spec(state, event).action == SessionAction::InitializeToken <==> (state
            == SessionState::WaitingForDevice && event == SessionEvent::DeviceFound(true)),
        step_spec(state, event).action == SessionAction::AuthenticateToken <==> (state
            == SessionState::Initializing && event == SessionEvent::InitSucceeded),
        step_spec(state, event).state == SessionState::Initializing <==> (state
            == SessionState::WaitingForDevice && event == SessionEvent::DeviceFound(true)),
        step_spec(state, event).state == SessionState::Authenticating <==> (state
            == SessionState::Initializing && event == SessionEvent::InitSucceeded),
{
}

/// The command loop is reached only by staying in it or by passing the
/// digest gate: after any disconnect, a later token faces initialization
/// and authentication from scratch before commands flow again.
pub proof fn lemma_reauthentication_required(state: SessionState, event: SessionEvent)
    ensures
        step_spec(state, event).state == SessionState::CommandLoop <==> (state
            == SessionState::CommandLoop && (event == SessionEvent::CommandReceived || event
            == SessionEvent::CommandHandled)) || (state == SessionState::Authenticating && event
            == SessionEvent::AuthSucceeded),
{
}

/// A command wait that times out or fails moves the session to
/// `Disconnecting` and, once the channel is released, back to
/// `WaitingForDevice`; the loop continues rather than terminating.
pub proof fn lemma_command_timeout_rearms()
    ensures
        step_spec(SessionState::CommandLoop, SessionEvent::CommandWaitFailed) == (Transition {
            state: SessionState::Disconnecting,
            action: SessionAction::Disconnect,
        }),
        step_spec(SessionState::Disconnecting, SessionEvent::Disconnected) == (Transition {
            state: SessionState::WaitingForDevice,
            action: SessionAction::WaitForDevice,
        }),
{
}

/// As long as discovery never yields a token-classified device, the loop
/// never asks for initialization or authentication, however long it runs:
/// every privileged step of the cycle is gated on a token being found.
pub proof fn lemma_no_token_no_gate(state: SessionState, events: Seq<SessionEvent>)
    requires
        state != SessionState::Initializing,
        state != SessionState::Authenticating,
        forall|i: int| 0 <= i < events.len() ==> events[i] != SessionEvent::DeviceFound(true),
    ensures
        run_states(state, events) != SessionState::Initializing,
        run_states(state, events) != SessionState::Authenticating,
        forall|i: int|
            0 <= i < run_actions(state, events).len() ==> run_actions(state, events)[i]
                != SessionAction::InitializeToken && run_actions(state, events)[i]
                != SessionAction::AuthenticateToken,
    decreases events.len(),
{
    if events.len() > 0 {
        let next = step_spec(state, events.first());
        assert(forall|i: int|
            0 <= i < events.drop_first().len() ==> events.drop_first()[i]
                != SessionEvent::DeviceFound(true));
        lemma_no_token_no_gate(next.state, events.drop_first());
        assert(forall|i: int|
            1 <= i < run_actions(state, events).len() ==> run_actions(state, events)[i]
                == run_actions(next.state, events.drop_first())[i - 1]);
    }
}

} // verus!
