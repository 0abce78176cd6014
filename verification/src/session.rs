//! Control-connection state machine.
//!
//! Each control connection runs one session:
//! `Authenticating? -> AwaitFirstMessage -> {Tunneling | Claiming} -> Closed`.
//! The authentication phase exists only when the server is configured with
//! a shared secret. The first protocol message received fixes the
//! session's role irrevocably: a tunnel-control role or a one-shot claim
//! role. The driver feeds events in and performs the action each step
//! decides on; no step here touches any tunnel state.

use vstd::prelude::*;
use crate::messages::ClientMessage;

verus! {

/// The states of one control connection.
#[derive(Debug, Clone, Copy, PartialEq, Eq, Structural)]
pub enum SessionState {
    /// Waiting for the peer to pass the authentication challenge.
    Authenticating,
    /// Waiting for the first protocol message, which fixes the role.
    AwaitFirstMessage,
    /// The connection carries heartbeats and visitor announcements for a
    /// tunnel on this port.
    Tunneling { port: u16 },
    /// The connection relays the pending visitor connection with this
    /// identifier, then ends.
    Claiming { id: u128 },
    /// The session is over; nothing more may happen on it.
    Closed,
}

/// What happened on the connection, as observed by the driver.
#[derive(Debug, Clone, PartialEq)]
pub enum SessionEvent {
    /// The peer passed the authentication challenge.
    AuthSucceeded,
    /// The peer failed the authentication challenge.
    AuthFailed { reason: String },
    /// The first protocol message arrived — or did not: `None` means the
    /// peer went away or sent nothing in time.
    FirstMessage { msg: Option<ClientMessage> },
}

/// What the driver must do after a step.
#[derive(Debug, Clone, PartialEq)]
pub enum SessionAction {
    /// Wait for the next protocol message from the peer.
    AwaitMessage,
    /// Send `Error(reason)` to the peer, then close the connection
    /// cleanly.
    SendErrorAndClose { reason: String },
    /// Close the connection without another word.
    Close,
    /// Establish a tunnel on the requested port (zero: any port) and hand
    /// the connection to the tunnel's listener task.
    Establish { port: u16 },
    /// Look up this identifier in the pending-connection registry and
    /// relay the claimed socket over this connection.
    Claim { id: u128 },
}

/// The state a fresh control connection starts in.
pub open spec fn session_start_spec(auth_required: bool) -> SessionState {
    if auth_required {
        SessionState::Authenticating
    } else {
        SessionState::AwaitFirstMessage
    }
}

/// The state a fresh control connection starts in: authenticating when the
/// server is configured with a shared secret, otherwise awaiting the first
/// protocol message.
pub fn session_start(auth_required: bool) -> (s: SessionState)
    ensures
        s == session_start_spec(auth_required),
{
    if auth_required {
        SessionState::Authenticating
    } else {
        SessionState::AwaitFirstMessage
    }
}

/// The session transition: next state and required action for each state
/// and event.
///
/// Authentication failure ends the session with an error to the peer: a
/// normal outcome, not a fault. An `Authenticate` message outside the
/// authentication phase is a protocol violation and closes the connection
/// silently, as does the absence of a first message. An event arriving in
/// any state past the first message closes the connection: the role chosen
/// by the first message cannot change.
pub open spec fn session_step_spec(s: SessionState, e: SessionEvent) -> (SessionState,
    SessionAction) {
    match (s, e) {
        (SessionState::Authenticating, SessionEvent::AuthSucceeded) => (
            SessionState::AwaitFirstMessage,
            SessionAction::AwaitMessage,
        ),
        (SessionState::Authenticating, SessionEvent::AuthFailed { reason }) => (
            SessionState::Closed,
            SessionAction::SendErrorAndClose { reason },
        ),
        (SessionState::AwaitFirstMessage, SessionEvent::FirstMessage { msg }) => match msg {
            Some(ClientMessage::Hello(port)) => (
                SessionState::Tunneling { port },
                SessionAction::Establish { port },
            ),
            Some(ClientMessage::Accept(id)) => (
                SessionState::Claiming { id },
                SessionAction::Claim { id },
            ),
            Some(ClientMessage::Authenticate(_)) => (SessionState::Closed, SessionAction::Close),
            None => (SessionState::Closed, SessionAction::Close),
        },
        _ => (SessionState::Closed, SessionAction::Close),
    }
}

/// Advance one control connection by one event, returning the next state
/// and the action the driver must perform.
pub fn session_step(s: SessionState, e: SessionEvent) -> (r: (SessionState, SessionAction))
    ensures
        r == session_step_spec(s, e),
{
    match (s, e) {
        (SessionState::Authenticating, SessionEvent::AuthSucceeded) => (
            SessionState::AwaitFirstMessage,
            SessionAction::AwaitMessage,
        ),
        (SessionState::Authenticating, SessionEvent::AuthFailed { reason }) => (
            SessionState::Closed,
            SessionAction::SendErrorAndClose { reason },
        ),
        (SessionState::AwaitFirstMessage, SessionEvent::FirstMessage { msg }) => match msg {
            Some(ClientMessage::Hello(port)) => (
                SessionState::Tunneling { port },
                SessionAction::Establish { port },
            ),
            Some(ClientMessage::Accept(id)) => (
                SessionState::Claiming { id },
                SessionAction::Claim { id },
            ),
            Some(ClientMessage::Authenticate(_)) => (SessionState::Closed, SessionAction::Close),
            None => (SessionState::Closed, SessionAction::Close),
        },
        _ => (SessionState::Closed, SessionAction::Close),
    }
}

/// Law: a failed authentication is terminal and touches nothing. The
/// session closes, the peer is sent an `Error` carrying the failure's
/// reason, and no tunnel-establishing or claiming action can result — so
/// no tunnel state is created for the connection.
pub proof fn lemma_auth_failure_terminal(reason: String)
    ensures
        (session_step_spec(
            SessionState::Authenticating,
            SessionEvent::AuthFailed { reason },
        ) == (SessionState::Closed, SessionAction::SendErrorAndClose { reason })),
{
}

/// Law: a session's role is fixed by its first message. From any state
/// other than `AwaitFirstMessage`, no event can make the session establish
/// a tunnel or claim a visitor connection.
pub proof fn lemma_role_irrevocable(s: SessionState, e: SessionEvent)
    requires
        !(s is AwaitFirstMessage),
    ensures
        !(session_step_spec(s, e).1 is Establish),
        !(session_step_spec(s, e).1 is Claim),
{
}

} // verus!
