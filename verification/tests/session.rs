use bore::messages::ClientMessage;
use bore::session::{session_start, session_step, SessionAction, SessionEvent, SessionState};

#[test]
fn start_state_depends_on_auth_policy() {
    assert_eq!(session_start(true), SessionState::Authenticating);
    assert_eq!(session_start(false), SessionState::AwaitFirstMessage);
}

#[test]
fn auth_success_awaits_the_first_message() {
    let (s, a) = session_step(SessionState::Authenticating, SessionEvent::AuthSucceeded);
    assert_eq!(s, SessionState::AwaitFirstMessage);
    assert_eq!(a, SessionAction::AwaitMessage);
}

#[test]
fn auth_failure_sends_error_and_closes() {
    let (s, a) = session_step(
        SessionState::Authenticating,
        SessionEvent::AuthFailed { reason: "invalid secret".to_string() },
    );
    assert_eq!(s, SessionState::Closed);
    assert_eq!(a, SessionAction::SendErrorAndClose { reason: "invalid secret".to_string() });
}

#[test]
fn hello_fixes_the_tunnel_role() {
    let (s, a) = session_step(
        SessionState::AwaitFirstMessage,
        SessionEvent::FirstMessage { msg: Some(ClientMessage::Hello(15500)) },
    );
    assert_eq!(s, SessionState::Tunneling { port: 15500 });
    assert_eq!(a, SessionAction::Establish { port: 15500 });
}

#[test]
fn hello_zero_asks_for_any_port() {
    let (s, a) = session_step(
        SessionState::AwaitFirstMessage,
        SessionEvent::FirstMessage { msg: Some(ClientMessage::Hello(0)) },
    );
    assert_eq!(s, SessionState::Tunneling { port: 0 });
    assert_eq!(a, SessionAction::Establish { port: 0 });
}

#[test]
fn accept_fixes_the_claim_role() {
    let (s, a) = session_step(
        SessionState::AwaitFirstMessage,
        SessionEvent::FirstMessage { msg: Some(ClientMessage::Accept(77)) },
    );
    assert_eq!(s, SessionState::Claiming { id: 77 });
    assert_eq!(a, SessionAction::Claim { id: 77 });
}

#[test]
fn authenticate_as_first_message_is_a_violation() {
    let (s, a) = session_step(
        SessionState::AwaitFirstMessage,
        SessionEvent::FirstMessage { msg: Some(ClientMessage::Authenticate("x".to_string())) },
    );
    assert_eq!(s, SessionState::Closed);
    assert_eq!(a, SessionAction::Close);
}

#[test]
fn missing_first_message_closes_quietly() {
    let (s, a) =
        session_step(SessionState::AwaitFirstMessage, SessionEvent::FirstMessage { msg: None });
    assert_eq!(s, SessionState::Closed);
    assert_eq!(a, SessionAction::Close);
}

#[test]
fn role_cannot_change_after_the_first_message() {
    for state in [
        SessionState::Tunneling { port: 15500 },
        SessionState::Claiming { id: 9 },
        SessionState::Closed,
    ] {
        let (s, a) = session_step(
            state,
            SessionEvent::FirstMessage { msg: Some(ClientMessage::Hello(15000)) },
        );
        assert_eq!(s, SessionState::Closed);
        assert_eq!(a, SessionAction::Close);
    }
}
