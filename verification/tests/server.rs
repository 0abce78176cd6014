use bore::allocator::{alloc_next, AllocError, AllocStep, BindFailure};
use bore::messages::{ClientMessage, CONTROL_PORT};
use bore::server::{ListenerEvent, ListenerStep, Server, UNSPECIFIED_ADDR};
use bore::session::{session_start, session_step, SessionAction, SessionEvent, SessionState};
use tokio::runtime::Runtime;
use tokio::time::Duration;

/// Loopback in its 128-bit mapped form, with two variants standing for two
/// distinct client network addresses.
const ADDR_A: u128 = 0xffff_7f00_0001;
const ADDR_B: u128 = 0xffff_7f00_0002;

fn runtime() -> Runtime {
    tokio::runtime::Builder::new_current_thread().enable_time().build().unwrap()
}

/// A task standing in for a tunnel's listener task: it holds one end of a
/// channel and serves nothing. Cancellation is observable: the held end is
/// dropped without ever sending.
fn idle_listener_task(
    keep: tokio::sync::oneshot::Sender<()>,
) -> tokio::task::JoinHandle<()> {
    tokio::task::spawn(async move {
        let _keep = keep;
        tokio::time::sleep(Duration::from_secs(600)).await;
    })
}

#[test]
fn new_server_has_no_state_and_defaults() {
    let server = Server::new(15000, 16000, None);
    assert!(!server.auth_required());
    assert!(server.secret().is_none());
    assert_eq!(server.bind_addr(), UNSPECIFIED_ADDR);
    assert_eq!(server.bind_tunnels(), UNSPECIFIED_ADDR);
    assert_eq!(CONTROL_PORT, 7835);
}

#[test]
fn bind_addresses_can_be_set() {
    let mut server = Server::new(15000, 16000, None);
    server.set_bind_addr(ADDR_A);
    server.set_bind_tunnels(ADDR_B);
    assert_eq!(server.bind_addr(), ADDR_A);
    assert_eq!(server.bind_tunnels(), ADDR_B);
}

#[test]
fn wrong_credential_creates_no_tunnel_state() {
    let server = Server::new(15000, 16000, Some("hunter2"));
    assert!(server.auth_required());
    assert_eq!(server.secret().as_deref(), Some("hunter2"));
    let state = session_start(server.auth_required());
    assert_eq!(state, SessionState::Authenticating);
    let (state, action) = session_step(
        state,
        SessionEvent::AuthFailed { reason: "invalid secret".to_string() },
    );
    assert_eq!(state, SessionState::Closed);
    assert_eq!(action, SessionAction::SendErrorAndClose { reason: "invalid secret".to_string() });
}

#[test]
fn open_tunnel_rejects_a_port_outside_the_range() {
    let mut server = Server::new(15000, 16000, None);
    let (_, step, evicted) = server.open_tunnel(14000, ADDR_A, 40000);
    assert_eq!(step, AllocStep::Fail(AllocError::OutOfRange));
    assert_eq!(evicted, None);
    let (_, step, _) = server.open_tunnel(16001, ADDR_A, 40000);
    assert_eq!(step, AllocStep::Fail(AllocError::OutOfRange));
}

#[test]
fn reconnect_same_key_evicts_and_cancels_the_previous_listener() {
    runtime().block_on(async {
        let mut server = Server::new(15000, 16000, None);
        let (tx, rx) = tokio::sync::oneshot::channel::<()>();
        let handle = idle_listener_task(tx);
        server.install_listener(15500, ADDR_A, 40000, handle, 7);

        // The same client reconnects with the same requested port: the old
        // listener is evicted before anything new is bound, and the very
        // port is tried again.
        let (_, step, evicted) = server.open_tunnel(15500, ADDR_A, 40000);
        assert_eq!(evicted, Some(7));
        assert_eq!(step, AllocStep::Try(15500));

        // The canceled task dropped its channel end without sending.
        let res = tokio::time::timeout(Duration::from_secs(5), rx)
            .await
            .expect("the evicted listener task was never canceled");
        assert!(res.is_err());
    });
}

#[test]
fn reconnect_from_another_address_disturbs_nothing() {
    runtime().block_on(async {
        let mut server = Server::new(15000, 16000, None);
        let (tx, _rx) = tokio::sync::oneshot::channel::<()>();
        let handle = idle_listener_task(tx);
        server.install_listener(15500, ADDR_A, 40000, handle, 7);

        // A different client address asks for the same port: the first
        // client's listener is not evicted.
        let (_, _, evicted) = server.open_tunnel(15500, ADDR_B, 40000);
        assert_eq!(evicted, None);

        // The first client's entry is still in place, and still the one
        // evicted by its own reconnect.
        let (_, _, evicted) = server.open_tunnel(15500, ADDR_A, 40000);
        assert_eq!(evicted, Some(7));
    });
}

#[test]
fn heartbeat_failure_stops_the_listener_loop() {
    let mut server = Server::new(15000, 16000, None);
    assert_eq!(server.tunnel_event(ListenerEvent::HeartbeatFailed), ListenerStep::Stop);
    assert_eq!(server.tunnel_event(ListenerEvent::Idle), ListenerStep::Continue);
}

#[test]
fn hello_for_a_port_bound_by_an_unrelated_process_reports_in_use() {
    let mut server = Server::new(15000, 16000, None);
    let (mut st, step, _) = server.open_tunnel(15500, ADDR_A, 40001);
    assert_eq!(step, AllocStep::Try(15500));
    // The driver's bind fails because another process holds the port.
    let step = alloc_next(&mut st, BindFailure::AddrInUse);
    assert_eq!(step, AllocStep::Fail(AllocError::AddressInUse));
    assert_eq!(AllocError::AddressInUse.message(), "port already in use");
}

#[test]
fn end_to_end_any_port_tunnel_and_claim() {
    runtime().block_on(async {
        let mut server = Server::new(15000, 25000, None);

        // Client A asks for any port.
        let state = session_start(server.auth_required());
        let (state, action) = session_step(
            state,
            SessionEvent::FirstMessage { msg: Some(ClientMessage::Hello(0)) },
        );
        assert_eq!(state, SessionState::Tunneling { port: 0 });
        assert_eq!(action, SessionAction::Establish { port: 0 });

        // The server picks some port in range; the driver's bind of it
        // succeeds, the client is told `Hello(assigned)`, and the new
        // listener is installed.
        let (_, step, evicted) = server.open_tunnel(0, ADDR_A, 41000);
        assert_eq!(evicted, None);
        let assigned = match step {
            AllocStep::Try(p) => p,
            AllocStep::Fail(e) => panic!("allocation failed: {}", e.message()),
        };
        assert!((15000..=25000).contains(&assigned));
        let (tx, _rx) = tokio::sync::oneshot::channel::<()>();
        server.install_listener(assigned, ADDR_A, 41000, idle_listener_task(tx), 0);

        // A visitor connects to the assigned port: the listener loop
        // registers it and announces its identifier on A's control channel.
        let announced = server.tunnel_event(ListenerEvent::VisitorAccepted);
        let (id, token) = match announced {
            ListenerStep::Announce { id, token } => (id, token),
            other => panic!("expected an announcement, got {:?}", other),
        };

        // A fresh connection claims the announced identifier and gets the
        // pending entry, exactly once.
        let (state, action) = session_step(
            SessionState::AwaitFirstMessage,
            SessionEvent::FirstMessage { msg: Some(ClientMessage::Accept(id)) },
        );
        assert_eq!(state, SessionState::Claiming { id });
        assert_eq!(action, SessionAction::Claim { id });
        assert_eq!(server.claim(id), Some(token));

        // A racing expiry after the claim is a no-op, and the identifier
        // cannot be claimed twice.
        assert!(!server.expire(id));
        assert_eq!(server.claim(id), None);
    });
}

#[test]
fn expired_visitor_cannot_be_claimed() {
    let mut server = Server::new(15000, 25000, None);
    let announced = server.tunnel_event(ListenerEvent::VisitorAccepted);
    let id = match announced {
        ListenerStep::Announce { id, .. } => id,
        other => panic!("expected an announcement, got {:?}", other),
    };
    // The TTL elapses with no claim: the expiry evicts the entry.
    assert!(server.expire(id));
    // A claim arriving afterwards observes nothing.
    assert_eq!(server.claim(id), None);
}
