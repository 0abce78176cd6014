use bore::registry::{Registry, ACCEPT_WAIT_MS, PENDING_TTL_SECS};

#[test]
fn registered_connection_is_claimed_exactly_once() {
    let mut reg = Registry::new();
    let (id, token) = reg.register();
    let first = reg.claim(id);
    assert_eq!(first, Some(token));
    // The claim removed the entry: a second claim observes nothing.
    assert_eq!(reg.claim(id), None);
}

#[test]
fn expiry_after_claim_is_a_no_op() {
    let mut reg = Registry::new();
    let (id, _) = reg.register();
    assert!(reg.claim(id).is_some());
    assert!(!reg.expire(id));
}

#[test]
fn claim_after_expiry_finds_nothing() {
    let mut reg = Registry::new();
    let (id, _) = reg.register();
    assert!(reg.expire(id));
    assert_eq!(reg.claim(id), None);
}

#[test]
fn expiry_of_an_unknown_identifier_removes_nothing() {
    let mut reg = Registry::new();
    assert!(!reg.expire(12345));
    assert_eq!(reg.claim(12345), None);
}

#[test]
fn distinct_registrations_get_distinct_identifiers_and_tokens() {
    let mut reg = Registry::new();
    let (id1, t1) = reg.register();
    let (id2, t2) = reg.register();
    assert_ne!(id1, id2);
    assert_ne!(t1, t2);
    // Each claim returns the token of its own entry, not the other's.
    assert_eq!(reg.claim(id2), Some(t2));
    assert_eq!(reg.claim(id1), Some(t1));
}

#[test]
fn tokens_count_up_from_zero() {
    let mut reg = Registry::new();
    let (_, t0) = reg.register();
    let (_, t1) = reg.register();
    let (_, t2) = reg.register();
    assert_eq!(t0, 0);
    assert_eq!(t1, 1);
    assert_eq!(t2, 2);
}

#[test]
fn policy_constants_match_the_protocol() {
    assert_eq!(PENDING_TTL_SECS, 10);
    assert_eq!(ACCEPT_WAIT_MS, 500);
}
