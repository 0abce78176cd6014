//! Pending-connection registry.
//!
//! A concurrent map over the identifiers of accepted-but-unclaimed visitor
//! connections. An entry is created when a tunnel's listener accepts a
//! visitor, and destroyed exactly once: either by the client claiming it,
//! or by its expiry after a fixed time-to-live. Whichever of the two comes
//! second observes nothing and changes nothing.
//!
//! Each entry carries the token it was registered under — the value that
//! stands for the visitor's socket, which the driver holds under the same
//! identifier and hands over, or drops, exactly as the registry decides.

use vstd::prelude::*;
use dashmap::DashMap;

verus! {

/// Seconds an unclaimed visitor connection stays in the registry before
/// its expiry removes it.
pub const PENDING_TTL_SECS: u64 = 10;

/// Milliseconds a tunnel's listener waits for a visitor before it loops
/// back to sending a heartbeat.
pub const ACCEPT_WAIT_MS: u64 = 500;

/// Declares dashmap's concurrent map so values of it can be held in this
/// crate and its methods given contracts.
#[verifier::external_type_specification]
#[verifier::external_body]
#[verifier::reject_recursive_types(K)]
#[verifier::reject_recursive_types(V)]
#[verifier::reject_recursive_types(S)]
pub struct ExDashMap<K, V, S>(DashMap<K, V, S>);

/// The entries a registry map holds: each pending identifier with the
/// token it was registered under.
pub uninterp spec fn pending_map(m: DashMap<u128, u64>) -> Map<u128, u64>;

/// Relies on dashmap::DashMap::new: the new map is empty.
#[verifier::external_body]
fn conns_new() -> (m: DashMap<u128, u64>)
    ensures
        pending_map(m) === Map::empty(),
{
    DashMap::new()
}

/// Relies on dashmap::DashMap::insert: after the call the map holds the
/// given value under the given key and is otherwise unchanged.
#[verifier::external_body]
fn conns_insert(m: &mut DashMap<u128, u64>, id: u128, token: u64)
    ensures
        pending_map(*final(m)) == pending_map(*old(m)).insert(id, token),
{
    m.insert(id, token);
}

/// Relies on dashmap::DashMap::remove: removes and returns the entry under
/// the given key if one is present, and otherwise returns `None` and
/// leaves the map unchanged.
#[verifier::external_body]
fn conns_remove(m: &mut DashMap<u128, u64>, id: u128) -> (r: Option<u64>)
    ensures
        pending_map(*final(m)) == pending_map(*old(m)).remove(id),
        r is Some <==> pending_map(*old(m)).dom().contains(id),
        r matches Some(t) ==> t == pending_map(*old(m))[id],
{
    m.remove(&id).map(|kv| kv.1)
}

/// Relies on uuid::Uuid::new_v4 for a fresh random 128-bit identifier;
/// nothing is promised of the value.
#[verifier::external_body]
fn fresh_id() -> (id: u128) {
    uuid::Uuid::new_v4().as_u128()
}

/// The pending-connection registry: accepted visitor connections awaiting
/// a claim, keyed by identifier.
pub struct Registry {
    conns: DashMap<u128, u64>,
    next_token: u64,
}

impl Registry {
    /// The identifiers of the pending connections, each with the token it
    /// was registered under.
    pub closed spec fn pending(self) -> Map<u128, u64> {
        pending_map(self.conns)
    }

    /// The token the next registered connection will carry.
    pub closed spec fn next_token(self) -> u64 {
        self.next_token
    }

    /// An empty registry; tokens count up from zero.
    pub fn new() -> (r: Registry)
        ensures
            r.pending() === Map::empty(),
            r.next_token() == 0,
    {
        Registry { conns: conns_new(), next_token: 0 }
    }

    /// Register a newly accepted visitor connection: generate a fresh
    /// identifier and record it as pending. Returns the identifier, for
    /// the announcement to the client and the scheduling of the entry's
    /// expiry, together with the token the entry carries; the driver
    /// stores the visitor's socket under the identifier until the registry
    /// decides its fate.
    pub fn register(&mut self) -> (r: (u128, u64))
        ensures
            final(self).pending() == old(self).pending().insert(r.0, r.1),
            r.1 == old(self).next_token(),
    {
        let id = fresh_id();
        let token = self.next_token;
        self.next_token = self.next_token.wrapping_add(1);
        conns_insert(&mut self.conns, id, token);
        (id, token)
    }

    /// Claim the pending connection `id`: remove its entry, exclusively,
    /// and return its token — the go-ahead for the driver to hand the
    /// stored socket to the relay. Returns `None` when the identifier is
    /// not pending: never announced, already claimed, or already expired.
    pub fn claim(&mut self, id: u128) -> (r: Option<u64>)
        ensures
            final(self).pending() == old(self).pending().remove(id),
            r is Some <==> old(self).pending().dom().contains(id),
            (r matches Some(t) ==> t == old(self).pending()[id]),
            final(self).next_token() == old(self).next_token(),
    {
        conns_remove(&mut self.conns, id)
    }

    /// Expire the pending connection `id` once its time-to-live has
    /// elapsed: remove its entry if it is still unclaimed. Returns whether
    /// an entry was removed — the go-ahead for the driver to drop the
    /// stored socket; when a claim already won the race, nothing is
    /// removed and nothing changes.
    pub fn expire(&mut self, id: u128) -> (removed: bool)
        ensures
            final(self).pending() == old(self).pending().remove(id),
            removed <==> old(self).pending().dom().contains(id),
            final(self).next_token() == old(self).next_token(),
    {
        let entry = conns_remove(&mut self.conns, id);
        entry.is_some()
    }
}

/// Law: an identifier evicted by expiry is no longer pending, so a claim
/// that arrives after the eviction observes `None`.
pub proof fn lemma_claim_after_expiry(pending: Map<u128, u64>, id: u128)
    ensures
        !pending.remove(id).dom().contains(id),
{
}

/// Law: a pending connection is removed exactly once. After a claim has
/// removed `id`, a racing expiry of `id` finds nothing to remove and
/// leaves the registry exactly as the claim left it.
pub proof fn lemma_expiry_after_claim(pending: Map<u128, u64>, id: u128)
    ensures
        !pending.remove(id).dom().contains(id),
        pending.remove(id).remove(id) == pending.remove(id),
{
    assert(pending.remove(id).remove(id) =~= pending.remove(id));
}

} // verus!
