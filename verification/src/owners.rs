//! Port-ownership table.
//!
//! A concurrent map from (public port, client network address) to a
//! cancelable handle for the listener task currently serving that port for
//! that address. It is the sole authority on listener lifetime: at most
//! one active listener task exists per key, and a reconnect on the same
//! key evicts — cancels — the prior task before a new one is installed.
//!
//! The client network address is carried as a peer IP in its 128-bit form
//! together with the peer's source port. Each entry also carries the token
//! it was installed under, so a contract can say which listener an
//! eviction canceled.

use vstd::prelude::*;
use dashmap::DashMap;
use tokio::task::JoinHandle;

verus! {

/// A key of the ownership table: a public tunnel port and the client
/// network address it is owned from.
pub type OwnerKey = (u16, u128, u16);

/// Declares tokio's task handle so the cancelable handle of a listener
/// task can be stored and aborted; this crate never joins one.
#[verifier::external_type_specification]
#[verifier::external_body]
#[verifier::reject_recursive_types(T)]
pub struct ExJoinHandle<T>(JoinHandle<T>);

/// Declares tokio's task-join error, which the handle's trait impls
/// mention; this crate never produces or reads one.
#[verifier::external_type_specification]
#[verifier::external_body]
pub struct ExJoinError(tokio::task::JoinError);

/// The entries an ownership map holds: each owned key with the token its
/// listener was installed under.
pub uninterp spec fn owner_map(m: DashMap<OwnerKey, (JoinHandle<()>, u64)>) -> Map<OwnerKey, u64>;

/// Relies on dashmap::DashMap::new: the new map is empty.
#[verifier::external_body]
fn owners_new() -> (m: DashMap<OwnerKey, (JoinHandle<()>, u64)>)
    ensures
        owner_map(m) === Map::empty(),
{
    DashMap::new()
}

/// Relies on dashmap::DashMap::insert: after the call the map holds the
/// given value under the given key and is otherwise unchanged.
#[verifier::external_body]
fn owners_insert(
    m: &mut DashMap<OwnerKey, (JoinHandle<()>, u64)>,
    key: OwnerKey,
    handle: JoinHandle<()>,
    token: u64,
)
    ensures
        owner_map(*final(m)) == owner_map(*old(m)).insert(key, token),
{
    m.insert(key, (handle, token));
}

/// Relies on dashmap::DashMap::remove: removes and returns the entry under
/// the given key if one is present, and otherwise returns `None` and
/// leaves the map unchanged.
#[verifier::external_body]
fn owners_remove(
    m: &mut DashMap<OwnerKey, (JoinHandle<()>, u64)>,
    key: OwnerKey,
) -> (r: Option<(JoinHandle<()>, u64)>)
    ensures
        owner_map(*final(m)) == owner_map(*old(m)).remove(key),
        r is Some <==> owner_map(*old(m)).dom().contains(key),
        r matches Some(e) ==> e.1 == owner_map(*old(m))[key],
{
    m.remove(&key).map(|kv| kv.1)
}

/// Relies on tokio::task::JoinHandle::abort: asks the runtime to cancel
/// the task at its next suspension point; nothing is promised of when it
/// stops.
#[verifier::external_body]
fn abort_task(handle: &JoinHandle<()>) {
    handle.abort();
}

/// The port-ownership table: for each (port, client address) key, the
/// handle of the one listener task serving it.
pub struct OwnerTable {
    owners: DashMap<OwnerKey, (JoinHandle<()>, u64)>,
}

impl OwnerTable {
    /// The owned keys, each with the token of its listener task.
    pub closed spec fn owned(self) -> Map<OwnerKey, u64> {
        owner_map(self.owners)
    }

    /// An empty table.
    pub fn new() -> (r: OwnerTable)
        ensures
            r.owned() === Map::empty(),
    {
        OwnerTable { owners: owners_new() }
    }

    /// Evict the listener serving `key`, if any: remove its entry and
    /// cancel its task. Returns the token of the canceled listener.
    /// Entries under every other key are untouched.
    pub fn evict(&mut self, key: OwnerKey) -> (r: Option<u64>)
        ensures
            final(self).owned() == old(self).owned().remove(key),
            r is Some <==> old(self).owned().dom().contains(key),
            r matches Some(t) ==> t == old(self).owned()[key],
    {
        match owners_remove(&mut self.owners, key) {
            Some(entry) => {
                abort_task(&entry.0);
                Some(entry.1)
            }
            None => None,
        }
    }

    /// Install the listener task serving `key`, superseding any entry a
    /// terminated listener may have left under the same key.
    pub fn install(&mut self, key: OwnerKey, handle: JoinHandle<()>, token: u64)
        ensures
            final(self).owned() == old(self).owned().insert(key, token),
    {
        owners_insert(&mut self.owners, key, handle, token);
    }
}

/// Law: evicting the listener for one key does not disturb the listener of
/// any other key — in particular, the same port owned from a different
/// network address stays exactly as it was.
pub proof fn lemma_evict_isolated(owned: Map<OwnerKey, u64>, evicted: OwnerKey, other: OwnerKey)
    requires
        evicted != other,
    ensures
        owned.remove(evicted).dom().contains(other) == owned.dom().contains(other),
        owned.dom().contains(other) ==> owned.remove(evicted)[other] == owned[other],
{
}

} // verus!
