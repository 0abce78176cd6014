//! The relay server.
//!
//! `Server` owns the allocation policy, the pending-connection registry,
//! the port-ownership table and the authentication policy. The embedding
//! program accepts control connections on `CONTROL_PORT`, runs one session
//! (`crate::session`) per connection, and drives the methods here at the
//! session's decision points: evicting and installing listeners on a
//! `Hello`, registering visitors and scheduling their expiry while a
//! tunnel runs, and claiming a pending connection on an `Accept`.

use vstd::prelude::*;
use tokio::task::JoinHandle;
use crate::allocator::{alloc_begin, port_in_range, AllocState, AllocStep, AllocError, ANY_PORT_ATTEMPTS};
use crate::owners::{OwnerKey, OwnerTable};
use crate::registry::Registry;

verus! {

/// The unspecified IPv4 address in its 128-bit mapped form: the default
/// address the control port and the tunnels bind on.
pub const UNSPECIFIED_ADDR: u128 = 0xffff_0000_0000;

/// What a tunnel's listener loop observed, fed in by the driver once per
/// iteration.
#[derive(Debug, Clone, Copy, PartialEq, Eq, Structural)]
pub enum ListenerEvent {
    /// The heartbeat sent at the top of the iteration failed: the client
    /// is gone.
    HeartbeatFailed,
    /// No visitor arrived within the bounded wait.
    Idle,
    /// A visitor connection was accepted on the tunnel's public port; the
    /// driver holds its socket, awaiting the identifier to store it under.
    VisitorAccepted,
}

/// What the listener loop's driver must do next.
#[derive(Debug, Clone, Copy, PartialEq, Eq, Structural)]
pub enum ListenerStep {
    /// Terminate the loop, abandoning the bound listener; the tunnel is
    /// over.
    Stop,
    /// Loop back to the next heartbeat.
    Continue,
    /// The visitor was registered under `id`: announce `Connection(id)` to
    /// the client (fire-and-forget) and schedule the entry's expiry after
    /// `PENDING_TTL_SECS`.
    Announce { id: u128, token: u64 },
}

/// State structure for the server.
pub struct Server {
    /// Lowest TCP port that can be forwarded.
    port_lo: u16,
    /// Highest TCP port that can be forwarded.
    port_hi: u16,
    /// Optional secret used to authenticate clients.
    auth: Option<String>,
    /// Pending visitor connections, awaiting a claim.
    conns: Registry,
    /// The listener task owning each (port, client address) pair.
    port_owners: OwnerTable,
    /// IP address where the control server will bind to.
    bind_addr: u128,
    /// IP address where tunnels will listen on.
    bind_tunnels: u128,
}

impl Server {
    /// A server the methods here can be driven from.
    pub closed spec fn wf(self) -> bool {
        self.port_lo <= self.port_hi
    }

    /// The configured inclusive port range, as (lowest, highest).
    pub closed spec fn port_range(self) -> (u16, u16) {
        (self.port_lo, self.port_hi)
    }

    /// Whether clients must authenticate.
    pub closed spec fn auth_required_spec(self) -> bool {
        self.auth is Some
    }

    /// The configured shared secret.
    pub closed spec fn secret_spec(self) -> Option<Seq<char>> {
        match self.auth {
            Some(s) => Some(s@),
            None => None,
        }
    }

    /// The pending visitor connections: each identifier with its token.
    pub closed spec fn pending(self) -> Map<u128, u64> {
        self.conns.pending()
    }

    /// The token the next registered visitor connection will carry.
    pub closed spec fn next_token(self) -> u64 {
        self.conns.next_token()
    }

    /// The owned (port, client address) keys, each with the token of its
    /// listener task.
    pub closed spec fn owned(self) -> Map<OwnerKey, u64> {
        self.port_owners.owned()
    }

    /// The address the control server binds on.
    pub closed spec fn bind_addr_spec(self) -> u128 {
        self.bind_addr
    }

    /// The address tunnels listen on.
    pub closed spec fn bind_tunnels_spec(self) -> u128 {
        self.bind_tunnels
    }

    /// Everything but the two concurrent maps is the same in `a` and `b`.
    pub open spec fn same_config(a: Server, b: Server) -> bool {
        &&& a.port_range() == b.port_range()
        &&& a.secret_spec() == b.secret_spec()
        &&& a.auth_required_spec() == b.auth_required_spec()
        &&& a.bind_addr_spec() == b.bind_addr_spec()
        &&& a.bind_tunnels_spec() == b.bind_tunnels_spec()
    }

    /// Create a new server forwarding ports of the inclusive range
    /// `port_lo..=port_hi`, with no tunnels, no pending connections, and
    /// clients authenticated against `secret` when one is given.
    pub fn new(port_lo: u16, port_hi: u16, secret: Option<&str>) -> (r: Server)
        requires
            port_lo <= port_hi,
        ensures
            r.wf(),
            r.port_range() == (port_lo, port_hi),
            r.auth_required_spec() == (secret is Some),
            (secret matches Some(s) ==> r.secret_spec() == Some(s@)),
            r.pending() === Map::empty(),
            r.next_token() == 0,
            r.owned() === Map::empty(),
            r.bind_addr_spec() == UNSPECIFIED_ADDR,
            r.bind_tunnels_spec() == UNSPECIFIED_ADDR,
    {
        let auth: Option<String> = match secret {
            Some(s) => Some(s.to_string()),
            None => None,
        };
        Server {
            port_lo,
            port_hi,
            auth,
            conns: Registry::new(),
            port_owners: OwnerTable::new(),
            bind_addr: UNSPECIFIED_ADDR,
            bind_tunnels: UNSPECIFIED_ADDR,
        }
    }

    /// Set the IP address where the control server will bind to, in its
    /// 128-bit form.
    pub fn set_bind_addr(&mut self, bind_addr: u128)
        ensures
            final(self).bind_addr_spec() == bind_addr,
            final(self).bind_tunnels_spec() == old(self).bind_tunnels_spec(),
            final(self).port_range() == old(self).port_range(),
            final(self).secret_spec() == old(self).secret_spec(),
            final(self).pending() == old(self).pending(),
            final(self).owned() == old(self).owned(),
            final(self).wf() == old(self).wf(),
    {
        self.bind_addr = bind_addr;
    }

    /// Set the IP address where tunnels will listen on, in its 128-bit
    /// form.
    pub fn set_bind_tunnels(&mut self, bind_tunnels: u128)
        ensures
            final(self).bind_tunnels_spec() == bind_tunnels,
            final(self).bind_addr_spec() == old(self).bind_addr_spec(),
            final(self).port_range() == old(self).port_range(),
            final(self).secret_spec() == old(self).secret_spec(),
            final(self).pending() == old(self).pending(),
            final(self).owned() == old(self).owned(),
            final(self).wf() == old(self).wf(),
    {
        self.bind_tunnels = bind_tunnels;
    }

    /// The address the control server binds on, in its 128-bit form.
    pub fn bind_addr(&self) -> (r: u128)
        ensures
            r == self.bind_addr_spec(),
    {
        self.bind_addr
    }

    /// The address tunnels listen on, in its 128-bit form.
    pub fn bind_tunnels(&self) -> (r: u128)
        ensures
            r == self.bind_tunnels_spec(),
    {
        self.bind_tunnels
    }

    /// Whether clients must authenticate.
    pub fn auth_required(&self) -> (r: bool)
        ensures
            r == self.auth_required_spec(),
    {
        self.auth.is_some()
    }

    /// The configured shared secret, for the driver's authentication
    /// handshake.
    pub fn secret(&self) -> (r: &Option<String>)
        ensures
            (r is Some <==> self.secret_spec() is Some),
            (r matches Some(s) ==> self.secret_spec() == Some(s@)),
    {
        &self.auth
    }

    /// Begin establishing a tunnel for a client at the network address
    /// (`peer_ip`, `peer_port`) that requested `port` (zero: any port).
    ///
    /// Any prior listener owned by the same (requested port, address) key
    /// is evicted — canceled — first, strictly before any new listener can
    /// be bound or installed; its token is returned. Allocation then
    /// starts as `crate::allocator::alloc_begin`: the driver performs the
    /// returned `AllocStep`, retries with `alloc_next` on bind failures,
    /// and on success installs the new listener with `install_listener`.
    pub fn open_tunnel(&mut self, port: u16, peer_ip: u128, peer_port: u16) -> (r: (
        AllocState,
        AllocStep,
        Option<u64>,
    ))
        requires
            old(self).wf(),
        ensures
            final(self).wf(),
            Self::same_config(*final(self), *old(self)),
            final(self).pending() == old(self).pending(),
            final(self).next_token() == old(self).next_token(),
            final(self).owned() == old(self).owned().remove((port, peer_ip, peer_port)),
            (r.2 is Some <==> old(self).owned().dom().contains((port, peer_ip, peer_port))),
            (r.2 matches Some(t) ==> t == old(self).owned()[(port, peer_ip, peer_port)]),
            r.0.wf(),
            (r.0.lo, r.0.hi) == old(self).port_range() && r.0.requested == port,
            port != 0 && !port_in_range(r.0.lo, r.0.hi, port) ==> r.1 == AllocStep::Fail(
                AllocError::OutOfRange,
            ),
            port != 0 && port_in_range(r.0.lo, r.0.hi, port) ==> r.1 == AllocStep::Try(port),
            port == 0 ==> (r.1 matches AllocStep::Try(p) && port_in_range(r.0.lo, r.0.hi, p))
                && r.0.attempts_left == ANY_PORT_ATTEMPTS - 1,
    {
        let evicted = self.port_owners.evict((port, peer_ip, peer_port));
        let (state, step) = alloc_begin(self.port_lo, self.port_hi, port);
        (state, step, evicted)
    }

    /// Install the listener task serving the assigned `port` for the
    /// client at (`peer_ip`, `peer_port`), once the tunnel is established
    /// and the task spawned.
    pub fn install_listener(
        &mut self,
        port: u16,
        peer_ip: u128,
        peer_port: u16,
        handle: JoinHandle<()>,
        token: u64,
    )
        ensures
            final(self).owned() == old(self).owned().insert((port, peer_ip, peer_port), token),
            Self::same_config(*final(self), *old(self)),
            final(self).pending() == old(self).pending(),
            final(self).next_token() == old(self).next_token(),
            final(self).wf() == old(self).wf(),
    {
        self.port_owners.install((port, peer_ip, peer_port), handle, token);
    }

    /// Advance a tunnel's listener loop by one observed event.
    ///
    /// A failed heartbeat ends the loop. An idle wait loops back. An
    /// accepted visitor is registered under a fresh identifier, which the
    /// returned step tells the driver to announce and to schedule for
    /// expiry.
    pub fn tunnel_event(&mut self, ev: ListenerEvent) -> (r: ListenerStep)
        ensures
            Self::same_config(*final(self), *old(self)),
            final(self).owned() == old(self).owned(),
            final(self).wf() == old(self).wf(),
            (ev is HeartbeatFailed ==> r == ListenerStep::Stop && final(self).pending() == old(
                self,
            ).pending()),
            (ev is Idle ==> r == ListenerStep::Continue && final(self).pending() == old(
                self,
            ).pending()),
            (ev is VisitorAccepted ==> (r matches ListenerStep::Announce {
                id,
                token,
            } && final(self).pending() == old(self).pending().insert(id, token) && token == old(
                self,
            ).next_token())),
    {
        match ev {
            ListenerEvent::HeartbeatFailed => ListenerStep::Stop,
            ListenerEvent::Idle => ListenerStep::Continue,
            ListenerEvent::VisitorAccepted => {
                let (id, token) = self.conns.register();
                ListenerStep::Announce { id, token }
            },
        }
    }

    /// Claim the pending visitor connection `id` for relaying: remove it
    /// from the registry, exclusively, and return its token — the
    /// go-ahead for the driver to hand the stored socket to the relay.
    /// `None` when the identifier is not pending.
    pub fn claim(&mut self, id: u128) -> (r: Option<u64>)
        ensures
            Self::same_config(*final(self), *old(self)),
            final(self).owned() == old(self).owned(),
            final(self).wf() == old(self).wf(),
            final(self).next_token() == old(self).next_token(),
            final(self).pending() == old(self).pending().remove(id),
            (r is Some <==> old(self).pending().dom().contains(id)),
            (r matches Some(t) ==> t == old(self).pending()[id]),
    {
        self.conns.claim(id)
    }

    /// Expire the pending visitor connection `id` once its time-to-live
    /// has elapsed: remove it if it is still unclaimed. Returns whether an
    /// entry was removed; a claim that already won the race makes this a
    /// no-op.
    pub fn expire(&mut self, id: u128) -> (removed: bool)
        ensures
            Self::same_config(*final(self), *old(self)),
            final(self).owned() == old(self).owned(),
            final(self).wf() == old(self).wf(),
            final(self).next_token() == old(self).next_token(),
            final(self).pending() == old(self).pending().remove(id),
            (removed <==> old(self).pending().dom().contains(id)),
    {
        self.conns.expire(id)
    }
}

} // verus!
