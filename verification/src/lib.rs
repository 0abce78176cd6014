//! Server side of a TCP tunneling relay: a publicly reachable broker that
//! lets a client behind NAT expose a local service on a server-allocated
//! public port.
//!
//! The crate holds the broker's decision logic — the control-connection
//! state machine, the port-allocation algorithm, the pending-connection
//! registry and the port-ownership table — with contracts on every
//! operation. The surrounding I/O (accepting sockets, framing messages,
//! spawning tasks) is left to the embedding program, which drives these
//! functions and performs the actions they decide on.

pub mod allocator;
pub mod messages;
pub mod owners;
pub mod registry;
pub mod server;
pub mod session;
