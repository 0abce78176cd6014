use vstd::prelude::*;

verus! {

/// TCP port on which the server accepts control connections.
pub const CONTROL_PORT: u16 = 7835;

/// A protocol message sent by a client over a control connection.
///
/// Visitor-connection identifiers are 128-bit values, globally unique,
/// generated by the server at accept time.
#[derive(Debug, Clone, PartialEq)]
pub enum ClientMessage {
    /// Respond to an authentication challenge; only valid while the
    /// session is in its authentication phase.
    Authenticate(String),
    /// Ask for a tunnel on the given port; zero asks for any free port
    /// in the configured range.
    Hello(u16),
    /// Claim the pending visitor connection with this identifier.
    Accept(u128),
}

/// A protocol message sent by the server over a control connection.
#[derive(Debug, Clone, PartialEq)]
pub enum ServerMessage {
    /// Acknowledge tunnel establishment with the assigned port.
    Hello(u16),
    /// Report an authentication or allocation failure; terminal for the
    /// connection.
    Error(String),
    /// Periodic liveness signal on an established tunnel.
    Heartbeat,
    /// Announce a pending visitor connection that may be claimed.
    Connection(u128),
}

} // verus!
