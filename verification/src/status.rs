//! The connection lifecycle of the sensor link.

use vstd::prelude::*;

verus! {

/// Where the sensor link stands, as shown by the status widget. The worker is
/// the only writer; everyone else reads it through a snapshot.
#[derive(Clone, Copy, PartialEq, Eq, Structural, Debug)]
pub enum ConnectionStatus {
    /// No connection attempt has been made yet.
    Idle,
    /// A connection attempt is in flight.
    Connecting,
    /// The link is up; refreshes are allowed.
    Connected,
    /// The last connection attempt failed; the UI loop will retry.
    ConnectionFailed,
}

impl ConnectionStatus {
    /// The line the status widget prints for this state.
    pub fn label(&self) -> (r: &'static str)
        ensures
            *self is Idle ==> r@ == "Waiting to connect..."@,
            *self is Connecting ==> r@ == "Connecting..."@,
            *self is Connected ==> r@ == "Connected to Sensor"@,
            *self is ConnectionFailed ==> r@ == "Connection failed"@,
    {
        match self {
            ConnectionStatus::Idle => "Waiting to connect...",
            ConnectionStatus::Connecting => "Connecting...",
            ConnectionStatus::Connected => "Connected to Sensor",
            ConnectionStatus::ConnectionFailed => "Connection failed",
        }
    }

    /// Equality with `Connected` is the only comparison the dashboard leans on:
    /// it decides whether the UI loop keeps submitting connect intents.
    pub fn is_connected(&self) -> (r: bool)
        ensures
            r == (*self == ConnectionStatus::Connected),
    {
        matches!(self, ConnectionStatus::Connected)
    }
}

/// The documented edges of the connection lifecycle. Every transition the
/// worker performs either stays put or follows one of these.
pub open spec fn status_edge(from: ConnectionStatus, to: ConnectionStatus) -> bool {
    ||| (from == ConnectionStatus::Idle && to == ConnectionStatus::Connecting)
    ||| (from == ConnectionStatus::Connecting && to == ConnectionStatus::Connected)
    ||| (from == ConnectionStatus::Connecting && to == ConnectionStatus::ConnectionFailed)
    ||| (from == ConnectionStatus::ConnectionFailed && to == ConnectionStatus::Connecting)
}

} // verus!
