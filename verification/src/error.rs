//! What can go wrong between the caller and the relay.

use vstd::prelude::*;

verus! {

/// Why a registration gave no relay address.
#[derive(Clone, Copy, Debug, PartialEq, Eq, Structural)]
pub enum RegistrationError {
    /// The request did not reach the relay, or no answer came back.
    Network,
    /// The relay answered with a status outside 200..=299.
    Status(u16),
    /// The relay's answer could not be read as a registration response.
    Decode,
}

/// Why no connection to the relay address came about.
#[derive(Clone, Copy, Debug, PartialEq, Eq, Structural)]
pub enum ConnectError {
    /// The address is no websocket address.
    InvalidUrl,
    /// The relay was reached but the connection was not agreed on.
    Handshake,
    /// The relay was not reached.
    Transport,
}

/// Why a task on an open connection ended.
#[derive(Clone, Copy, Debug, PartialEq, Eq, Structural)]
pub enum RelayIOError {
    /// Reading the next frame failed.
    Read,
    /// Writing a frame failed.
    Write,
    /// The frames ended without a close frame.
    UnexpectedClose,
}

/// Why a publication was not taken.
#[derive(Clone, Copy, Debug, PartialEq, Eq, Structural)]
pub enum PublishError {
    /// The request did not reach the relay, or no answer came back.
    Network,
    /// The relay answered with a status outside 200..=299.
    Status(u16),
}

/// The application no longer listens for inbound messages.
#[derive(Clone, Copy, Debug, PartialEq, Eq, Structural)]
pub struct ChannelClosedError;

} // verus!
