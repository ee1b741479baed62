//! An IS-IS point-to-point adjacency probe: derives the System ID and Area ID
//! from a configured Network Entity Title, builds a conformant point-to-point
//! Hello frame byte for byte, and structurally validates received frames, so
//! that a live, protocol-compliant IS-IS neighbor can be detected on a link.
use vstd::prelude::*;

mod builder;
mod frame;
mod hexcodec;
mod netstr;
mod pdu;
mod simulator;

pub use builder::ISISPacketBuilder;
pub use pdu::CircuitType;
pub use pdu::PDUType;
pub use simulator::ExchangeOutcome;
pub use simulator::ISISConfig;
pub use simulator::ISISNeighborSimulator;
pub use simulator::CAPTURE_TIMEOUT_MS;
pub use simulator::HELLO_INTERVAL_SECS;

verus! {

/// The error taxonomy of the probe. Construction-time problems (a malformed
/// NET, a malformed router address) are distinguished from transport problems
/// so that a caller can fail fast on configuration and fail soft on the link.
#[derive(Debug, Clone, Copy, PartialEq, Eq, Structural)]
pub enum IsisError {
    /// The NET string does not have the accepted shape.
    InvalidFormat,
    /// The router address is not four dot-separated octets.
    InvalidAddress,
    /// The configured capture interface does not exist.
    DeviceNotFound,
    /// The capture facility failed for a reason other than a timeout.
    CaptureError,
}

impl IsisError {
    /// A short description of the error, for logs.
    pub fn message(&self) -> (r: &'static str)
        ensures
            r@ == match self {
                IsisError::InvalidFormat => "invalid NET format"@,
                IsisError::InvalidAddress => "invalid router address"@,
                IsisError::DeviceNotFound => "device not found"@,
                IsisError::CaptureError => "capture error"@,
            },
    {
        match self {
            IsisError::InvalidFormat => "invalid NET format",
            IsisError::InvalidAddress => "invalid router address",
            IsisError::DeviceNotFound => "device not found",
            IsisError::CaptureError => "capture error",
        }
    }
}

} // verus!
