//! The closed variant sets of the Hello exchange: PDU types and circuit
//! types, with their wire values and total decoding from a byte.
use vstd::prelude::*;

verus! {

/// The Hello PDU types this probe recognizes on receive. Only the
/// point-to-point variant is ever built.
#[derive(Debug, Clone, Copy, PartialEq, Eq, Structural)]
pub enum PDUType {
    L1LanHello,
    L2LanHello,
    P2PHello,
}

/// The circuit types a received Hello may declare.
#[derive(Debug, Clone, Copy, PartialEq, Eq, Structural)]
pub enum CircuitType {
    L1Only,
    L2Only,
    L1L2,
}

impl PDUType {
    /// The wire value of this PDU type.
    pub open spec fn spec_byte(self) -> u8 {
        match self {
            PDUType::L1LanHello => 15,
            PDUType::L2LanHello => 16,
            PDUType::P2PHello => 17,
        }
    }

    /// The wire value of this PDU type.
    pub fn byte(self) -> (r: u8)
        ensures
            r == self.spec_byte(),
    {
        match self {
            PDUType::L1LanHello => 15,
            PDUType::L2LanHello => 16,
            PDUType::P2PHello => 17,
        }
    }

    /// Which PDU type, if any, a wire byte names.
    pub open spec fn spec_from_byte(b: u8) -> Option<PDUType> {
        if b == 15 {
            Some(PDUType::L1LanHello)
        } else if b == 16 {
            Some(PDUType::L2LanHello)
        } else if b == 17 {
            Some(PDUType::P2PHello)
        } else {
            None
        }
    }

    /// Decode a wire byte; total, so that an unexpected peer cannot make the
    /// verifier raise.
    pub fn from_byte(b: u8) -> (r: Option<PDUType>)
        ensures
            r == PDUType::spec_from_byte(b),
    {
        if b == 15 {
            Some(PDUType::L1LanHello)
        } else if b == 16 {
            Some(PDUType::L2LanHello)
        } else if b == 17 {
            Some(PDUType::P2PHello)
        } else {
            None
        }
    }
}

impl CircuitType {
    /// The wire value of this circuit type.
    pub open spec fn spec_byte(self) -> u8 {
        match self {
            CircuitType::L1Only => 1,
            CircuitType::L2Only => 2,
            CircuitType::L1L2 => 3,
        }
    }

    /// The wire value of this circuit type.
    pub fn byte(self) -> (r: u8)
        ensures
            r == self.spec_byte(),
    {
        match self {
            CircuitType::L1Only => 1,
            CircuitType::L2Only => 2,
            CircuitType::L1L2 => 3,
        }
    }

    /// Which circuit type, if any, a wire byte names.
    pub open spec fn spec_from_byte(b: u8) -> Option<CircuitType> {
        if b == 1 {
            Some(CircuitType::L1Only)
        } else if b == 2 {
            Some(CircuitType::L2Only)
        } else if b == 3 {
            Some(CircuitType::L1L2)
        } else {
            None
        }
    }

    /// Decode a wire byte; total, so that an unexpected peer cannot make the
    /// verifier raise.
    pub fn from_byte(b: u8) -> (r: Option<CircuitType>)
        ensures
            r == CircuitType::spec_from_byte(b),
    {
        if b == 1 {
            Some(CircuitType::L1Only)
        } else if b == 2 {
            Some(CircuitType::L2Only)
        } else if b == 3 {
            Some(CircuitType::L1L2)
        } else {
            None
        }
    }
}

} // verus!
