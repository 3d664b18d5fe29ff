//! The magic byte that opens every packet and gives its direction.

use vstd::prelude::*;

verus! {

/// Packet direction marker: requests open with `0x80`, responses with `0x81`.
#[derive(Debug, Copy, Clone, PartialEq, Eq, Structural)]
pub enum Magic {
    Request,
    Response,
}

impl Magic {
    /// The wire byte of this magic value.
    pub open spec fn spec_value(self) -> u8 {
        match self {
            Magic::Request => 0x80,
            Magic::Response => 0x81,
        }
    }

    /// Returns the wire byte of this magic value.
    pub fn value(&self) -> (r: u8)
        ensures
            r == self.spec_value(),
    {
        match self {
            Magic::Request => 0x80,
            Magic::Response => 0x81,
        }
    }

    /// The magic value a wire byte denotes, if any.
    pub open spec fn spec_from_u8(value: u8) -> Option<Magic> {
        if value == 0x80 {
            Some(Magic::Request)
        } else if value == 0x81 {
            Some(Magic::Response)
        } else {
            None
        }
    }

    /// Returns the magic value the wire byte `value` denotes; `None` for any
    /// other byte.
    pub fn from_u8(value: u8) -> (r: Option<Magic>)
        ensures
            r == Magic::spec_from_u8(value),
    {
        if value == 0x80 {
            Some(Magic::Request)
        } else if value == 0x81 {
            Some(Magic::Response)
        } else {
            None
        }
    }
}

} // verus!
