//! The data-type byte of the packet header.

use vstd::prelude::*;

verus! {

/// Data-type field of the header. The protocol reserves the byte for future
/// use; `RawBytes` (`0x00`) is the only value in use.
#[derive(Debug, Copy, Clone, PartialEq, Eq, Structural)]
pub enum DataType {
    RawBytes,
}

impl DataType {
    /// The wire byte of this data type.
    pub open spec fn spec_value(self) -> u8 {
        match self {
            DataType::RawBytes => 0x00,
        }
    }

    /// Returns the wire byte of this data type.
    pub fn value(&self) -> (r: u8)
        ensures
            r == self.spec_value(),
    {
        match self {
            DataType::RawBytes => 0x00,
        }
    }

    /// The data type a wire byte denotes, if any.
    pub open spec fn spec_from_u8(value: u8) -> Option<DataType> {
        if value == 0x00 {
            Some(DataType::RawBytes)
        } else {
            None
        }
    }

    /// Returns the data type the wire byte `value` denotes; `None` for any
    /// other byte.
    pub fn from_u8(value: u8) -> (r: Option<DataType>)
        ensures
            r == DataType::spec_from_u8(value),
    {
        if value == 0x00 {
            Some(DataType::RawBytes)
        } else {
            None
        }
    }
}

} // verus!
