//! The expiration-timeout encoding rule.
//!
//! Expiration times are unsigned integer seconds. A value from 0 (never
//! expire) up to and including 30 days is sent as-is, a relative offset. Any
//! larger value is converted to an absolute Unix timestamp: the current time
//! plus the value, truncated to 32 bits. The clock is injected as a
//! parameter, never read from an ambient global, so the rule stays
//! deterministic and testable.

use vstd::prelude::*;

verus! {

/// Largest expiration, in seconds, that the wire format carries as a
/// relative offset: 30 days. The boundary itself is still relative.
pub const MAX_SECONDS: u32 = 60 * 60 * 24 * 30;

/// The wire-format 32-bit expiration field for a seconds value, given the
/// current Unix time in seconds.
pub open spec fn spec_wire_expiration(value: u32, now_seconds: u64) -> u32 {
    if value <= MAX_SECONDS {
        value
    } else {
        (((now_seconds as int) + (value as int)) % 0x1_0000_0000) as u32
    }
}

/// Converts a seconds value into the wire-format expiration field.
///
/// A value up to and including [`MAX_SECONDS`] is returned unchanged; a
/// larger one becomes `now_seconds + value` truncated to 32 bits.
pub fn to_wire_expiration(value: u32, now_seconds: u64) -> (r: u32)
    ensures
        r == spec_wire_expiration(value, now_seconds),
{
    if value <= MAX_SECONDS {
        value
    } else {
        let base: u64 = now_seconds % 0x1_0000_0000;
        let sum: u64 = base + (value as u64);
        let r: u32 = (sum % 0x1_0000_0000) as u32;
        proof {
            vstd::arithmetic::div_mod::lemma_add_mod_noop(
                now_seconds as int,
                value as int,
                0x1_0000_0000,
            );
            vstd::arithmetic::div_mod::lemma_small_mod(value as nat, 0x1_0000_0000);
        }
        r
    }
}

/// An object that stands for an expiration timeout in seconds.
///
/// Implementations return the plain seconds value; the magic 30-day rule is
/// applied by [`Expiration::get_timeout`], not by them.
pub trait Expiration {
    /// The seconds value this object stands for.
    spec fn spec_expiration(&self) -> u32;

    /// Returns the seconds value this object stands for.
    fn as_expiration(&self) -> (r: u32)
        ensures
            r == self.spec_expiration(),
    ;

    /// Converts this object into the wire-format expiration field, given the
    /// current Unix time in seconds.
    fn get_timeout(&self, now_seconds: u64) -> (r: u32)
        ensures
            r == spec_wire_expiration(self.spec_expiration(), now_seconds),
    {
        to_wire_expiration(self.as_expiration(), now_seconds)
    }
}

impl Expiration for u8 {
    open spec fn spec_expiration(&self) -> u32 {
        *self as u32
    }

    fn as_expiration(&self) -> (r: u32) {
        *self as u32
    }
}

impl Expiration for u16 {
    open spec fn spec_expiration(&self) -> u32 {
        *self as u32
    }

    fn as_expiration(&self) -> (r: u32) {
        *self as u32
    }
}

impl Expiration for u32 {
    open spec fn spec_expiration(&self) -> u32 {
        *self
    }

    fn as_expiration(&self) -> (r: u32) {
        *self
    }
}

} // verus!
