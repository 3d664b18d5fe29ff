//! Extras payload of the Set family.

use vstd::prelude::*;

use crate::extras::Extras;
use crate::wire::lemma_u32_be_round_trip;
use crate::wire::push_u32_be;
use crate::wire::read_u32_be;
use crate::wire::spec_u32_from_be;
use crate::wire::spec_u32_to_be;

verus! {

/// Extras payload of `Set` requests: eight bytes holding item flags and an
/// expiration, each a big-endian `u32`.
///
/// `Add` and `Replace` requests and their quiet variants use the same layout;
/// the aliases below give them consistent names.
#[derive(Debug, Copy, Clone, PartialEq, Eq, Structural)]
pub struct SetExtras {
    /// Opaque item flags stored alongside the value.
    pub flags: u32,
    /// Expiration in wire form; see [`crate::extras::to_wire_expiration`].
    pub expiration: u32,
}

/// Extras payload of `Add` requests; same layout as [`SetExtras`].
pub type Add = SetExtras;

/// Extras payload of `Replace` requests; same layout as [`SetExtras`].
pub type Replace = SetExtras;

impl SetExtras {
    /// Creates a payload with the given flags and expiration.
    pub fn new(flags: u32, expiration: u32) -> (r: SetExtras)
        ensures
            r.flags == flags,
            r.expiration == expiration,
    {
        SetExtras { flags, expiration }
    }

    /// Starts a builder whose fields are all zero.
    pub fn build() -> (r: SetBuilder)
        ensures
            r.0 == (SetExtras { flags: 0, expiration: 0 }),
    {
        SetBuilder(SetExtras { flags: 0, expiration: 0 })
    }

    /// Returns the flags.
    pub fn flags(&self) -> (r: u32)
        ensures
            r == self.flags,
    {
        self.flags
    }

    /// Returns the expiration in wire form.
    pub fn expiration(&self) -> (r: u32)
        ensures
            r == self.expiration,
    {
        self.expiration
    }
}

/// Builder-style construction of a [`SetExtras`] payload.
pub struct SetBuilder(pub SetExtras);

impl SetBuilder {
    /// Sets the flags.
    pub fn flags(self, flags: u32) -> (r: Self)
        ensures
            r.0 == (SetExtras { flags, ..self.0 }),
    {
        SetBuilder(SetExtras { flags, ..self.0 })
    }

    /// Sets the expiration.
    pub fn expiration(self, expiration: u32) -> (r: Self)
        ensures
            r.0 == (SetExtras { expiration, ..self.0 }),
    {
        SetBuilder(SetExtras { expiration, ..self.0 })
    }

    /// Returns the finished payload.
    pub fn finish(self) -> (r: SetExtras)
        ensures
            r == self.0,
    {
        self.0
    }
}

impl Default for SetExtras {
    /// A payload with all fields zero.
    fn default() -> (r: Self)
        ensures
            r.flags == 0,
            r.expiration == 0,
    {
        SetExtras { flags: 0, expiration: 0 }
    }
}

impl Extras for SetExtras {
    open spec fn spec_size() -> nat {
        8
    }

    open spec fn spec_bytes(self) -> Seq<u8> {
        spec_u32_to_be(self.flags) + spec_u32_to_be(self.expiration)
    }

    open spec fn spec_decode(s: Seq<u8>) -> SetExtras {
        SetExtras {
            flags: spec_u32_from_be(s.subrange(0, 4)),
            expiration: spec_u32_from_be(s.subrange(4, 8)),
        }
    }

    fn encode(&self) -> (r: Vec<u8>)
        ensures
            r@ == self.spec_bytes(),
            r@.len() == Self::spec_size(),
    {
        let mut out: Vec<u8> = Vec::new();
        push_u32_be(&mut out, self.flags);
        push_u32_be(&mut out, self.expiration);
        out
    }

    fn decode(b: &[u8]) -> (r: SetExtras)
        ensures
            r == Self::spec_decode(b@),
    {
        SetExtras { flags: read_u32_be(b, 0), expiration: read_u32_be(b, 4) }
    }

    proof fn lemma_round_trip(self) {
        lemma_u32_be_round_trip(self.flags);
        lemma_u32_be_round_trip(self.expiration);
        assert(self.spec_bytes().subrange(0, 4) =~= spec_u32_to_be(self.flags));
        assert(self.spec_bytes().subrange(4, 8) =~= spec_u32_to_be(self.expiration));
    }
}

} // verus!
