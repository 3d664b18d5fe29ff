//! Extras payload of the Flush family.

use vstd::prelude::*;

use crate::extras::Extras;
use crate::wire::lemma_u32_be_round_trip;
use crate::wire::push_u32_be;
use crate::wire::read_u32_be;
use crate::wire::spec_u32_from_be;
use crate::wire::spec_u32_to_be;

verus! {

/// Extras payload of `Flush` requests: four bytes holding an expiration after
/// which the flush takes effect.
///
/// `FlushQ` requests use the same layout; the alias below gives them a
/// consistent name.
#[derive(Debug, Copy, Clone, PartialEq, Eq, Structural)]
pub struct Flush {
    /// Expiration in wire form; see [`crate::extras::to_wire_expiration`].
    pub expiration: u32,
}

/// Extras payload of `FlushQ` requests; same layout as [`Flush`].
pub type FlushQ = Flush;

impl Flush {
    /// Creates a payload with the given expiration.
    pub fn new(expiration: u32) -> (r: Flush)
        ensures
            r.expiration == expiration,
    {
        Flush { expiration }
    }

    /// Returns a reference to the expiration.
    pub fn expiration(&self) -> (r: &u32)
        ensures
            *r == self.expiration,
    {
        &self.expiration
    }

    /// Returns a mutable reference to the expiration.
    pub fn expiration_mut(&mut self) -> (r: &mut u32)
        ensures
            *r == old(self).expiration,
            final(self).expiration == *final(r),
    {
        &mut self.expiration
    }
}

impl Extras for Flush {
    open spec fn spec_size() -> nat {
        4
    }

    open spec fn spec_bytes(self) -> Seq<u8> {
        spec_u32_to_be(self.expiration)
    }

    open spec fn spec_decode(s: Seq<u8>) -> Flush {
        Flush { expiration: spec_u32_from_be(s.subrange(0, 4)) }
    }

    fn encode(&self) -> (r: Vec<u8>)
        ensures
            r@ == self.spec_bytes(),
            r@.len() == Self::spec_size(),
    {
        let mut out: Vec<u8> = Vec::new();
        push_u32_be(&mut out, self.expiration);
        out
    }

    fn decode(b: &[u8]) -> (r: Flush)
        ensures
            r == Self::spec_decode(b@),
    {
        Flush { expiration: read_u32_be(b, 0) }
    }

    proof fn lemma_round_trip(self) {
        lemma_u32_be_round_trip(self.expiration);
        assert(self.spec_bytes().subrange(0, 4) =~= spec_u32_to_be(self.expiration));
    }
}

} // verus!
