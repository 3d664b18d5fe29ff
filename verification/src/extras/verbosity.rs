//! Extras payload of the Verbosity command.

use vstd::prelude::*;

use crate::extras::Extras;
use crate::wire::lemma_u32_be_round_trip;
use crate::wire::push_u32_be;
use crate::wire::read_u32_be;
use crate::wire::spec_u32_from_be;
use crate::wire::spec_u32_to_be;

verus! {

/// Extras payload of `Verbosity` requests: four bytes holding the server's
/// new logging level.
#[derive(Debug, Copy, Clone, PartialEq, Eq, Structural)]
pub struct Verbosity {
    /// The logging level to switch the server to.
    pub verbosity: u32,
}

impl Verbosity {
    /// Creates a payload with the given level.
    pub fn new(verbosity: u32) -> (r: Verbosity)
        ensures
            r.verbosity == verbosity,
    {
        Verbosity { verbosity }
    }

    /// Returns a reference to the level.
    pub fn verbosity(&self) -> (r: &u32)
        ensures
            *r == self.verbosity,
    {
        &self.verbosity
    }

    /// Returns a mutable reference to the level.
    pub fn verbosity_mut(&mut self) -> (r: &mut u32)
        ensures
            *r == old(self).verbosity,
            final(self).verbosity == *final(r),
    {
        &mut self.verbosity
    }
}

impl Extras for Verbosity {
    open spec fn spec_size() -> nat {
        4
    }

    open spec fn spec_bytes(self) -> Seq<u8> {
        spec_u32_to_be(self.verbosity)
    }

    open spec fn spec_decode(s: Seq<u8>) -> Verbosity {
        Verbosity { verbosity: spec_u32_from_be(s.subrange(0, 4)) }
    }

    fn encode(&self) -> (r: Vec<u8>)
        ensures
            r@ == self.spec_bytes(),
            r@.len() == Self::spec_size(),
    {
        let mut out: Vec<u8> = Vec::new();
        push_u32_be(&mut out, self.verbosity);
        out
    }

    fn decode(b: &[u8]) -> (r: Verbosity)
        ensures
            r == Self::spec_decode(b@),
    {
        Verbosity { verbosity: read_u32_be(b, 0) }
    }

    proof fn lemma_round_trip(self) {
        lemma_u32_be_round_trip(self.verbosity);
        assert(self.spec_bytes().subrange(0, 4) =~= spec_u32_to_be(self.verbosity));
    }
}

} // verus!
