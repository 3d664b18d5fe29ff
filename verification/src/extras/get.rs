//! Extras payload of the Get family.

use vstd::prelude::*;

use crate::extras::Extras;
use crate::wire::lemma_u32_be_round_trip;
use crate::wire::push_u32_be;
use crate::wire::read_u32_be;
use crate::wire::spec_u32_from_be;
use crate::wire::spec_u32_to_be;

verus! {

/// Extras payload of `Get` responses: four bytes holding the item's flags.
///
/// `GetK`, `GetQ` and `GetKQ` responses use the same layout; the aliases
/// below give them consistent names.
#[derive(Debug, Copy, Clone, PartialEq, Eq, Structural)]
pub struct Get {
    /// Opaque item flags stored alongside the value.
    pub flags: u32,
}

/// Extras payload of `GetQ` responses; same layout as [`Get`].
pub type GetQ = Get;

/// Extras payload of `GetK` responses; same layout as [`Get`].
pub type GetK = Get;

/// Extras payload of `GetKQ` responses; same layout as [`Get`].
pub type GetKQ = Get;

impl Get {
    /// Creates a payload with the given flags.
    pub fn new(flags: u32) -> (r: Get)
        ensures
            r.flags == flags,
    {
        Get { flags }
    }

    /// Starts a builder whose fields are all zero.
    pub fn build() -> (r: GetBuilder)
        ensures
            r.0 == (Get { flags: 0 }),
    {
        GetBuilder(Get { flags: 0 })
    }

    /// Replaces the flags.
    pub fn set_flags(&mut self, flags: u32)
        ensures
            final(self).flags == flags,
    {
        self.flags = flags;
    }

    /// Returns the flags.
    pub fn flags(&self) -> (r: u32)
        ensures
            r == self.flags,
    {
        self.flags
    }
}

/// Builder-style construction of a [`Get`] payload.
pub struct GetBuilder(pub Get);

impl GetBuilder {
    /// Sets the flags.
    pub fn flags(self, flags: u32) -> (r: Self)
        ensures
            r.0 == (Get { flags }),
    {
        let mut inner = self.0;
        inner.set_flags(flags);
        GetBuilder(inner)
    }

    /// Returns the finished payload.
    pub fn finish(self) -> (r: Get)
        ensures
            r == self.0,
    {
        self.0
    }
}

impl Default for Get {
    /// A payload with zero flags.
    fn default() -> (r: Self)
        ensures
            r.flags == 0,
    {
        Get { flags: 0 }
    }
}

impl Extras for Get {
    open spec fn spec_size() -> nat {
        4
    }

    open spec fn spec_bytes(self) -> Seq<u8> {
        spec_u32_to_be(self.flags)
    }

    open spec fn spec_decode(s: Seq<u8>) -> Get {
        Get { flags: spec_u32_from_be(s.subrange(0, 4)) }
    }

    fn encode(&self) -> (r: Vec<u8>)
        ensures
            r@ == self.spec_bytes(),
            r@.len() == Self::spec_size(),
    {
        let mut out: Vec<u8> = Vec::new();
        push_u32_be(&mut out, self.flags);
        proof {
            lemma_u32_be_round_trip(self.flags);
        }
        out
    }

    fn decode(b: &[u8]) -> (r: Get)
        ensures
            r == Self::spec_decode(b@),
    {
        Get { flags: read_u32_be(b, 0) }
    }

    proof fn lemma_round_trip(self) {
        lemma_u32_be_round_trip(self.flags);
        assert(self.spec_bytes().subrange(0, 4) =~= spec_u32_to_be(self.flags));
    }
}

} // verus!
