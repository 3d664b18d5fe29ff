//! Extras payload of the Increment family.

use vstd::prelude::*;

use crate::extras::Extras;
use crate::wire::lemma_u32_be_round_trip;
use crate::wire::lemma_u64_be_round_trip;
use crate::wire::push_u32_be;
use crate::wire::push_u64_be;
use crate::wire::read_u32_be;
use crate::wire::read_u64_be;
use crate::wire::spec_u32_from_be;
use crate::wire::spec_u32_to_be;
use crate::wire::spec_u64_from_be;
use crate::wire::spec_u64_to_be;

verus! {

/// Extras payload of `Increment` requests: twenty bytes holding the amount to
/// add, the initial value for a missing counter, and an expiration.
///
/// `Decrement` requests and the quiet variants use the same layout; the
/// aliases below give them consistent names.
#[derive(Debug, Copy, Clone, PartialEq, Eq, Structural)]
pub struct Increment {
    /// Amount to add to (or subtract from) the counter.
    pub amount: u64,
    /// Value the counter starts at when the key does not exist yet.
    pub initial: u64,
    /// Expiration in wire form; see [`crate::extras::to_wire_expiration`].
    pub expiration: u32,
}

/// Extras payload of `Decrement` requests; same layout as [`Increment`].
pub type Decrement = Increment;

/// Extras payload of `IncrementQ` requests; same layout as [`Increment`].
pub type IncrementQ = Increment;

/// Extras payload of `DecrementQ` requests; same layout as [`Increment`].
pub type DecrementQ = Increment;

impl Increment {
    /// Creates a payload with the given amount, initial value and expiration.
    pub fn new(amount: u64, initial: u64, expiration: u32) -> (r: Increment)
        ensures
            r.amount == amount,
            r.initial == initial,
            r.expiration == expiration,
    {
        Increment { amount, initial, expiration }
    }

    /// Starts a builder whose fields are all zero.
    pub fn build() -> (r: IncrementBuilder)
        ensures
            r.0 == (Increment { amount: 0, initial: 0, expiration: 0 }),
    {
        IncrementBuilder(Increment { amount: 0, initial: 0, expiration: 0 })
    }

    /// Replaces the amount.
    pub fn set_amount(&mut self, value: u64)
        ensures
            *final(self) == (Increment { amount: value, ..*old(self) }),
    {
        self.amount = value;
    }

    /// Returns the amount.
    pub fn amount(&self) -> (r: u64)
        ensures
            r == self.amount,
    {
        self.amount
    }

    /// Returns a mutable reference to the amount.
    pub fn amount_mut(&mut self) -> (r: &mut u64)
        ensures
            *r == old(self).amount,
            *final(self) == (Increment { amount: *final(r), ..*old(self) }),
    {
        &mut self.amount
    }

    /// Replaces the initial value.
    pub fn set_initial(&mut self, value: u64)
        ensures
            *final(self) == (Increment { initial: value, ..*old(self) }),
    {
        self.initial = value;
    }

    /// Returns the initial value.
    pub fn initial(&self) -> (r: u64)
        ensures
            r == self.initial,
    {
        self.initial
    }

    /// Returns a mutable reference to the initial value.
    pub fn initial_mut(&mut self) -> (r: &mut u64)
        ensures
            *r == old(self).initial,
            *final(self) == (Increment { initial: *final(r), ..*old(self) }),
    {
        &mut self.initial
    }

    /// Replaces the expiration.
    pub fn set_expiration(&mut self, value: u32)
        ensures
            *final(self) == (Increment { expiration: value, ..*old(self) }),
    {
        self.expiration = value;
    }

    /// Returns the expiration in wire form.
    pub fn expiration(&self) -> (r: u32)
        ensures
            r == self.expiration,
    {
        self.expiration
    }

    /// Returns a mutable reference to the expiration.
    pub fn expiration_mut(&mut self) -> (r: &mut u32)
        ensures
            *r == old(self).expiration,
            *final(self) == (Increment { expiration: *final(r), ..*old(self) }),
    {
        &mut self.expiration
    }
}

/// Builder-style construction of an [`Increment`] payload.
pub struct IncrementBuilder(pub Increment);

impl IncrementBuilder {
    /// Sets the amount.
    pub fn amount(self, amount: u64) -> (r: Self)
        ensures
            r.0 == (Increment { amount, ..self.0 }),
    {
        IncrementBuilder(Increment { amount, ..self.0 })
    }

    /// Sets the initial value.
    pub fn initial(self, initial: u64) -> (r: Self)
        ensures
            r.0 == (Increment { initial, ..self.0 }),
    {
        IncrementBuilder(Increment { initial, ..self.0 })
    }

    /// Sets the expiration.
    pub fn expiration(self, expiration: u32) -> (r: Self)
        ensures
            r.0 == (Increment { expiration, ..self.0 }),
    {
        IncrementBuilder(Increment { expiration, ..self.0 })
    }

    /// Returns the finished payload.
    pub fn finish(self) -> (r: Increment)
        ensures
            r == self.0,
    {
        self.0
    }
}

impl Default for Increment {
    /// A payload with all fields zero.
    fn default() -> (r: Self)
        ensures
            r.amount == 0,
            r.initial == 0,
            r.expiration == 0,
    {
        Increment { amount: 0, initial: 0, expiration: 0 }
    }
}

impl Extras for Increment {
    open spec fn spec_size() -> nat {
        20
    }

    open spec fn spec_bytes(self) -> Seq<u8> {
        spec_u64_to_be(self.amount) + spec_u64_to_be(self.initial) + spec_u32_to_be(
            self.expiration,
        )
    }

    open spec fn spec_decode(s: Seq<u8>) -> Increment {
        Increment {
            amount: spec_u64_from_be(s.subrange(0, 8)),
            initial: spec_u64_from_be(s.subrange(8, 16)),
            expiration: spec_u32_from_be(s.subrange(16, 20)),
        }
    }

    fn encode(&self) -> (r: Vec<u8>)
        ensures
            r@ == self.spec_bytes(),
            r@.len() == Self::spec_size(),
    {
        let mut out: Vec<u8> = Vec::new();
        push_u64_be(&mut out, self.amount);
        push_u64_be(&mut out, self.initial);
        push_u32_be(&mut out, self.expiration);
        out
    }

    fn decode(b: &[u8]) -> (r: Increment)
        ensures
            r == Self::spec_decode(b@),
    {
        Increment {
            amount: read_u64_be(b, 0),
            initial: read_u64_be(b, 8),
            expiration: read_u32_be(b, 16),
        }
    }

    proof fn lemma_round_trip(self) {
        lemma_u64_be_round_trip(self.amount);
        lemma_u64_be_round_trip(self.initial);
        lemma_u32_be_round_trip(self.expiration);
        assert(self.spec_bytes().subrange(0, 8) =~= spec_u64_to_be(self.amount));
        assert(self.spec_bytes().subrange(8, 16) =~= spec_u64_to_be(self.initial));
        assert(self.spec_bytes().subrange(16, 20) =~= spec_u32_to_be(self.expiration));
    }
}

} // verus!
