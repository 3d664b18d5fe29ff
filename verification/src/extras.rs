//! Extras payloads: the fixed-size, command-specific binary structures that
//! precede key and value in a packet body.
//!
//! Each payload shape is a named tuple of big-endian integers. Several
//! commands share one shape (the Get, Set and Increment families), so one
//! codec definition is referenced by several aliases rather than duplicated.

use vstd::prelude::*;

mod flush;
mod get;
mod incr;
mod set;
mod traits;
mod verbosity;

pub use flush::Flush;
pub use flush::FlushQ;
pub use get::Get;
pub use get::GetBuilder;
pub use get::GetK;
pub use get::GetKQ;
pub use get::GetQ;
pub use incr::Decrement;
pub use incr::DecrementQ;
pub use incr::Increment;
pub use incr::IncrementBuilder;
pub use incr::IncrementQ;
pub use set::Add;
pub use set::Replace;
pub use set::SetBuilder;
pub use set::SetExtras;
pub use traits::spec_wire_expiration;
pub use traits::to_wire_expiration;
pub use traits::Expiration;
pub use traits::MAX_SECONDS;
pub use verbosity::Verbosity;

verus! {

/// A fixed-size extras payload with a bit-exact wire form.
///
/// `encode` and `decode` are total given a buffer of the payload's fixed
/// length; handing `decode` a buffer of another length is the caller's error,
/// caught by the response decoder's length checks before any codec runs.
pub trait Extras: Sized {
    /// The fixed byte length of this payload shape on the wire.
    spec fn spec_size() -> nat;

    /// The wire bytes of this payload.
    spec fn spec_bytes(self) -> Seq<u8>;

    /// The payload a byte sequence of the payload's fixed length denotes.
    spec fn spec_decode(s: Seq<u8>) -> Self;

    /// Returns the wire bytes of this payload.
    fn encode(&self) -> (r: Vec<u8>)
        ensures
            r@ == self.spec_bytes(),
            r@.len() == Self::spec_size(),
    ;

    /// Parses a payload from exactly its wire bytes.
    fn decode(b: &[u8]) -> (r: Self)
        requires
            b@.len() == Self::spec_size(),
        ensures
            r == Self::spec_decode(b@),
    ;

    /// Round-trip law: decoding an encoded payload yields the payload back,
    /// for arbitrary field values.
    proof fn lemma_round_trip(self)
        ensures
            Self::spec_decode(self.spec_bytes()) == self,
    ;
}

} // verus!
