//! Memcached request and its encoder.

use vstd::prelude::*;

use crate::command::Command;
use crate::data_type::DataType;
use crate::errors::EncodeError;
use crate::extras::Extras;
use crate::magic::Magic;
use crate::wire::lemma_u32_be_round_trip;
use crate::wire::push_bytes;
use crate::wire::push_u16_be;
use crate::wire::push_u32_be;
use crate::wire::push_u64_be;
use crate::wire::spec_u16_to_be;
use crate::wire::spec_u32_from_be;
use crate::wire::spec_u32_to_be;
use crate::wire::spec_u64_to_be;

mod builder;

pub use builder::Builder;

verus! {

/// Byte length of the fixed packet header.
pub const HEADER_SIZE: usize = 24;

/// A memcached request: a command plus the optional extras, key and value of
/// its body, and the fixed header fields.
///
/// The encoder consumes the request without mutating it; it writes the magic
/// this struct carries, and [`Request::new`] always sets the request magic.
#[derive(Debug)]
pub struct Request {
    /// Direction marker; [`Request::new`] sets `Magic::Request`.
    pub magic: Magic,
    /// The command this request issues.
    pub opcode: Command,
    /// Data-type header byte; only `RawBytes` is modeled.
    pub data_type: DataType,
    /// Virtual bucket (shard) the key belongs to.
    pub vbucket_id: u16,
    /// Caller-chosen correlation value, echoed back by the peer.
    pub opaque: u32,
    /// Compare-and-swap token; zero when unused.
    pub cas: u64,
    /// Encoded extras payload, if the command carries one.
    pub extras: Option<Vec<u8>>,
    /// Key bytes, if any.
    pub key: Option<Vec<u8>>,
    /// Value bytes, if any.
    pub value: Option<Vec<u8>>,
}

impl Request {
    /// Byte length of the extras payload; zero when absent.
    pub open spec fn spec_extras_len(self) -> nat {
        match self.extras {
            Some(e) => e@.len(),
            None => 0,
        }
    }

    /// Byte length of the key; zero when absent.
    pub open spec fn spec_key_len(self) -> nat {
        match self.key {
            Some(k) => k@.len(),
            None => 0,
        }
    }

    /// Byte length of the value; zero when absent.
    pub open spec fn spec_value_len(self) -> nat {
        match self.value {
            Some(v) => v@.len(),
            None => 0,
        }
    }

    /// Byte length of the body: extras, key and value together.
    pub open spec fn spec_body_len(self) -> nat {
        self.spec_extras_len() + self.spec_key_len() + self.spec_value_len()
    }

    /// Whether every length fits its header field: the key length in 16 bits,
    /// the extras length in 8 bits, the total body length in 32 bits.
    pub open spec fn spec_encodable(self) -> bool {
        &&& self.spec_key_len() <= 0xffff
        &&& self.spec_extras_len() <= 0xff
        &&& self.spec_body_len() <= 0xffff_ffff
    }

    /// The extras bytes of the body; empty when absent.
    pub open spec fn spec_extras_bytes(self) -> Seq<u8> {
        match self.extras {
            Some(e) => e@,
            None => Seq::empty(),
        }
    }

    /// The key bytes of the body; empty when absent.
    pub open spec fn spec_key_bytes(self) -> Seq<u8> {
        match self.key {
            Some(k) => k@,
            None => Seq::empty(),
        }
    }

    /// The value bytes of the body; empty when absent.
    pub open spec fn spec_value_bytes(self) -> Seq<u8> {
        match self.value {
            Some(v) => v@,
            None => Seq::empty(),
        }
    }

    /// The 24 header bytes of this request: magic, opcode, key length,
    /// extras length, data type, vbucket id, total body length, opaque, CAS,
    /// every multi-byte field big-endian.
    pub open spec fn spec_header_bytes(self) -> Seq<u8>
        recommends
            self.spec_encodable(),
    {
        seq![self.magic.spec_value(), self.opcode.spec_value()] + spec_u16_to_be(
            self.spec_key_len() as u16,
        ) + seq![self.spec_extras_len() as u8, self.data_type.spec_value()] + spec_u16_to_be(
            self.vbucket_id,
        ) + spec_u32_to_be(self.spec_body_len() as u32) + spec_u32_to_be(self.opaque)
            + spec_u64_to_be(self.cas)
    }

    /// The full wire form of this request: header, then extras, then key,
    /// then value, in that mandated order.
    pub open spec fn spec_bytes(self) -> Seq<u8>
        recommends
            self.spec_encodable(),
    {
        self.spec_header_bytes() + self.spec_extras_bytes() + self.spec_key_bytes()
            + self.spec_value_bytes()
    }

    /// Creates a request for `command` with all body fields blank and all
    /// header fields zero.
    pub fn new(command: Command) -> (r: Request)
        ensures
            r.magic == Magic::Request,
            r.opcode == command,
            r.data_type == DataType::RawBytes,
            r.vbucket_id == 0,
            r.opaque == 0,
            r.cas == 0,
            r.extras is None,
            r.key is None,
            r.value is None,
    {
        Request {
            magic: Magic::Request,
            opcode: command,
            data_type: DataType::RawBytes,
            vbucket_id: 0,
            opaque: 0,
            cas: 0,
            extras: None,
            key: None,
            value: None,
        }
    }

    /// Starts a builder; its request carries the default command until
    /// [`Builder::command`] replaces it.
    pub fn build() -> (r: Builder)
        ensures
            r.0.magic == Magic::Request,
            r.0.opcode == Command::Get,
            r.0.data_type == DataType::RawBytes,
            r.0.vbucket_id == 0,
            r.0.opaque == 0,
            r.0.cas == 0,
            r.0.extras is None,
            r.0.key is None,
            r.0.value is None,
    {
        Builder::new()
    }

    /// Returns a reference to the associated command.
    pub fn command(&self) -> (r: &Command)
        ensures
            *r == self.opcode,
    {
        &self.opcode
    }

    /// Returns a mutable reference to the associated command.
    pub fn command_mut(&mut self) -> (r: &mut Command)
        ensures
            *r == old(self).opcode,
            *final(self) == (Request { opcode: *final(r), ..*old(self) }),
    {
        &mut self.opcode
    }

    /// Returns a reference to the associated virtual bucket ID.
    pub fn vbucket_id(&self) -> (r: &u16)
        ensures
            *r == self.vbucket_id,
    {
        &self.vbucket_id
    }

    /// Returns a mutable reference to the associated virtual bucket ID.
    pub fn vbucket_id_mut(&mut self) -> (r: &mut u16)
        ensures
            *r == old(self).vbucket_id,
            *final(self) == (Request { vbucket_id: *final(r), ..*old(self) }),
    {
        &mut self.vbucket_id
    }

    /// Returns a reference to the associated opaque value.
    pub fn opaque(&self) -> (r: &u32)
        ensures
            *r == self.opaque,
    {
        &self.opaque
    }

    /// Returns a mutable reference to the associated opaque value.
    pub fn opaque_mut(&mut self) -> (r: &mut u32)
        ensures
            *r == old(self).opaque,
            *final(self) == (Request { opaque: *final(r), ..*old(self) }),
    {
        &mut self.opaque
    }

    /// Returns a reference to the associated compare-and-swap value.
    pub fn cas(&self) -> (r: &u64)
        ensures
            *r == self.cas,
    {
        &self.cas
    }

    /// Returns a mutable reference to the associated compare-and-swap value.
    pub fn cas_mut(&mut self) -> (r: &mut u64)
        ensures
            *r == old(self).cas,
            *final(self) == (Request { cas: *final(r), ..*old(self) }),
    {
        &mut self.cas
    }

    /// Returns a reference to the associated extras bytes.
    pub fn extras(&self) -> (r: &Option<Vec<u8>>)
        ensures
            *r == self.extras,
    {
        &self.extras
    }

    /// Returns a mutable reference to the associated extras bytes.
    pub fn extras_mut(&mut self) -> (r: &mut Option<Vec<u8>>)
        ensures
            *r == old(self).extras,
            *final(self) == (Request { extras: *final(r), ..*old(self) }),
    {
        &mut self.extras
    }

    /// Returns a reference to the associated key.
    pub fn key(&self) -> (r: &Option<Vec<u8>>)
        ensures
            *r == self.key,
    {
        &self.key
    }

    /// Returns a mutable reference to the associated key.
    pub fn key_mut(&mut self) -> (r: &mut Option<Vec<u8>>)
        ensures
            *r == old(self).key,
            *final(self) == (Request { key: *final(r), ..*old(self) }),
    {
        &mut self.key
    }

    /// Returns a reference to the associated value.
    pub fn value(&self) -> (r: &Option<Vec<u8>>)
        ensures
            *r == self.value,
    {
        &self.value
    }

    /// Returns a mutable reference to the associated value.
    pub fn value_mut(&mut self) -> (r: &mut Option<Vec<u8>>)
        ensures
            *r == old(self).value,
            *final(self) == (Request { value: *final(r), ..*old(self) }),
    {
        &mut self.value
    }

    /// Provides the key field, copying the given bytes.
    pub fn set_key(&mut self, key: &[u8])
        ensures
            final(self).key matches Some(k) && k@ == key@,
            *final(self) == (Request { key: final(self).key, ..*old(self) }),
    {
        self.key = Some(vstd::slice::slice_to_vec(key));
    }

    /// Provides the value field, copying the given bytes.
    pub fn set_value(&mut self, value: &[u8])
        ensures
            final(self).value matches Some(v) && v@ == value@,
            *final(self) == (Request { value: final(self).value, ..*old(self) }),
    {
        self.value = Some(vstd::slice::slice_to_vec(value));
    }

    /// Provides the extras field as the encoded bytes of `extras`.
    pub fn set_extras<T: Extras>(&mut self, extras: &T)
        ensures
            final(self).extras matches Some(e) && e@ == extras.spec_bytes(),
            *final(self) == (Request { extras: final(self).extras, ..*old(self) }),
    {
        self.extras = Some(extras.encode());
    }

    /// Provides the virtual bucket ID field.
    pub fn set_vbucket_id(&mut self, value: u16)
        ensures
            *final(self) == (Request { vbucket_id: value, ..*old(self) }),
    {
        self.vbucket_id = value;
    }

    /// Provides the CAS field.
    pub fn set_cas(&mut self, value: u64)
        ensures
            *final(self) == (Request { cas: value, ..*old(self) }),
    {
        self.cas = value;
    }

    /// Appends the 24 header bytes to `out`. The length arguments must
    /// already be the request's body-part lengths, checked by the caller.
    #[verifier::spinoff_prover]
    #[verifier::rlimit(100)]
    fn push_header(&self, out: &mut Vec<u8>, key_length: u16, extras_length: u8, body_length: u32)
        requires
            key_length == self.spec_key_len(),
            extras_length == self.spec_extras_len(),
            body_length == self.spec_body_len(),
        ensures
            final(out)@ == old(out)@ + self.spec_header_bytes(),
    {
        out.push(self.magic.value());
        out.push(self.opcode.value());
        proof {
            assert(out@ =~= old(out)@ + seq![
                self.magic.spec_value(),
                self.opcode.spec_value(),
            ]);
        }
        push_u16_be(out, key_length);
        let ghost p2 = out@;
        out.push(extras_length);
        out.push(self.data_type.value());
        proof {
            assert(out@ =~= p2 + seq![extras_length, self.data_type.spec_value()]);
        }
        push_u16_be(out, self.vbucket_id);
        push_u32_be(out, body_length);
        push_u32_be(out, self.opaque);
        push_u64_be(out, self.cas);
        proof {
            assert(out@ =~= old(out)@ + self.spec_header_bytes());
        }
    }

    /// Appends the serialized request to `out`.
    ///
    /// Writes nothing and reports which header length field overflows when a
    /// body part is too long for it; otherwise appends exactly
    /// [`Request::spec_bytes`].
    #[verifier::spinoff_prover]
    #[verifier::rlimit(50)]
    pub fn write(&self, out: &mut Vec<u8>) -> (r: Result<(), EncodeError>)
        ensures
            match r {
                Ok(_) => self.spec_encodable() && final(out)@ == old(out)@ + self.spec_bytes(),
                Err(e) => {
                    &&& final(out)@ == old(out)@
                    &&& !self.spec_encodable()
                    &&& e == (if self.spec_key_len() > 0xffff {
                        EncodeError::KeyTooLong
                    } else if self.spec_extras_len() > 0xff {
                        EncodeError::ExtrasTooLong
                    } else {
                        EncodeError::BodyTooLong
                    })
                },
            },
    {
        let key_length: usize = match &self.key {
            Some(k) => k.len(),
            None => 0,
        };
        if key_length > 0xffff {
            return Err(EncodeError::KeyTooLong);
        }
        let extras_length: usize = match &self.extras {
            Some(e) => e.len(),
            None => 0,
        };
        if extras_length > 0xff {
            return Err(EncodeError::ExtrasTooLong);
        }
        let value_length: usize = match &self.value {
            Some(v) => v.len(),
            None => 0,
        };
        if value_length > 0xffff_ffff - extras_length - key_length {
            return Err(EncodeError::BodyTooLong);
        }
        let body_length: u32 = (extras_length + key_length + value_length) as u32;

        self.push_header(out, key_length as u16, extras_length as u8, body_length);
        let ghost after_header = out@;
        if let Some(e) = &self.extras {
            push_bytes(out, e);
        }
        proof {
            assert(out@ =~= after_header + self.spec_extras_bytes());
        }
        let ghost after_extras = out@;
        if let Some(k) = &self.key {
            push_bytes(out, k);
        }
        proof {
            assert(out@ =~= after_extras + self.spec_key_bytes());
        }
        let ghost after_key = out@;
        if let Some(v) = &self.value {
            push_bytes(out, v);
        }
        proof {
            assert(out@ =~= after_key + self.spec_value_bytes());
            assert(out@ =~= old(out)@ + self.spec_bytes());
        }
        Ok(())
    }

    /// Returns the total serialized size, header included, without writing:
    /// for pre-sizing output buffers.
    pub fn len(&self) -> (r: usize)
        requires
            HEADER_SIZE + self.spec_body_len() <= usize::MAX,
        ensures
            r == HEADER_SIZE + self.spec_body_len(),
    {
        let mut result: usize = HEADER_SIZE;
        if let Some(e) = &self.extras {
            result += e.len();
        }
        if let Some(k) = &self.key {
            result += k.len();
        }
        if let Some(v) = &self.value {
            result += v.len();
        }
        result
    }
}

/// Header invariant law: in the wire form of any encodable request, the
/// total-body-length field (bytes 8 to 11 of the header) always equals the
/// extras length plus the key length plus the value length.
pub proof fn lemma_header_body_length(r: Request)
    requires
        r.spec_encodable(),
    ensures
        spec_u32_from_be(r.spec_bytes().subrange(8, 12)) == r.spec_body_len(),
{
    lemma_u32_be_round_trip(r.spec_body_len() as u32);
    assert(r.spec_bytes().subrange(8, 12) =~= spec_u32_to_be(r.spec_body_len() as u32));
}

} // verus!
