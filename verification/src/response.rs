//! Memcached response: the status taxonomy and the framing decoder.

use vstd::prelude::*;

use crate::command::Command;
use crate::data_type::DataType;
use crate::errors::ResponseError;
use crate::magic::Magic;
use crate::request::HEADER_SIZE;
use crate::wire::read_u16_be;
use crate::wire::read_u32_be;
use crate::wire::read_u64_be;
use crate::wire::spec_u16_from_be;
use crate::wire::spec_u32_from_be;
use crate::wire::spec_u64_from_be;

verus! {

/// Response status, keyed by the 16-bit status slot of the header.
///
/// `NoError` is the protocol's status `0x0000`, a successful outcome; every
/// other variant is a protocol-level failure the server reports.
#[derive(Debug, Copy, Clone, PartialEq, Eq, Structural)]
pub enum Status {
    NoError,
    KeyNotFound,
    KeyExists,
    ValueTooLarge,
    InvalidArguments,
    ItemNotStored,
    IncrDecrOnNonNumericValue,
    VBucketBelongsToAnotherServer,
    AuthenticationError,
    AuthenticationContinue,
    UnknownCommand,
    OutOfMemory,
    NotSupported,
    InternalError,
    Busy,
    TemporaryFailure,
}

impl Status {
    /// The 16-bit wire code of this status.
    pub open spec fn spec_value(self) -> u16 {
        match self {
            Status::NoError => 0x0000,
            Status::KeyNotFound => 0x0001,
            Status::KeyExists => 0x0002,
            Status::ValueTooLarge => 0x0003,
            Status::InvalidArguments => 0x0004,
            Status::ItemNotStored => 0x0005,
            Status::IncrDecrOnNonNumericValue => 0x0006,
            Status::VBucketBelongsToAnotherServer => 0x0007,
            Status::AuthenticationError => 0x0008,
            Status::AuthenticationContinue => 0x0009,
            Status::UnknownCommand => 0x0081,
            Status::OutOfMemory => 0x0082,
            Status::NotSupported => 0x0083,
            Status::InternalError => 0x0084,
            Status::Busy => 0x0085,
            Status::TemporaryFailure => 0x0086,
        }
    }

    /// Returns the 16-bit wire code of this status.
    pub fn value(&self) -> (r: u16)
        ensures
            r == self.spec_value(),
    {
        match self {
            Status::NoError => 0x0000,
            Status::KeyNotFound => 0x0001,
            Status::KeyExists => 0x0002,
            Status::ValueTooLarge => 0x0003,
            Status::InvalidArguments => 0x0004,
            Status::ItemNotStored => 0x0005,
            Status::IncrDecrOnNonNumericValue => 0x0006,
            Status::VBucketBelongsToAnotherServer => 0x0007,
            Status::AuthenticationError => 0x0008,
            Status::AuthenticationContinue => 0x0009,
            Status::UnknownCommand => 0x0081,
            Status::OutOfMemory => 0x0082,
            Status::NotSupported => 0x0083,
            Status::InternalError => 0x0084,
            Status::Busy => 0x0085,
            Status::TemporaryFailure => 0x0086,
        }
    }

    /// The status a 16-bit wire code denotes, if any. The mapping is total
    /// over the named codes; every other code is a decode-time malformed
    /// condition, never coerced to a default status.
    pub open spec fn spec_from_u16(value: u16) -> Option<Status> {
        match value {
            0x0000 => Some(Status::NoError),
            0x0001 => Some(Status::KeyNotFound),
            0x0002 => Some(Status::KeyExists),
            0x0003 => Some(Status::ValueTooLarge),
            0x0004 => Some(Status::InvalidArguments),
            0x0005 => Some(Status::ItemNotStored),
            0x0006 => Some(Status::IncrDecrOnNonNumericValue),
            0x0007 => Some(Status::VBucketBelongsToAnotherServer),
            0x0008 => Some(Status::AuthenticationError),
            0x0009 => Some(Status::AuthenticationContinue),
            0x0081 => Some(Status::UnknownCommand),
            0x0082 => Some(Status::OutOfMemory),
            0x0083 => Some(Status::NotSupported),
            0x0084 => Some(Status::InternalError),
            0x0085 => Some(Status::Busy),
            0x0086 => Some(Status::TemporaryFailure),
            _ => None,
        }
    }

    /// Returns the status the 16-bit wire code `value` denotes; `None` for
    /// any unrecognized code.
    pub fn from_u16(value: u16) -> (r: Option<Status>)
        ensures
            r == Status::spec_from_u16(value),
    {
        match value {
            0x0000 => Some(Status::NoError),
            0x0001 => Some(Status::KeyNotFound),
            0x0002 => Some(Status::KeyExists),
            0x0003 => Some(Status::ValueTooLarge),
            0x0004 => Some(Status::InvalidArguments),
            0x0005 => Some(Status::ItemNotStored),
            0x0006 => Some(Status::IncrDecrOnNonNumericValue),
            0x0007 => Some(Status::VBucketBelongsToAnotherServer),
            0x0008 => Some(Status::AuthenticationError),
            0x0009 => Some(Status::AuthenticationContinue),
            0x0081 => Some(Status::UnknownCommand),
            0x0082 => Some(Status::OutOfMemory),
            0x0083 => Some(Status::NotSupported),
            0x0084 => Some(Status::InternalError),
            0x0085 => Some(Status::Busy),
            0x0086 => Some(Status::TemporaryFailure),
            _ => None,
        }
    }
}

/// The total body length a buffer's header declares, read from header bytes
/// 8 to 11.
pub open spec fn spec_declared_body_len(src: Seq<u8>) -> nat
    recommends
        src.len() >= 24,
{
    spec_u32_from_be(src.subrange(8, 12)) as nat
}

/// Whether a buffer holds a complete frame: the 24 header bytes and the full
/// body the header declares.
pub open spec fn spec_frame_complete(src: Seq<u8>) -> bool {
    src.len() >= 24 && src.len() >= 24 + spec_declared_body_len(src)
}

/// The malformed condition a complete frame's header exhibits, if any, in
/// the order the decoder validates: magic, opcode, data type, status.
pub open spec fn spec_parse_error(src: Seq<u8>) -> Option<ResponseError>
    recommends
        src.len() >= 24,
{
    if Magic::spec_from_u8(src[0]) != Some(Magic::Response) {
        Some(ResponseError::UnknownMagic)
    } else if Command::spec_from_u8(src[1]) is None {
        Some(ResponseError::UnknownCommand)
    } else if DataType::spec_from_u8(src[5]) is None {
        Some(ResponseError::UnknownDataType)
    } else if Status::spec_from_u16(spec_u16_from_be(src.subrange(6, 8))) is None {
        Some(ResponseError::UnknownStatus)
    } else {
        None
    }
}

/// A parsed memcached response: the header fields and the body blob, which
/// the header-declared lengths slice into extras, key and value views.
#[derive(Debug, PartialEq)]
pub struct Response {
    /// Direction marker; the decoder only accepts `Magic::Response`.
    pub magic: Magic,
    /// The command this response answers.
    pub opcode: Command,
    /// Declared key length within the body.
    pub key_length: u16,
    /// Declared extras length within the body.
    pub extras_length: u8,
    /// Data-type header byte; only `RawBytes` is modeled.
    pub data_type: DataType,
    /// Outcome the server reports.
    pub status: Status,
    /// Declared total body length.
    pub body_length: u32,
    /// Correlation value echoed back from the request.
    pub opaque: u32,
    /// Compare-and-swap token of the item.
    pub cas: u64,
    /// The body: extras, then key, then value.
    pub body: Vec<u8>,
}

impl Response {
    /// Returns the magic value of this response.
    pub fn magic(&self) -> (r: &Magic)
        ensures
            *r == self.magic,
    {
        &self.magic
    }

    /// Returns the command this response answers.
    pub fn command(&self) -> (r: &Command)
        ensures
            *r == self.opcode,
    {
        &self.opcode
    }

    /// Returns the status the server reports.
    pub fn status(&self) -> (r: &Status)
        ensures
            *r == self.status,
    {
        &self.status
    }

    /// Returns the data-type byte's value.
    pub fn data_type(&self) -> (r: &DataType)
        ensures
            *r == self.data_type,
    {
        &self.data_type
    }

    /// Returns the opaque correlation value.
    pub fn opaque(&self) -> (r: &u32)
        ensures
            *r == self.opaque,
    {
        &self.opaque
    }

    /// Returns the CAS token.
    pub fn cas(&self) -> (r: &u64)
        ensures
            *r == self.cas,
    {
        &self.cas
    }

    /// Returns the extras view of the body: its first `extras_length` bytes.
    /// Absent when the declared length is zero or exceeds the body.
    pub fn extras(&self) -> (r: Option<&[u8]>)
        ensures
            match r {
                Some(s) => {
                    &&& self.extras_length > 0
                    &&& self.extras_length <= self.body@.len()
                    &&& s@ == self.body@.subrange(0, self.extras_length as int)
                },
                None => self.extras_length == 0 || self.extras_length > self.body@.len(),
            },
    {
        let end = self.extras_length as usize;
        if self.extras_length > 0 && end <= self.body.len() {
            Some(vstd::slice::slice_subrange(self.body.as_slice(), 0, end))
        } else {
            None
        }
    }

    /// Returns the key view of the body: the `key_length` bytes after the
    /// extras. Absent when the declared length is zero or the slice exceeds
    /// the body.
    pub fn key(&self) -> (r: Option<&[u8]>)
        ensures
            match r {
                Some(s) => {
                    &&& self.key_length > 0
                    &&& self.extras_length + self.key_length <= self.body@.len()
                    &&& s@ == self.body@.subrange(
                        self.extras_length as int,
                        self.extras_length + self.key_length,
                    )
                },
                None => self.key_length == 0 || self.extras_length + self.key_length
                    > self.body@.len(),
            },
    {
        let start = self.extras_length as usize;
        let end = start + self.key_length as usize;
        if self.key_length > 0 && end <= self.body.len() {
            Some(vstd::slice::slice_subrange(self.body.as_slice(), start, end))
        } else {
            None
        }
    }

    /// Returns the value view of the body: everything after extras and key.
    /// Absent when that region is empty.
    pub fn value(&self) -> (r: Option<&[u8]>)
        ensures
            match r {
                Some(s) => {
                    &&& self.extras_length + self.key_length < self.body@.len()
                    &&& s@ == self.body@.subrange(
                        self.extras_length + self.key_length,
                        self.body@.len() as int,
                    )
                },
                None => self.extras_length + self.key_length >= self.body@.len(),
            },
    {
        let start = self.extras_length as usize + self.key_length as usize;
        if start < self.body.len() {
            Some(vstd::slice::slice_subrange(self.body.as_slice(), start, self.body.len()))
        } else {
            None
        }
    }

    /// Attempts to read one response from the front of `src`.
    ///
    /// Framing: fewer than 24 bytes, or fewer than the 24 plus the declared
    /// body length, is `Ok(None)` — not an error; the caller keeps the bytes
    /// and retries once more arrive, since nothing is consumed. A complete
    /// frame either fails validation (magic, opcode, data type, status, in
    /// that order) or parses into a response whose body is the declared
    /// slice; [`Response::len`] then says how many bytes to consume.
    pub fn read(src: &[u8]) -> (r: Result<Option<Response>, ResponseError>)
        ensures
            !spec_frame_complete(src@) ==> r == Ok::<Option<Response>, ResponseError>(None),
            spec_frame_complete(src@) ==> match r {
                Ok(Some(resp)) => {
                    &&& spec_parse_error(src@) is None
                    &&& resp.magic == Magic::Response
                    &&& Some(resp.opcode) == Command::spec_from_u8(src@[1])
                    &&& resp.key_length == spec_u16_from_be(src@.subrange(2, 4))
                    &&& resp.extras_length == src@[4]
                    &&& resp.data_type == DataType::RawBytes
                    &&& Some(resp.status) == Status::spec_from_u16(
                        spec_u16_from_be(src@.subrange(6, 8)),
                    )
                    &&& resp.body_length == spec_u32_from_be(src@.subrange(8, 12))
                    &&& resp.opaque == spec_u32_from_be(src@.subrange(12, 16))
                    &&& resp.cas == spec_u64_from_be(src@.subrange(16, 24))
                    &&& resp.body@ == src@.subrange(24, 24 + spec_declared_body_len(src@) as int)
                },
                Ok(None) => false,
                Err(e) => Some(e) == spec_parse_error(src@),
            },
    {
        let length = src.len();
        if length < HEADER_SIZE {
            return Ok(None);
        }
        let declared = read_u32_be(src, 8);
        if (length as u64) < (HEADER_SIZE as u64) + (declared as u64) {
            return Ok(None);
        }

        let magic = match Magic::from_u8(*vstd::slice::slice_index_get(src, 0)) {
            Some(Magic::Response) => Magic::Response,
            _ => {
                return Err(ResponseError::UnknownMagic);
            },
        };
        let opcode = match Command::from_u8(*vstd::slice::slice_index_get(src, 1)) {
            Some(c) => c,
            None => {
                return Err(ResponseError::UnknownCommand);
            },
        };
        let key_length = read_u16_be(src, 2);
        let extras_length = *vstd::slice::slice_index_get(src, 4);
        let data_type = match DataType::from_u8(*vstd::slice::slice_index_get(src, 5)) {
            Some(d) => d,
            None => {
                return Err(ResponseError::UnknownDataType);
            },
        };
        let status = match Status::from_u16(read_u16_be(src, 6)) {
            Some(s) => s,
            None => {
                return Err(ResponseError::UnknownStatus);
            },
        };
        let opaque = read_u32_be(src, 12);
        let cas = read_u64_be(src, 16);
        let end: usize = HEADER_SIZE + declared as usize;
        let body = vstd::slice::slice_to_vec(vstd::slice::slice_subrange(src, HEADER_SIZE, end));

        Ok(
            Some(
                Response {
                    magic,
                    opcode,
                    key_length,
                    extras_length,
                    data_type,
                    status,
                    body_length: declared,
                    opaque,
                    cas,
                    body,
                },
            ),
        )
    }

    /// Returns how many bytes of the source buffer this response covers: the
    /// header plus the declared body. The caller advances its read cursor
    /// exactly this far.
    pub fn len(&self) -> (r: usize)
        requires
            HEADER_SIZE + self.body_length <= usize::MAX,
        ensures
            r == HEADER_SIZE + self.body_length,
    {
        HEADER_SIZE + self.body_length as usize
    }

    /// Whether the server reports success; derived solely from the status.
    pub fn is_ok(&self) -> (r: bool)
        ensures
            r == (self.status == Status::NoError),
    {
        self.status == Status::NoError
    }

    /// Whether the server reports a failure; the negation of
    /// [`Response::is_ok`].
    pub fn is_err(&self) -> (r: bool)
        ensures
            r == (self.status != Status::NoError),
    {
        !self.is_ok()
    }
}

} // verus!
