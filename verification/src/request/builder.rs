//! Builder-style construction of a request.

use vstd::prelude::*;

use crate::command::Command;
use crate::data_type::DataType;
use crate::extras::Extras;
use crate::magic::Magic;
use crate::request::Request;

verus! {

/// Builder-style object that manufactures a [`Request`] one field at a time.
pub struct Builder(pub Request);

impl Builder {
    /// Starts from a blank request carrying the default command.
    pub fn new() -> (r: Builder)
        ensures
            r.0.magic == Magic::Request,
            r.0.opcode == Command::Get,
            r.0.data_type == DataType::RawBytes,
            r.0.vbucket_id == 0,
            r.0.opaque == 0,
            r.0.cas == 0,
            r.0.extras is None,
            r.0.key is None,
            r.0.value is None,
    {
        Builder(Request::new(Command::default()))
    }

    /// Sets the command.
    pub fn command(self, value: Command) -> (r: Self)
        ensures
            r.0 == (Request { opcode: value, ..self.0 }),
    {
        Builder(Request { opcode: value, ..self.0 })
    }

    /// Sets the virtual bucket ID.
    pub fn vbucket_id(self, value: u16) -> (r: Self)
        ensures
            r.0 == (Request { vbucket_id: value, ..self.0 }),
    {
        Builder(Request { vbucket_id: value, ..self.0 })
    }

    /// Sets the opaque correlation value.
    pub fn opaque(self, value: u32) -> (r: Self)
        ensures
            r.0 == (Request { opaque: value, ..self.0 }),
    {
        Builder(Request { opaque: value, ..self.0 })
    }

    /// Sets the CAS token.
    pub fn cas(self, value: u64) -> (r: Self)
        ensures
            r.0 == (Request { cas: value, ..self.0 }),
    {
        Builder(Request { cas: value, ..self.0 })
    }

    /// Sets or clears the extras field from a typed payload.
    pub fn extras<T: Extras>(self, value: Option<T>) -> (r: Self)
        ensures
            match value {
                Some(x) => {
                    &&& r.0.extras matches Some(e) && e@ == x.spec_bytes()
                    &&& r.0 == (Request { extras: r.0.extras, ..self.0 })
                },
                None => r.0 == (Request { extras: None, ..self.0 }),
            },
    {
        match value {
            Some(x) => Builder(Request { extras: Some(x.encode()), ..self.0 }),
            None => Builder(Request { extras: None, ..self.0 }),
        }
    }

    /// Sets or clears the key field.
    pub fn key(self, value: Option<Vec<u8>>) -> (r: Self)
        ensures
            r.0 == (Request { key: value, ..self.0 }),
    {
        Builder(Request { key: value, ..self.0 })
    }

    /// Sets or clears the value field.
    pub fn value(self, value: Option<Vec<u8>>) -> (r: Self)
        ensures
            r.0 == (Request { value: value, ..self.0 }),
    {
        Builder(Request { value: value, ..self.0 })
    }

    /// Returns the finished request.
    pub fn finish(self) -> (r: Request)
        ensures
            r == self.0,
    {
        self.0
    }
}

} // verus!
