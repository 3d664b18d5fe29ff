//! Available protocol commands and the opcode table.
//!
//! Each command is bound to a one-byte opcode and to the shape of the extras
//! payload its requests and responses carry. Commands past the quiet variants
//! (SASL, replication, tap and vbucket management) are valid opcodes that
//! carry no modeled extras.

use vstd::prelude::*;

verus! {

/// A protocol command, one variant per documented opcode.
#[derive(Debug, Copy, Clone, PartialEq, Eq, Structural)]
pub enum Command {
    Get,
    SetOp,
    Add,
    Replace,
    Delete,
    Increment,
    Decrement,
    Quit,
    Flush,
    GetQ,
    Noop,
    Version,
    GetK,
    GetKQ,
    Append,
    Prepend,
    Stat,
    SetQ,
    AddQ,
    ReplaceQ,
    DeleteQ,
    IncrementQ,
    DecrementQ,
    QuitQ,
    FlushQ,
    AppendQ,
    PrependQ,
    Verbosity,
    Touch,
    Gat,
    GatQ,
    SaslListMechs,
    SaslAuth,
    SaslStep,
    RGet,
    RSet,
    RSetQ,
    RAppend,
    RAppendQ,
    RPrepend,
    RPrependQ,
    RDelete,
    RDeleteQ,
    RIncr,
    RIncrQ,
    RDecr,
    RDecrQ,
    SetVBucket,
    GetVBucket,
    DelVBucket,
    TapConnect,
    TapMutation,
    TapDelete,
    TapFlush,
    TapOpaque,
    TapVBucketSet,
    TapCheckpointStart,
    TapCheckpointEnd,
}

/// The fixed extras payload shape a command carries in one direction.
#[derive(Debug, Copy, Clone, PartialEq, Eq, Structural)]
pub enum ExtrasShape {
    NoExtras,
    GetExtras,
    SetExtras,
    IncrementExtras,
    FlushExtras,
    VerbosityExtras,
}

impl ExtrasShape {
    /// The byte length of a payload of this shape.
    pub open spec fn spec_size(self) -> nat {
        match self {
            ExtrasShape::NoExtras => 0,
            ExtrasShape::GetExtras => 4,
            ExtrasShape::SetExtras => 8,
            ExtrasShape::IncrementExtras => 20,
            ExtrasShape::FlushExtras => 4,
            ExtrasShape::VerbosityExtras => 4,
        }
    }

    /// Returns the byte length of a payload of this shape.
    pub fn size(&self) -> (r: usize)
        ensures
            r == self.spec_size(),
    {
        match self {
            ExtrasShape::NoExtras => 0,
            ExtrasShape::GetExtras => 4,
            ExtrasShape::SetExtras => 8,
            ExtrasShape::IncrementExtras => 20,
            ExtrasShape::FlushExtras => 4,
            ExtrasShape::VerbosityExtras => 4,
        }
    }
}

impl Command {
    /// The opcode byte of this command.
    pub open spec fn spec_value(self) -> u8 {
        match self {
            Command::Get => 0x00,
            Command::SetOp => 0x01,
            Command::Add => 0x02,
            Command::Replace => 0x03,
            Command::Delete => 0x04,
            Command::Increment => 0x05,
            Command::Decrement => 0x06,
            Command::Quit => 0x07,
            Command::Flush => 0x08,
            Command::GetQ => 0x09,
            Command::Noop => 0x0a,
            Command::Version => 0x0b,
            Command::GetK => 0x0c,
            Command::GetKQ => 0x0d,
            Command::Append => 0x0e,
            Command::Prepend => 0x0f,
            Command::Stat => 0x10,
            Command::SetQ => 0x11,
            Command::AddQ => 0x12,
            Command::ReplaceQ => 0x13,
            Command::DeleteQ => 0x14,
            Command::IncrementQ => 0x15,
            Command::DecrementQ => 0x16,
            Command::QuitQ => 0x17,
            Command::FlushQ => 0x18,
            Command::AppendQ => 0x19,
            Command::PrependQ => 0x1a,
            Command::Verbosity => 0x1b,
            Command::Touch => 0x1c,
            Command::Gat => 0x1d,
            Command::GatQ => 0x1e,
            Command::SaslListMechs => 0x20,
            Command::SaslAuth => 0x21,
            Command::SaslStep => 0x22,
            Command::RGet => 0x30,
            Command::RSet => 0x31,
            Command::RSetQ => 0x32,
            Command::RAppend => 0x33,
            Command::RAppendQ => 0x34,
            Command::RPrepend => 0x35,
            Command::RPrependQ => 0x36,
            Command::RDelete => 0x37,
            Command::RDeleteQ => 0x38,
            Command::RIncr => 0x39,
            Command::RIncrQ => 0x3a,
            Command::RDecr => 0x3b,
            Command::RDecrQ => 0x3c,
            Command::SetVBucket => 0x3d,
            Command::GetVBucket => 0x3e,
            Command::DelVBucket => 0x3f,
            Command::TapConnect => 0x40,
            Command::TapMutation => 0x41,
            Command::TapDelete => 0x42,
            Command::TapFlush => 0x43,
            Command::TapOpaque => 0x44,
            Command::TapVBucketSet => 0x45,
            Command::TapCheckpointStart => 0x46,
            Command::TapCheckpointEnd => 0x47,
        }
    }

    /// Returns the opcode byte of this command.
    pub fn value(&self) -> (r: u8)
        ensures
            r == self.spec_value(),
    {
        match self {
            Command::Get => 0x00,
            Command::SetOp => 0x01,
            Command::Add => 0x02,
            Command::Replace => 0x03,
            Command::Delete => 0x04,
            Command::Increment => 0x05,
            Command::Decrement => 0x06,
            Command::Quit => 0x07,
            Command::Flush => 0x08,
            Command::GetQ => 0x09,
            Command::Noop => 0x0a,
            Command::Version => 0x0b,
            Command::GetK => 0x0c,
            Command::GetKQ => 0x0d,
            Command::Append => 0x0e,
            Command::Prepend => 0x0f,
            Command::Stat => 0x10,
            Command::SetQ => 0x11,
            Command::AddQ => 0x12,
            Command::ReplaceQ => 0x13,
            Command::DeleteQ => 0x14,
            Command::IncrementQ => 0x15,
            Command::DecrementQ => 0x16,
            Command::QuitQ => 0x17,
            Command::FlushQ => 0x18,
            Command::AppendQ => 0x19,
            Command::PrependQ => 0x1a,
            Command::Verbosity => 0x1b,
            Command::Touch => 0x1c,
            Command::Gat => 0x1d,
            Command::GatQ => 0x1e,
            Command::SaslListMechs => 0x20,
            Command::SaslAuth => 0x21,
            Command::SaslStep => 0x22,
            Command::RGet => 0x30,
            Command::RSet => 0x31,
            Command::RSetQ => 0x32,
            Command::RAppend => 0x33,
            Command::RAppendQ => 0x34,
            Command::RPrepend => 0x35,
            Command::RPrependQ => 0x36,
            Command::RDelete => 0x37,
            Command::RDeleteQ => 0x38,
            Command::RIncr => 0x39,
            Command::RIncrQ => 0x3a,
            Command::RDecr => 0x3b,
            Command::RDecrQ => 0x3c,
            Command::SetVBucket => 0x3d,
            Command::GetVBucket => 0x3e,
            Command::DelVBucket => 0x3f,
            Command::TapConnect => 0x40,
            Command::TapMutation => 0x41,
            Command::TapDelete => 0x42,
            Command::TapFlush => 0x43,
            Command::TapOpaque => 0x44,
            Command::TapVBucketSet => 0x45,
            Command::TapCheckpointStart => 0x46,
            Command::TapCheckpointEnd => 0x47,
        }
    }

    /// The command an opcode byte denotes, if any.
    pub open spec fn spec_from_u8(value: u8) -> Option<Command> {
        match value {
            0x00 => Some(Command::Get),
            0x01 => Some(Command::SetOp),
            0x02 => Some(Command::Add),
            0x03 => Some(Command::Replace),
            0x04 => Some(Command::Delete),
            0x05 => Some(Command::Increment),
            0x06 => Some(Command::Decrement),
            0x07 => Some(Command::Quit),
            0x08 => Some(Command::Flush),
            0x09 => Some(Command::GetQ),
            0x0a => Some(Command::Noop),
            0x0b => Some(Command::Version),
            0x0c => Some(Command::GetK),
            0x0d => Some(Command::GetKQ),
            0x0e => Some(Command::Append),
            0x0f => Some(Command::Prepend),
            0x10 => Some(Command::Stat),
            0x11 => Some(Command::SetQ),
            0x12 => Some(Command::AddQ),
            0x13 => Some(Command::ReplaceQ),
            0x14 => Some(Command::DeleteQ),
            0x15 => Some(Command::IncrementQ),
            0x16 => Some(Command::DecrementQ),
            0x17 => Some(Command::QuitQ),
            0x18 => Some(Command::FlushQ),
            0x19 => Some(Command::AppendQ),
            0x1a => Some(Command::PrependQ),
            0x1b => Some(Command::Verbosity),
            0x1c => Some(Command::Touch),
            0x1d => Some(Command::Gat),
            0x1e => Some(Command::GatQ),
            0x20 => Some(Command::SaslListMechs),
            0x21 => Some(Command::SaslAuth),
            0x22 => Some(Command::SaslStep),
            0x30 => Some(Command::RGet),
            0x31 => Some(Command::RSet),
            0x32 => Some(Command::RSetQ),
            0x33 => Some(Command::RAppend),
            0x34 => Some(Command::RAppendQ),
            0x35 => Some(Command::RPrepend),
            0x36 => Some(Command::RPrependQ),
            0x37 => Some(Command::RDelete),
            0x38 => Some(Command::RDeleteQ),
            0x39 => Some(Command::RIncr),
            0x3a => Some(Command::RIncrQ),
            0x3b => Some(Command::RDecr),
            0x3c => Some(Command::RDecrQ),
            0x3d => Some(Command::SetVBucket),
            0x3e => Some(Command::GetVBucket),
            0x3f => Some(Command::DelVBucket),
            0x40 => Some(Command::TapConnect),
            0x41 => Some(Command::TapMutation),
            0x42 => Some(Command::TapDelete),
            0x43 => Some(Command::TapFlush),
            0x44 => Some(Command::TapOpaque),
            0x45 => Some(Command::TapVBucketSet),
            0x46 => Some(Command::TapCheckpointStart),
            0x47 => Some(Command::TapCheckpointEnd),
            _ => None,
        }
    }

    /// Returns the command the opcode byte `value` denotes; `None` for any
    /// byte outside the opcode table.
    pub fn from_u8(value: u8) -> (r: Option<Command>)
        ensures
            r == Command::spec_from_u8(value),
    {
        match value {
            0x00 => Some(Command::Get),
            0x01 => Some(Command::SetOp),
            0x02 => Some(Command::Add),
            0x03 => Some(Command::Replace),
            0x04 => Some(Command::Delete),
            0x05 => Some(Command::Increment),
            0x06 => Some(Command::Decrement),
            0x07 => Some(Command::Quit),
            0x08 => Some(Command::Flush),
            0x09 => Some(Command::GetQ),
            0x0a => Some(Command::Noop),
            0x0b => Some(Command::Version),
            0x0c => Some(Command::GetK),
            0x0d => Some(Command::GetKQ),
            0x0e => Some(Command::Append),
            0x0f => Some(Command::Prepend),
            0x10 => Some(Command::Stat),
            0x11 => Some(Command::SetQ),
            0x12 => Some(Command::AddQ),
            0x13 => Some(Command::ReplaceQ),
            0x14 => Some(Command::DeleteQ),
            0x15 => Some(Command::IncrementQ),
            0x16 => Some(Command::DecrementQ),
            0x17 => Some(Command::QuitQ),
            0x18 => Some(Command::FlushQ),
            0x19 => Some(Command::AppendQ),
            0x1a => Some(Command::PrependQ),
            0x1b => Some(Command::Verbosity),
            0x1c => Some(Command::Touch),
            0x1d => Some(Command::Gat),
            0x1e => Some(Command::GatQ),
            0x20 => Some(Command::SaslListMechs),
            0x21 => Some(Command::SaslAuth),
            0x22 => Some(Command::SaslStep),
            0x30 => Some(Command::RGet),
            0x31 => Some(Command::RSet),
            0x32 => Some(Command::RSetQ),
            0x33 => Some(Command::RAppend),
            0x34 => Some(Command::RAppendQ),
            0x35 => Some(Command::RPrepend),
            0x36 => Some(Command::RPrependQ),
            0x37 => Some(Command::RDelete),
            0x38 => Some(Command::RDeleteQ),
            0x39 => Some(Command::RIncr),
            0x3a => Some(Command::RIncrQ),
            0x3b => Some(Command::RDecr),
            0x3c => Some(Command::RDecrQ),
            0x3d => Some(Command::SetVBucket),
            0x3e => Some(Command::GetVBucket),
            0x3f => Some(Command::DelVBucket),
            0x40 => Some(Command::TapConnect),
            0x41 => Some(Command::TapMutation),
            0x42 => Some(Command::TapDelete),
            0x43 => Some(Command::TapFlush),
            0x44 => Some(Command::TapOpaque),
            0x45 => Some(Command::TapVBucketSet),
            0x46 => Some(Command::TapCheckpointStart),
            0x47 => Some(Command::TapCheckpointEnd),
            _ => None,
        }
    }

    /// The shape of the extras payload this command carries in a request.
    pub open spec fn spec_request_extras_shape(self) -> ExtrasShape {
        match self {
            Command::SetOp => ExtrasShape::SetExtras,
            Command::Add => ExtrasShape::SetExtras,
            Command::Replace => ExtrasShape::SetExtras,
            Command::SetQ => ExtrasShape::SetExtras,
            Command::AddQ => ExtrasShape::SetExtras,
            Command::ReplaceQ => ExtrasShape::SetExtras,
            Command::Increment => ExtrasShape::IncrementExtras,
            Command::Decrement => ExtrasShape::IncrementExtras,
            Command::IncrementQ => ExtrasShape::IncrementExtras,
            Command::DecrementQ => ExtrasShape::IncrementExtras,
            Command::Flush => ExtrasShape::FlushExtras,
            Command::FlushQ => ExtrasShape::FlushExtras,
            Command::Verbosity => ExtrasShape::VerbosityExtras,
            _ => ExtrasShape::NoExtras,
        }
    }

    /// Returns the shape of the extras payload this command carries in a
    /// request; commands outside the table carry none.
    pub fn request_extras_shape(&self) -> (r: ExtrasShape)
        ensures
            r == self.spec_request_extras_shape(),
    {
        match self {
            Command::SetOp => ExtrasShape::SetExtras,
            Command::Add => ExtrasShape::SetExtras,
            Command::Replace => ExtrasShape::SetExtras,
            Command::SetQ => ExtrasShape::SetExtras,
            Command::AddQ => ExtrasShape::SetExtras,
            Command::ReplaceQ => ExtrasShape::SetExtras,
            Command::Increment => ExtrasShape::IncrementExtras,
            Command::Decrement => ExtrasShape::IncrementExtras,
            Command::IncrementQ => ExtrasShape::IncrementExtras,
            Command::DecrementQ => ExtrasShape::IncrementExtras,
            Command::Flush => ExtrasShape::FlushExtras,
            Command::FlushQ => ExtrasShape::FlushExtras,
            Command::Verbosity => ExtrasShape::VerbosityExtras,
            _ => ExtrasShape::NoExtras,
        }
    }

    /// The shape of the extras payload this command carries in a response.
    pub open spec fn spec_response_extras_shape(self) -> ExtrasShape {
        match self {
            Command::Get => ExtrasShape::GetExtras,
            Command::GetQ => ExtrasShape::GetExtras,
            Command::GetK => ExtrasShape::GetExtras,
            Command::GetKQ => ExtrasShape::GetExtras,
            _ => ExtrasShape::NoExtras,
        }
    }

    /// Returns the shape of the extras payload this command carries in a
    /// response; only the Get family carries one.
    pub fn response_extras_shape(&self) -> (r: ExtrasShape)
        ensures
            r == self.spec_response_extras_shape(),
    {
        match self {
            Command::Get => ExtrasShape::GetExtras,
            Command::GetQ => ExtrasShape::GetExtras,
            Command::GetK => ExtrasShape::GetExtras,
            Command::GetKQ => ExtrasShape::GetExtras,
            _ => ExtrasShape::NoExtras,
        }
    }
}

/// Opcode table consistency: looking up a command's own opcode byte yields
/// that command back, for every command.
pub proof fn lemma_opcode_round_trip(c: Command)
    ensures
        Command::spec_from_u8(c.spec_value()) == Some(c),
{
}

impl Default for Command {
    /// The default command is `Get`, the opcode-zero command.
    fn default() -> (r: Self)
        ensures
            r == Command::Get,
    {
        Command::Get
    }
}

} // verus!
