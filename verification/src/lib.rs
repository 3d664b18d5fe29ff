//! Codec for the memcached binary wire protocol.
//!
//! The crate turns structured in-memory values (command, key, value, flags,
//! expiration, CAS token) into the exact byte layout the protocol mandates,
//! and turns received byte streams back into structured values, including
//! partial-frame detection for streaming transports. It opens no sockets and
//! manages no connections: transports feed raw byte buffers in and drain
//! serialized byte buffers out.

pub mod command;
pub mod data_type;
pub mod errors;
pub mod extras;
pub mod magic;
pub mod request;
pub mod response;
pub mod wire;

pub use command::Command;
pub use data_type::DataType;
pub use errors::EncodeError;
pub use errors::ResponseError;
pub use magic::Magic;
pub use request::Request;
pub use response::Response;
pub use response::Status;
