use memcache_proto::command::Command;
use memcache_proto::errors::ResponseError;
use memcache_proto::magic::Magic;
use memcache_proto::response::{Response, Status};

/// A valid 24-byte response header: Get opcode, status NoError, and the given
/// declared body layout, followed by `body`.
fn response_bytes(extras_len: u8, key_len: u16, body_len: u32, body: &[u8]) -> Vec<u8> {
    let mut out = vec![0x81, 0x00];
    out.extend_from_slice(&key_len.to_be_bytes());
    out.push(extras_len);
    out.push(0x00);
    out.extend_from_slice(&0u16.to_be_bytes());
    out.extend_from_slice(&body_len.to_be_bytes());
    out.extend_from_slice(&0xdddd_eeeeu32.to_be_bytes());
    out.extend_from_slice(&7u64.to_be_bytes());
    out.extend_from_slice(body);
    out
}

#[test]
fn read_short_header_is_incomplete() {
    let buf = vec![0x81, 0x00, 0x00];
    assert!(matches!(Response::read(&buf), Ok(None)));
}

#[test]
fn read_partial_body_stays_incomplete() {
    // A valid header declares body_length = 10 but only 5 body bytes arrived:
    // Incomplete, and still Incomplete on every repeated attempt.
    let buf = response_bytes(0, 0, 10, &[1, 2, 3, 4, 5]);
    for _ in 0..4 {
        assert!(matches!(Response::read(&buf), Ok(None)));
    }
}

#[test]
fn read_exact_frame_is_complete() {
    let body = [0u8; 10];
    let buf = response_bytes(0, 0, 10, &body);
    assert_eq!(34, buf.len());
    let response = Response::read(&buf).unwrap().unwrap();
    assert_eq!(34, response.len());
    assert_eq!(&Magic::Response, response.magic());
    assert_eq!(&Command::Get, response.command());
    assert_eq!(&Status::NoError, response.status());
    assert_eq!(&0xdddd_eeee, response.opaque());
    assert_eq!(&7, response.cas());
    assert!(response.is_ok());
    assert!(!response.is_err());
}

#[test]
fn read_with_trailing_bytes_is_complete() {
    let mut buf = response_bytes(0, 0, 2, &[9, 8]);
    buf.extend_from_slice(&[0x55, 0x66, 0x77]);
    let response = Response::read(&buf).unwrap().unwrap();
    // consumed length covers exactly the frame, not the trailing bytes
    assert_eq!(26, response.len());
    assert_eq!(Some(&[9u8, 8u8][..]), response.value());
}

#[test]
fn read_slices_body_into_views() {
    // extras = 4 bytes, key = 5 bytes, value = the remaining 5.
    let mut body = vec![0xde, 0xad, 0xbe, 0xef];
    body.extend_from_slice(b"Hello");
    body.extend_from_slice(b"World");
    let buf = response_bytes(4, 5, 14, &body);
    let response = Response::read(&buf).unwrap().unwrap();
    assert_eq!(Some(&[0xde, 0xad, 0xbe, 0xef][..]), response.extras());
    assert_eq!(Some(&b"Hello"[..]), response.key());
    assert_eq!(Some(&b"World"[..]), response.value());
}

#[test]
fn read_zero_length_views_are_absent() {
    let buf = response_bytes(0, 0, 0, &[]);
    let response = Response::read(&buf).unwrap().unwrap();
    assert_eq!(None, response.extras());
    assert_eq!(None, response.key());
    assert_eq!(None, response.value());
}

#[test]
fn read_rejects_unknown_magic() {
    // A request magic is not a response magic.
    let mut buf = response_bytes(0, 0, 0, &[]);
    buf[0] = 0x80;
    assert_eq!(Err(ResponseError::UnknownMagic), Response::read(&buf));
    buf[0] = 0x13;
    assert_eq!(Err(ResponseError::UnknownMagic), Response::read(&buf));
}

#[test]
fn read_rejects_unknown_command() {
    let mut buf = response_bytes(0, 0, 0, &[]);
    buf[1] = 0x1f; // a gap in the opcode table
    assert_eq!(Err(ResponseError::UnknownCommand), Response::read(&buf));
}

#[test]
fn read_rejects_unknown_data_type() {
    let mut buf = response_bytes(0, 0, 0, &[]);
    buf[5] = 0x01;
    assert_eq!(Err(ResponseError::UnknownDataType), Response::read(&buf));
}

#[test]
fn read_rejects_unknown_status() {
    let mut buf = response_bytes(0, 0, 0, &[]);
    buf[7] = 0x42;
    assert_eq!(Err(ResponseError::UnknownStatus), Response::read(&buf));
}

#[test]
fn error_statuses_are_not_ok() {
    let mut buf = response_bytes(0, 0, 0, &[]);
    buf[7] = 0x01; // KeyNotFound
    let response = Response::read(&buf).unwrap().unwrap();
    assert_eq!(&Status::KeyNotFound, response.status());
    assert!(!response.is_ok());
    assert!(response.is_err());
}

#[test]
fn status_codes_round_trip() {
    let all = [
        Status::NoError,
        Status::KeyNotFound,
        Status::KeyExists,
        Status::ValueTooLarge,
        Status::InvalidArguments,
        Status::ItemNotStored,
        Status::IncrDecrOnNonNumericValue,
        Status::VBucketBelongsToAnotherServer,
        Status::AuthenticationError,
        Status::AuthenticationContinue,
        Status::UnknownCommand,
        Status::OutOfMemory,
        Status::NotSupported,
        Status::InternalError,
        Status::Busy,
        Status::TemporaryFailure,
    ];
    for status in all {
        assert_eq!(Some(status), Status::from_u16(status.value()));
    }
    assert_eq!(0x0086, Status::TemporaryFailure.value());
    assert_eq!(None, Status::from_u16(0x0042));
}

#[test]
fn command_opcodes_round_trip() {
    for opcode in 0x00u8..=0x47u8 {
        match Command::from_u8(opcode) {
            Some(command) => assert_eq!(opcode, command.value()),
            None => assert!((0x1f..0x20).contains(&opcode) || (0x23..0x30).contains(&opcode)),
        }
    }
    assert_eq!(Some(Command::SetOp), Command::from_u8(0x01));
    assert_eq!(Some(Command::TapCheckpointEnd), Command::from_u8(0x47));
    assert_eq!(None, Command::from_u8(0x48));
}
