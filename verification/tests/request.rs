use memcache_proto::command::Command;
use memcache_proto::errors::EncodeError;
use memcache_proto::extras::SetExtras;
use memcache_proto::request::Request;

#[test]
fn encode_get_request_example() {
    // A Get request with key "Hello" and nothing else produces exactly the
    // documented 29 bytes: a 24-byte header followed by the key.
    let mut request = Request::new(Command::Get);
    request.set_key(b"Hello");
    let mut out: Vec<u8> = Vec::new();
    request.write(&mut out).unwrap();
    let expected: Vec<u8> = vec![
        0x80, 0x00, 0x00, 0x05, 0x00, 0x00, 0x00, 0x00, 0x00, 0x00, 0x00, 0x05, 0x00, 0x00, 0x00,
        0x00, 0x00, 0x00, 0x00, 0x00, 0x00, 0x00, 0x00, 0x00, 0x48, 0x65, 0x6c, 0x6c, 0x6f,
    ];
    assert_eq!(expected, out);
    assert_eq!(29, request.len());
}

#[test]
fn encode_set_request_header_invariant() {
    // body_length (header bytes 8..12) equals extras + key + value lengths.
    let mut request = Request::new(Command::SetOp);
    request.set_extras(&SetExtras::new(0xdeadbeef, 3600));
    request.set_key(b"Hello");
    request.set_value(b"World");
    let mut out: Vec<u8> = Vec::new();
    request.write(&mut out).unwrap();
    assert_eq!(24 + 8 + 5 + 5, out.len());
    assert_eq!(request.len(), out.len());
    let body_length = u32::from_be_bytes([out[8], out[9], out[10], out[11]]);
    assert_eq!(8 + 5 + 5, body_length);
    assert_eq!(8, out[4]); // extras length
    assert_eq!(5, u16::from_be_bytes([out[2], out[3]])); // key length
    assert_eq!(0x01, out[1]); // Set opcode
    // body order: extras, then key, then value
    assert_eq!([0xde, 0xad, 0xbe, 0xef], out[24..28]);
    assert_eq!(b"Hello"[..], out[32..37]);
    assert_eq!(b"World"[..], out[37..42]);
}

#[test]
fn encode_header_fields() {
    let mut request = Request::new(Command::Delete);
    request.set_key(b"k");
    request.set_vbucket_id(5u16);
    request.set_cas(10u64);
    let mut out: Vec<u8> = Vec::new();
    request.write(&mut out).unwrap();
    assert_eq!(0x04, out[1]);
    assert_eq!(5, u16::from_be_bytes([out[6], out[7]]));
    assert_eq!(10, u64::from_be_bytes([
        out[16], out[17], out[18], out[19], out[20], out[21], out[22], out[23],
    ]));
}

#[test]
fn encode_key_too_long() {
    let mut request = Request::new(Command::Get);
    let key = vec![0u8; 65536];
    request.set_key(&key);
    let mut out: Vec<u8> = Vec::new();
    assert_eq!(Err(EncodeError::KeyTooLong), request.write(&mut out));
    assert!(out.is_empty());
}

#[test]
fn encode_extras_too_long() {
    let mut request = Request::new(Command::Get);
    request.extras = Some(vec![0u8; 256]);
    let mut out: Vec<u8> = Vec::new();
    assert_eq!(Err(EncodeError::ExtrasTooLong), request.write(&mut out));
    assert!(out.is_empty());
}

#[test]
fn builder_assembles_request() {
    let request = Request::build()
        .command(Command::SetOp)
        .vbucket_id(3)
        .opaque(0xabcd)
        .cas(1024)
        .extras(Some(SetExtras::new(1, 2)))
        .key(Some(b"hello".to_vec()))
        .value(Some(b"world".to_vec()))
        .finish();
    let mut out: Vec<u8> = Vec::new();
    request.write(&mut out).unwrap();
    assert_eq!(0x01, out[1]);
    assert_eq!(3, u16::from_be_bytes([out[6], out[7]]));
    assert_eq!(0xabcd, u32::from_be_bytes([out[12], out[13], out[14], out[15]]));
    assert_eq!(1024, u64::from_be_bytes([
        out[16], out[17], out[18], out[19], out[20], out[21], out[22], out[23],
    ]));
    assert_eq!(8 + 5 + 5, u32::from_be_bytes([out[8], out[9], out[10], out[11]]));
}

#[test]
fn accessors_read_and_write_fields() {
    let mut request = Request::new(Command::SetOp);
    assert_eq!(&Command::SetOp, request.command());
    assert_eq!(&0, request.vbucket_id());
    assert_eq!(&0, request.opaque());
    assert_eq!(&0, request.cas());
    assert!(request.extras().is_none());
    assert!(request.key().is_none());
    assert!(request.value().is_none());

    *request.command_mut() = Command::Get;
    *request.vbucket_id_mut() = 5;
    *request.opaque_mut() = 6;
    *request.cas_mut() = 42;
    *request.key_mut() = Some(b"hello".to_vec());
    *request.value_mut() = Some(b"world".to_vec());
    *request.extras_mut() = Some(vec![1, 2, 3, 4]);
    assert_eq!(&Command::Get, request.command());
    assert_eq!(&5, request.vbucket_id());
    assert_eq!(&6, request.opaque());
    assert_eq!(&42, request.cas());
    assert_eq!(Some(b"hello".to_vec()), *request.key());
    assert_eq!(Some(b"world".to_vec()), *request.value());
    assert_eq!(Some(vec![1, 2, 3, 4]), *request.extras());
}

#[test]
fn len_reports_serialized_size() {
    let request = Request::new(Command::Noop);
    assert_eq!(24, request.len());
    let mut request = Request::new(Command::Version);
    request.set_value(b"abc");
    assert_eq!(27, request.len());
}
