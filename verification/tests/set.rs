use memcache_proto::extras::{Extras, SetExtras};

#[test]
fn set_test_blank() {
    let extra = SetExtras::default();
    let raw = extra.encode();
    assert_eq!(0, extra.flags());
    assert_eq!(0, extra.expiration());
    assert_eq!(&[0; 8][..], &raw);
}

#[test]
fn set_test_flags() {
    let extra = SetExtras::build().flags(0xdeadbeef).finish();
    let raw = extra.encode();
    assert_eq!(0xdeadbeef, extra.flags());
    assert_eq!(0, extra.expiration());
    assert_eq!([0xde, 0xad, 0xbe, 0xef], raw[0..4]);
    assert_eq!([0x00, 0x00, 0x00, 0x00], raw[4..8]);
}

#[test]
fn set_test_expiration() {
    let extra = SetExtras::build().expiration(360).finish();
    let raw = extra.encode();
    assert_eq!(0, extra.flags());
    assert_eq!(360, extra.expiration());
    assert_eq!([0x00, 0x00, 0x00, 0x00], raw[0..4]);
    assert_eq!([0x00, 0x00, 0x01, 0x68], raw[4..8]);
}

#[test]
fn set_decode_example() {
    // A Set-family payload with flags 0xdeadbeef and expiration 7200 decodes
    // back from its documented wire bytes.
    let raw: Vec<u8> = vec![0xde, 0xad, 0xbe, 0xef, 0x00, 0x00, 0x1c, 0x20];
    let extra = SetExtras::decode(&raw);
    assert_eq!(0xdeadbeef, extra.flags());
    assert_eq!(7200, extra.expiration());
}
