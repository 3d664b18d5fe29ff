use memcache_proto::extras::{Extras, Increment};

#[test]
fn incr_test_blank() {
    let extra = Increment::default();
    let raw = extra.encode();
    assert_eq!(0, extra.amount());
    assert_eq!([0; 8], raw[0..8]);
    assert_eq!(0, extra.initial());
    assert_eq!([0; 8], raw[8..16]);
    assert_eq!(0, extra.expiration());
    assert_eq!([0; 4], raw[16..20]);
}

#[test]
fn incr_test_flags() {
    let extra = Increment::build().amount(1).finish();
    let raw = extra.encode();
    assert_eq!(1, extra.amount());
    assert_eq!([0x00, 0x00, 0x00, 0x00, 0x00, 0x00, 0x00, 0x01], raw[0..8]);
    assert_eq!(0, extra.initial());
    assert_eq!([0x00, 0x00, 0x00, 0x00, 0x00, 0x00, 0x00, 0x00], raw[8..16]);
    assert_eq!(0, extra.expiration());
    assert_eq!([0x00, 0x00, 0x00, 0x00], raw[16..20]);
}

#[test]
fn test_initial() {
    let extra = Increment::build().initial(42).finish();
    let raw = extra.encode();
    assert_eq!(0, extra.amount());
    assert_eq!([0x00, 0x00, 0x00, 0x00, 0x00, 0x00, 0x00, 0x00], raw[0..8]);
    assert_eq!(42, extra.initial());
    assert_eq!([0x00, 0x00, 0x00, 0x00, 0x00, 0x00, 0x00, 0x2a], raw[8..16]);
    assert_eq!(0, extra.expiration());
    assert_eq!([0x00, 0x00, 0x00, 0x00], raw[16..20]);
}

#[test]
fn incr_test_expiration() {
    let extra = Increment::build().expiration(360).finish();
    let raw = extra.encode();
    assert_eq!(0, extra.amount());
    assert_eq!([0x00, 0x00, 0x00, 0x00, 0x00, 0x00, 0x00, 0x00], raw[0..8]);
    assert_eq!(0, extra.initial());
    assert_eq!([0x00, 0x00, 0x00, 0x00, 0x00, 0x00, 0x00, 0x00], raw[8..16]);
    assert_eq!(360, extra.expiration());
    assert_eq!([0x00, 0x00, 0x01, 0x68], raw[16..20]);
}

#[test]
fn incr_decode_round_trip() {
    let extra = Increment::new(10, 7, 3600);
    let raw = extra.encode();
    assert_eq!(20, raw.len());
    let back = Increment::decode(&raw);
    assert_eq!(10, back.amount());
    assert_eq!(7, back.initial());
    assert_eq!(3600, back.expiration());
}

#[test]
fn incr_accessors() {
    let mut extra = Increment::new(0, 0, 0);
    extra.set_amount(5);
    extra.set_initial(6);
    extra.set_expiration(7);
    assert_eq!(5, extra.amount());
    assert_eq!(6, extra.initial());
    assert_eq!(7, extra.expiration());
    *extra.amount_mut() = 42;
    *extra.initial_mut() = 43;
    *extra.expiration_mut() = 44;
    assert_eq!(42, extra.amount());
    assert_eq!(43, extra.initial());
    assert_eq!(44, extra.expiration());
}
