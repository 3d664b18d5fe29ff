use memcache_proto::extras::{Extras, Flush, Verbosity};

#[test]
fn flush_expiration_bytes() {
    let extra = Flush::new(3600);
    assert_eq!(&3600, extra.expiration());
    let raw = extra.encode();
    assert_eq!([0x00, 0x00, 0x0e, 0x10], raw[..]);
    let back = Flush::decode(&raw);
    assert_eq!(&3600, back.expiration());
}

#[test]
fn flush_expiration_mut() {
    let mut extra = Flush::new(0);
    *extra.expiration_mut() = 360;
    assert_eq!(&360, extra.expiration());
}

#[test]
fn verbosity_level_bytes() {
    let extra = Verbosity::new(2);
    assert_eq!(&2, extra.verbosity());
    let raw = extra.encode();
    assert_eq!([0x00, 0x00, 0x00, 0x02], raw[..]);
    let back = Verbosity::decode(&raw);
    assert_eq!(&2, back.verbosity());
}

#[test]
fn verbosity_level_mut() {
    let mut extra = Verbosity::new(0);
    *extra.verbosity_mut() = 9;
    assert_eq!(&9, extra.verbosity());
}
