use std::time::{SystemTime, UNIX_EPOCH};

use memcache_proto::extras::{to_wire_expiration, MAX_SECONDS};

fn now_seconds() -> u64 {
    SystemTime::now().duration_since(UNIX_EPOCH).unwrap().as_secs()
}

#[test]
fn test_conversion_small() {
    assert_eq!(3600u32, to_wire_expiration(3600, now_seconds()));
}

#[test]
fn test_conversion_equal_to_limit() {
    let limit: u32 = MAX_SECONDS;
    assert_eq!(limit, to_wire_expiration(limit, now_seconds()));
}

#[test]
fn test_conversion_into_timestamp() {
    let value = MAX_SECONDS + 1;
    let now = now_seconds();
    let expected = (now + value as u64) as u32;
    assert_eq!(expected, to_wire_expiration(value, now));
}

#[test]
fn test_zero_never_expires() {
    assert_eq!(0, to_wire_expiration(0, 1_700_000_000));
}

#[test]
fn test_timestamp_truncates_to_32_bits() {
    // A clock far enough in the future that now + value crosses 2^32.
    let now: u64 = 0xffff_ffff;
    let value = MAX_SECONDS + 1;
    let expected = ((now + value as u64) % 0x1_0000_0000) as u32;
    assert_eq!(expected, to_wire_expiration(value, now));
}
