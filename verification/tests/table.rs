use memcache_proto::command::{Command, ExtrasShape};
use memcache_proto::extras::{Expiration, MAX_SECONDS};
use memcache_proto::data_type::DataType;
use memcache_proto::magic::Magic;

#[test]
fn request_extras_shapes() {
    assert_eq!(ExtrasShape::NoExtras, Command::Get.request_extras_shape());
    assert_eq!(ExtrasShape::SetExtras, Command::SetOp.request_extras_shape());
    assert_eq!(ExtrasShape::SetExtras, Command::Add.request_extras_shape());
    assert_eq!(ExtrasShape::SetExtras, Command::ReplaceQ.request_extras_shape());
    assert_eq!(ExtrasShape::IncrementExtras, Command::Increment.request_extras_shape());
    assert_eq!(ExtrasShape::IncrementExtras, Command::DecrementQ.request_extras_shape());
    assert_eq!(ExtrasShape::FlushExtras, Command::Flush.request_extras_shape());
    assert_eq!(ExtrasShape::FlushExtras, Command::FlushQ.request_extras_shape());
    assert_eq!(ExtrasShape::VerbosityExtras, Command::Verbosity.request_extras_shape());
    // commands with no modeled payload carry no extras
    assert_eq!(ExtrasShape::NoExtras, Command::Touch.request_extras_shape());
    assert_eq!(ExtrasShape::NoExtras, Command::SaslAuth.request_extras_shape());
    assert_eq!(ExtrasShape::NoExtras, Command::TapConnect.request_extras_shape());
}

#[test]
fn response_extras_shapes() {
    assert_eq!(ExtrasShape::GetExtras, Command::Get.response_extras_shape());
    assert_eq!(ExtrasShape::GetExtras, Command::GetQ.response_extras_shape());
    assert_eq!(ExtrasShape::GetExtras, Command::GetK.response_extras_shape());
    assert_eq!(ExtrasShape::GetExtras, Command::GetKQ.response_extras_shape());
    assert_eq!(ExtrasShape::NoExtras, Command::SetOp.response_extras_shape());
    assert_eq!(ExtrasShape::NoExtras, Command::Stat.response_extras_shape());
}

#[test]
fn shape_sizes() {
    assert_eq!(0, ExtrasShape::NoExtras.size());
    assert_eq!(4, ExtrasShape::GetExtras.size());
    assert_eq!(8, ExtrasShape::SetExtras.size());
    assert_eq!(20, ExtrasShape::IncrementExtras.size());
    assert_eq!(4, ExtrasShape::FlushExtras.size());
    assert_eq!(4, ExtrasShape::VerbosityExtras.size());
}

#[test]
fn magic_and_data_type_bytes() {
    assert_eq!(0x80, Magic::Request.value());
    assert_eq!(0x81, Magic::Response.value());
    assert_eq!(Some(Magic::Request), Magic::from_u8(0x80));
    assert_eq!(Some(Magic::Response), Magic::from_u8(0x81));
    assert_eq!(None, Magic::from_u8(0x82));
    assert_eq!(0x00, DataType::RawBytes.value());
    assert_eq!(Some(DataType::RawBytes), DataType::from_u8(0x00));
    assert_eq!(None, DataType::from_u8(0x01));
}

#[test]
fn expiration_sources() {
    assert_eq!(60, 60u8.as_expiration());
    assert_eq!(600, 600u16.as_expiration());
    assert_eq!(3600, 3600u32.as_expiration());
    let now: u64 = 1_700_000_000;
    assert_eq!(255, 255u8.get_timeout(now));
    assert_eq!(MAX_SECONDS, MAX_SECONDS.get_timeout(now));
    assert_eq!(
        ((now + (MAX_SECONDS + 1) as u64) % 0x1_0000_0000) as u32,
        (MAX_SECONDS + 1).get_timeout(now)
    );
}
