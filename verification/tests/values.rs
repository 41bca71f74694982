use rust_moysklad::json::{Double, Json, ToJson};
use rust_moysklad::values::{Moment, Uuid, DATE_FORMAT};

#[test]
fn uuid_hyphenated_text() {
    let id = Uuid::from_u128(0xa1a2a3a4b1b2c1c2d1d2d3d4d5d6d7d8);
    assert_eq!(id.to_string(), "a1a2a3a4-b1b2-c1c2-d1d2-d3d4d5d6d7d8");
}

#[test]
fn uuid_nil_text() {
    assert_eq!(Uuid::default().to_string(), "00000000-0000-0000-0000-000000000000");
    assert_eq!(Uuid::from_u128(0).as_u128(), 0);
}

#[test]
fn uuid_max_text() {
    assert_eq!(Uuid::from_u128(u128::MAX).to_string(), "ffffffff-ffff-ffff-ffff-ffffffffffff");
}

#[test]
fn uuid_least_significant_digit_comes_last() {
    assert_eq!(Uuid::from_u128(0x1f).to_string(), "00000000-0000-0000-0000-00000000001f");
}

#[test]
fn uuid_keeps_its_number() {
    let id = Uuid::from_u128(0x936da01f9abd4d9d80c702af85c822a8);
    assert_eq!(id.as_u128(), 0x936da01f9abd4d9d80c702af85c822a8);
    assert_eq!(id.to_string(), "936da01f-9abd-4d9d-80c7-02af85c822a8");
}

#[test]
fn uuid_json_is_its_text() {
    let id = Uuid::from_u128(0x936da01f9abd4d9d80c702af85c822a8);
    assert_eq!(id.to_json(), Json::Str("936da01f-9abd-4d9d-80c7-02af85c822a8".to_string()));
}

#[test]
fn date_format() {
    assert_eq!(DATE_FORMAT, "%Y-%m-%d %H:%M:%S%.3f");
}

#[test]
fn moment_parse_with_milliseconds() {
    let moment = Moment::parse("2023-01-02 03:04:05.678").expect("a moment in the service's format");
    assert_eq!(moment, Moment { seconds: 1672628645, nanos: 678_000_000 });
}

#[test]
fn moment_parse_epoch() {
    let moment = Moment::parse("1970-01-01 00:00:00.000").expect("the epoch");
    assert_eq!(moment, Moment { seconds: 0, nanos: 0 });
}

#[test]
fn moment_parse_before_epoch() {
    let moment = Moment::parse("1969-12-31 23:59:59.000").expect("the second before the epoch");
    assert_eq!(moment, Moment { seconds: -1, nanos: 0 });
}

#[test]
fn moment_parse_refuses_other_formats() {
    assert!(Moment::parse("2023-01-02T03:04:05").is_err());
    assert!(Moment::parse("").is_err());
    assert!(Moment::parse("yesterday").is_err());
    assert!(Moment::parse("2023-13-02 03:04:05.000").is_err());
}

#[test]
fn moment_from_parsed() {
    assert_eq!(Moment::from_parsed(Ok((5, 6))), Ok(Moment { seconds: 5, nanos: 6 }));
    assert_eq!(
        Moment::from_parsed(Err("input contains invalid characters".to_string())),
        Err("input contains invalid characters".to_string())
    );
}

#[test]
fn moment_text() {
    let moment = Moment { seconds: 1672628645, nanos: 678_000_000 };
    assert_eq!(moment.to_text(), Some("2023-01-02T03:04:05.678".to_string()));
    assert_eq!(Moment { seconds: 0, nanos: 0 }.to_text(), Some("1970-01-01T00:00:00".to_string()));
}

#[test]
fn moment_text_out_of_range() {
    assert_eq!(Moment { seconds: i64::MAX, nanos: 0 }.to_text(), None);
    assert_eq!(Moment { seconds: 0, nanos: u32::MAX }.to_text(), None);
}

#[test]
fn moment_json() {
    let moment = Moment { seconds: 1672628645, nanos: 0 };
    assert_eq!(moment.to_json(), Json::Str("2023-01-02T03:04:05".to_string()));
    assert_eq!(Moment { seconds: i64::MAX, nanos: 0 }.to_json(), Json::Null);
}

#[test]
fn moment_round_trip() {
    let parsed = Moment::parse("2015-06-30 23:59:59.500").expect("a moment");
    assert_eq!(parsed, Moment { seconds: 1435708799, nanos: 500_000_000 });
    assert_eq!(parsed.to_text(), Some("2015-06-30T23:59:59.500".to_string()));
}

#[test]
fn double_keeps_its_bits() {
    let d = Double::from_bits(12.5f64.to_bits());
    assert_eq!(d.to_bits(), 12.5f64.to_bits());
    assert_eq!(f64::from_bits(d.to_bits()), 12.5);
    assert_eq!(d.to_json(), Json::Real(Double { bits: 12.5f64.to_bits() }));
}

#[test]
fn text_document_of_a_text_or_none() {
    assert_eq!(
        rust_moysklad::values::text_document(Some("x".to_string())),
        Json::Str("x".to_string())
    );
    assert_eq!(rust_moysklad::values::text_document(None), Json::Null);
}
