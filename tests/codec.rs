use chrono::{DateTime, TimeZone, Utc};
use iex::iextp::codec::{
    decode_ascii_trimmed, decode_event_time, decode_price, decode_system_timestamp, decode_u32,
    decode_u64,
};
use iex::iextp::{DecodeError, FixedPrice, Timestamp};

fn instant(t: DateTime<Utc>) -> Timestamp {
    Timestamp::new(t.timestamp(), t.timestamp_subsec_nanos())
}

fn dollars(p: FixedPrice) -> f64 {
    (p.scaled as f64) / 10000.00
}

#[test]
fn parse_string() {
    // ZIEXT
    let symbol_literal = &[0x5a, 0x49, 0x45, 0x58, 0x54, 0x20, 0x20, 0x20];
    let parsed: String = decode_ascii_trimmed(symbol_literal).iter().collect();
    assert_eq!(String::from("ZIEXT"), parsed);
}

#[test]
fn parse_price() {
    // 99.05
    let price_literal = &[0x24, 0x1d, 0x0f, 0x00, 0x00, 0x00, 0x00, 0x00];
    let price = decode_price(price_literal).unwrap();
    assert_eq!(FixedPrice::from_scaled(990500), price);
    assert_eq!(99.05, dollars(price));
}

#[test]
fn parse_timestamp_secs() {
    // 2017-04-17 17:00:00
    let time_literal = &[0x00, 0xa0, 0x99, 0x97, 0xe9, 0x3d, 0xb6, 0x14];
    let date_expected = instant(Utc.ymd(2017, 04, 17).and_hms(17, 0, 0));
    assert_eq!(Ok(date_expected), decode_system_timestamp(time_literal));
}

#[test]
fn parse_timestamp_nsecs() {
    // 2016-08-23 15:30:32.572715948;
    let time_literal = &[0xac, 0x63, 0xc0, 0x20, 0x96, 0x86, 0x6d, 0x14];
    let date_expected = instant(Utc.ymd(2016, 08, 23).and_hms_nano(19, 30, 32, 572_715_948));
    assert_eq!(Ok(date_expected), decode_system_timestamp(time_literal));
}

#[test]
fn parse_event_time() {
    // 2017-04-17 16:00:00
    let time_literal = &[0x80, 0xe6, 0xf4, 0x58];
    let expected = instant(Utc.ymd(2017, 4, 17).and_hms(16, 0, 0));
    assert_eq!(Ok(expected), decode_event_time(time_literal));
}

#[test]
fn timestamp_splits_seconds_and_nanoseconds() {
    let t = decode_system_timestamp(&[0xac, 0x63, 0xc0, 0x20, 0x96, 0x86, 0x6d, 0x14]).unwrap();
    assert_eq!(t, Timestamp::new(1_471_980_632, 572_715_948));
    let max = decode_system_timestamp(&[0xff; 8]).unwrap();
    assert_eq!(max, Timestamp::new(18_446_744_073, 709_551_615));
    assert_eq!(decode_event_time(&[0xff; 4]).unwrap(), Timestamp::new(4_294_967_295, 0));
}

#[test]
fn ascii_drops_every_space() {
    let parsed = decode_ascii_trimmed(&[0x20, 0x41, 0x20, 0x42, 0x20]);
    assert_eq!(parsed, vec!['A', 'B']);
    assert_eq!(decode_ascii_trimmed(&[0x20; 8]), Vec::<char>::new());
    assert_eq!(decode_ascii_trimmed(&[]), Vec::<char>::new());
    assert_eq!(decode_ascii_trimmed(&[0xe9]), vec!['\u{e9}']);
}

#[test]
fn little_endian_integers() {
    assert_eq!(decode_u32(&[0xe4, 0x25, 0x00, 0x00]), Ok(9700));
    assert_eq!(decode_u32(&[0x01, 0x02, 0x03, 0x04, 0xff]), Ok(0x0403_0201));
    assert_eq!(decode_u32(&[0xff; 4]), Ok(u32::MAX));
    assert_eq!(decode_u32(&[0x01, 0x02, 0x03]), Err(DecodeError::TruncatedBuffer));
    assert_eq!(
        decode_u64(&[0x96, 0x8f, 0x06, 0x00, 0x00, 0x00, 0x00, 0x00]),
        Ok(429_974)
    );
    assert_eq!(decode_u64(&[0xff; 8]), Ok(u64::MAX));
    assert_eq!(decode_u64(&[0xff; 7]), Err(DecodeError::TruncatedBuffer));
}

#[test]
fn price_field_is_exactly_eight_bytes() {
    assert_eq!(decode_price(&[0x24, 0x1d, 0x0f]), Err(DecodeError::TruncatedBuffer));
    assert_eq!(decode_price(&[0u8; 9]), Err(DecodeError::TruncatedBuffer));
    assert_eq!(decode_price(&[0xff; 8]), Ok(FixedPrice::from_scaled(-1)));
    assert_eq!(
        decode_price(&[0, 0, 0, 0, 0, 0, 0, 0x80]),
        Ok(FixedPrice::from_scaled(i64::MIN))
    );
}

#[test]
fn short_time_fields_are_truncated() {
    assert_eq!(decode_system_timestamp(&[0u8; 7]), Err(DecodeError::TruncatedBuffer));
    assert_eq!(decode_event_time(&[0u8; 3]), Err(DecodeError::TruncatedBuffer));
}
