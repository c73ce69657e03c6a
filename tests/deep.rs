use chrono::{DateTime, TimeZone, Utc};
use iex::iextp::deep::{Message, PriceLevelUpdate, PriceLevelUpdateType, SecurityEvent, SecurityEventType};
use iex::iextp::{FixedPrice, Timestamp, Unmarshal};

// Type tags of the DEEP message blocks.
const SECURITY_EVENT: u8 = 0x45;
const PRICE_LEVEL_UPDATE_BUY_SIDE: u8 = 0x38;
const PRICE_LEVEL_UPDATE_SELL_SIDE: u8 = 0x35;

fn ziext() -> Vec<char> {
    ['Z', 'I', 'E', 'X', 'T'].to_vec()
}

fn instant(t: DateTime<Utc>) -> Timestamp {
    Timestamp::new(t.timestamp(), t.timestamp_subsec_nanos())
}

fn price(v: f64) -> FixedPrice {
    FixedPrice::from_scaled((v * 10000.0).round() as i64)
}

fn dollars(p: FixedPrice) -> f64 {
    (p.scaled as f64) / 10000.00
}

#[test]
fn security_event() {
    let data = [
        // E = Security Event
        0x45,
        // O = Opening Process Complete
        0x4f,
        // 2017-04-17 09:30:00
        0x00, 0xf0, 0x30, 0x2a, 0x5b, 0x25, 0xb6, 0x14,
        // ZIEXT
        0x5a, 0x49, 0x45, 0x58, 0x54, 0x20, 0x20, 0x20,
    ];

    let expected = SecurityEvent {
        message_type: SECURITY_EVENT,
        security_event: 0x4f,
        timestamp: instant(Utc.ymd(2017, 04, 17).and_hms(9, 30, 0)),
        symbol: ziext(),
    };

    match Message::unmarshal(&data) {
        Ok(Message::SecurityEvent(event)) => {
            assert_eq!(event, expected);
        },
        got => panic!("\nexpected: {:?}, got: {:?}", expected, got),
    };
}

#[test]
fn price_level_update_buy_side() {
    let data = [
        // Price level update on the Buy Side
        0x38,
        // Event processing complete
        0x01,
        // 2016-08-23 19:30:32.572715948
        0xac, 0x63, 0xc0, 0x20, 0x96, 0x86, 0x6d, 0x14,
        // ZIEXT
        0x5a, 0x49, 0x45, 0x58, 0x54, 0x20, 0x20, 0x20,
        // 9,700 shares
        0xe4, 0x25, 0x00, 0x00,
        // $99.05
        0x24, 0x1d, 0x0f, 0x00, 0x00, 0x00, 0x00, 0x00,
    ];

    let expected = PriceLevelUpdate {
        message_type: PRICE_LEVEL_UPDATE_BUY_SIDE,
        event_flags: 1,
        timestamp: instant(Utc.ymd(2016, 8, 23).and_hms_nano(19, 30, 32, 572715948)),
        symbol: ziext(),
        size: 9700,
        price: price(99.05),
    };

    match Message::unmarshal(&data) {
        Ok(Message::PriceLevelUpdate(update)) => {
            assert_eq!(99.05, dollars(update.price));
            assert_eq!(update, expected);
        },
        got => panic!("\nexpected: {:?}, got: {:?}", expected, got),
    };
}

#[test]
fn price_level_update_sell_side() {
    let data = [
        // Price level update on the Sell Side
        0x35,
        // Event processing complete
        0x01,
        // 2016-08-23 19:30:32.572715948
        0xac, 0x63, 0xc0, 0x20, 0x96, 0x86, 0x6d, 0x14,
        // ZIEXT
        0x5a, 0x49, 0x45, 0x58, 0x54, 0x20, 0x20, 0x20,
        // 9,700 shares
        0xe4, 0x25, 0x00, 0x00,
        // $99.05
        0x24, 0x1d, 0x0f, 0x00, 0x00, 0x00, 0x00, 0x00,
    ];

    let expected = PriceLevelUpdate {
        message_type: PRICE_LEVEL_UPDATE_SELL_SIDE,
        event_flags: 1,
        timestamp: instant(Utc.ymd(2016, 8, 23).and_hms_nano(19, 30, 32, 572715948)),
        symbol: ziext(),
        size: 9700,
        price: price(99.05),
    };

    match Message::unmarshal(&data) {
        Ok(Message::PriceLevelUpdate(update)) => {
            assert_eq!(99.05, dollars(update.price));
            assert_eq!(update, expected);
        },
        got => panic!("\nexpected: {:?}, got: {:?}", expected, got),
    };
}

const BUY: [u8; 30] = [
    0x38, 0x01, 0xac, 0x63, 0xc0, 0x20, 0x96, 0x86, 0x6d, 0x14, 0x5a, 0x49, 0x45, 0x58, 0x54,
    0x20, 0x20, 0x20, 0xe4, 0x25, 0x00, 0x00, 0x24, 0x1d, 0x0f, 0x00, 0x00, 0x00, 0x00, 0x00,
];

#[test]
fn sides_differ_in_message_type_only() {
    let mut sell = BUY;
    sell[0] = 0x35;
    let (buy_update, sell_update) = match (Message::unmarshal(&BUY), Message::unmarshal(&sell)) {
        (Ok(Message::PriceLevelUpdate(b)), Ok(Message::PriceLevelUpdate(s))) => (b, s),
        got => panic!("got: {:?}", got),
    };
    assert_eq!(buy_update.message_type, PriceLevelUpdateType::BuySide.code());
    assert_eq!(sell_update.message_type, PriceLevelUpdateType::SellSide.code());
    assert_eq!(PriceLevelUpdate { message_type: 0x38, ..sell_update }, buy_update);
}

#[test]
fn price_level_update_one_byte_short() {
    assert_eq!(Message::unmarshal(&BUY[..29]), Err(iex::iextp::DecodeError::TruncatedBuffer));
    assert!(Message::unmarshal(&BUY[..30]).is_ok());
}

#[test]
fn quote_update_tag_is_unsupported_in_deep() {
    let data = [0x51u8, 0x00, 0x01];
    assert_eq!(Message::unmarshal(&data), Ok(Message::Unsupported(data.to_vec())));
}

#[test]
fn security_event_codes() {
    assert_eq!(SecurityEventType::OpeningProcessComplete.code(), 0x4f);
    assert_eq!(SecurityEventType::ClosingProcessComplete.code(), 0x43);
    let data = [
        0x45, 0x43, 0x00, 0xf0, 0x30, 0x2a, 0x5b, 0x25, 0xb6, 0x14, 0x5a, 0x49, 0x45, 0x58, 0x54,
        0x20, 0x20, 0x20,
    ];
    match SecurityEvent::unmarshal(&data) {
        Ok(e) => assert_eq!(e.security_event, SecurityEventType::ClosingProcessComplete.code()),
        got => panic!("got: {:?}", got),
    }
}
