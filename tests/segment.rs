use iex::iextp::{
    decode_message, decode_segment, decode_segment_header, deep, tops, DecodeError, Feed,
    FeedMessage, SegmentHeader, Timestamp, SEGMENT_HEADER_LEN,
};

const SYSTEM_EVENT: [u8; 10] = [0x53, 0x45, 0x00, 0xa0, 0x99, 0x97, 0xe9, 0x3d, 0xb6, 0x14];

const SECURITY_EVENT: [u8; 18] = [
    0x45, 0x4f, 0x00, 0xf0, 0x30, 0x2a, 0x5b, 0x25, 0xb6, 0x14, 0x5a, 0x49, 0x45, 0x58, 0x54,
    0x20, 0x20, 0x20,
];

fn header(protocol: u16, payload_length: u16, message_count: u16) -> Vec<u8> {
    let mut h = vec![1u8, 0];
    h.extend_from_slice(&protocol.to_le_bytes());
    h.extend_from_slice(&1u32.to_le_bytes());
    h.extend_from_slice(&42u32.to_le_bytes());
    h.extend_from_slice(&payload_length.to_le_bytes());
    h.extend_from_slice(&message_count.to_le_bytes());
    h.extend_from_slice(&(-5i64).to_le_bytes());
    h.extend_from_slice(&7i64.to_le_bytes());
    h.extend_from_slice(&1_471_980_632_572_715_948u64.to_le_bytes());
    h
}

#[test]
fn segment_header_fields() {
    let h = header(0x8004, 28, 2);
    assert_eq!(h.len(), SEGMENT_HEADER_LEN);
    assert_eq!(
        decode_segment_header(&h),
        Ok(SegmentHeader {
            version: 1,
            message_protocol_id: 0x8004,
            channel_id: 1,
            session_id: 42,
            payload_length: 28,
            message_count: 2,
            stream_offset: -5,
            first_message_sequence_number: 7,
            send_time: Timestamp::new(1_471_980_632, 572_715_948),
        })
    );
    assert_eq!(decode_segment_header(&h[..39]), Err(DecodeError::TruncatedBuffer));
}

#[test]
fn segment_yields_its_blocks_in_order() {
    let mut buf = header(0x8004, 28, 2);
    buf.extend_from_slice(&SYSTEM_EVENT);
    buf.extend_from_slice(&SECURITY_EVENT);
    let segment = decode_segment(Feed::Deep, &buf).unwrap();
    assert!(!segment.truncated);
    assert_eq!(segment.messages.len(), 2);
    assert_eq!(segment.messages[0], decode_message(Feed::Deep, &SYSTEM_EVENT).unwrap());
    match &segment.messages[1] {
        FeedMessage::Deep(deep::Message::SecurityEvent(e)) => assert_eq!(e.security_event, 0x4f),
        got => panic!("got: {:?}", got),
    }
}

#[test]
fn segment_short_of_its_count_is_truncated() {
    let mut buf = header(0x8003, 100, 3);
    buf.extend_from_slice(&SYSTEM_EVENT);
    buf.extend_from_slice(&SYSTEM_EVENT[..5]);
    let segment = decode_segment(Feed::Tops, &buf).unwrap();
    assert!(segment.truncated);
    assert_eq!(segment.messages.len(), 1);
    assert_eq!(decode_segment(Feed::Tops, &buf[..20]), Err(DecodeError::TruncatedBuffer));
}

#[test]
fn segment_payload_stops_at_declared_length() {
    let mut buf = header(0x8003, 10, 2);
    buf.extend_from_slice(&SYSTEM_EVENT);
    buf.extend_from_slice(&SYSTEM_EVENT);
    let segment = decode_segment(Feed::Tops, &buf).unwrap();
    assert_eq!(segment.messages.len(), 1);
    assert!(segment.truncated);
}

#[test]
fn unlisted_block_takes_the_rest_of_the_payload() {
    // 0x45 is not a TOPS tag.
    let mut buf = header(0x8003, 28, 2);
    buf.extend_from_slice(&SYSTEM_EVENT);
    buf.extend_from_slice(&SECURITY_EVENT);
    let segment = decode_segment(Feed::Tops, &buf).unwrap();
    assert!(!segment.truncated);
    assert_eq!(
        segment.messages[1],
        FeedMessage::Tops(tops::Message::Unsupported(SECURITY_EVENT.to_vec()))
    );
}

#[test]
fn zero_count_segment_is_empty() {
    let buf = header(0x8004, 0, 0);
    let segment = decode_segment(Feed::Deep, &buf).unwrap();
    assert!(segment.messages.is_empty());
    assert!(!segment.truncated);
}

#[test]
fn feeds_have_their_own_tables() {
    let quote = [0x51u8; 42];
    assert!(matches!(
        decode_message(Feed::Tops, &quote),
        Ok(FeedMessage::Tops(tops::Message::QuoteUpdate(_)))
    ));
    assert_eq!(
        decode_message(Feed::Deep, &quote),
        Ok(FeedMessage::Deep(deep::Message::Unsupported(quote.to_vec())))
    );
    assert_eq!(
        decode_message(Feed::Tops, &SECURITY_EVENT),
        Ok(FeedMessage::Tops(tops::Message::Unsupported(SECURITY_EVENT.to_vec())))
    );
    assert_eq!(decode_message(Feed::Deep, &SECURITY_EVENT[..17]), Err(DecodeError::TruncatedBuffer));
    assert_eq!(decode_message(Feed::Tops, &[]), Err(DecodeError::TruncatedBuffer));
}

#[test]
fn listed_tags_of_both_feeds() {
    let tops_tags: [u8; 10] = [0x53, 0x44, 0x48, 0x4f, 0x50, 0x51, 0x54, 0x42, 0x58, 0x41];
    let deep_tags: [u8; 12] = [0x53, 0x44, 0x48, 0x4f, 0x50, 0x45, 0x38, 0x35, 0x54, 0x42, 0x58, 0x41];
    for tag in tops_tags.iter() {
        let mut data = vec![0u8; 80];
        data[0] = *tag;
        match decode_message(Feed::Tops, &data) {
            Ok(FeedMessage::Tops(tops::Message::Unsupported(_))) | Err(_) => {
                panic!("tag {:#x} not decoded", tag)
            },
            Ok(_) => {},
        }
    }
    for tag in deep_tags.iter() {
        let mut data = vec![0u8; 80];
        data[0] = *tag;
        match decode_message(Feed::Deep, &data) {
            Ok(FeedMessage::Deep(deep::Message::Unsupported(_))) | Err(_) => {
                panic!("tag {:#x} not decoded", tag)
            },
            Ok(_) => {},
        }
    }
}

#[test]
fn feed_of_protocol_id() {
    assert_eq!(Feed::from_protocol_id(tops::PROTOCOL_V1_5), Some(Feed::Tops));
    assert_eq!(Feed::from_protocol_id(0x8003), Some(Feed::Tops));
    assert_eq!(Feed::from_protocol_id(deep::PROTOCOL_V1), Some(Feed::Deep));
    assert_eq!(Feed::from_protocol_id(0x8005), None);
    assert_eq!(tops::FEED_NAME, "TOPS");
    assert_eq!(deep::FEED_NAME, "DEEP");
    assert_eq!(tops::CHANNEL_ID, 1);
}
