//! IEX-TP segments and the message blocks that they carry.
//!
//! A segment is a 40-byte header followed by a payload of message blocks.
//! Each block opens with a one-byte type tag; its length follows from the
//! layout of that type, as there is no length prefix per block. Each feed has
//! its own table of tags: the same byte may mean different things in TOPS and
//! in DEEP.
use vstd::prelude::*;

pub mod codec;
pub mod deep;
pub mod tops;

pub use self::codec::{DecodeError, FixedPrice, Timestamp};

use self::codec::{le_i64, le_u16, le_u32, system_timestamp, timestamp_at, to_signed, u16_at, u32_at, u64_at};

verus! {

/// A value that a byte buffer encodes at fixed offsets.
pub trait Unmarshal: Sized + View {
    /// Whether `b` holds enough bytes for a value of this type.
    spec fn fits(b: Seq<u8>) -> bool;

    /// The value that `b` encodes, where `fits(b)`.
    spec fn model_of(b: Seq<u8>) -> Self::V;

    /// Decodes `buf`; a buffer too short for its layout is refused, never read
    /// past its end.
    fn unmarshal(buf: &[u8]) -> (r: Result<Self, DecodeError>)
        ensures
            r is Ok <==> Self::fits(buf@),
            r matches Ok(m) ==> m@ == Self::model_of(buf@),
            r matches Err(e) ==> e == DecodeError::TruncatedBuffer,
    ;
}

/// The two feeds that IEX-TP carries.
#[derive(Clone, Copy, Debug, PartialEq, Eq, Structural)]
pub enum Feed {
    Tops,
    Deep,
}

impl Feed {
    /// The feed whose messages a segment with this message protocol id holds.
    pub open spec fn of_protocol(id: u16) -> Option<Feed> {
        if id == tops::PROTOCOL_V1_5 || id == tops::PROTOCOL_V1_6 {
            Some(Feed::Tops)
        } else if id == deep::PROTOCOL_V1 {
            Some(Feed::Deep)
        } else {
            None
        }
    }

    /// The feed that a message protocol id identifies, if any.
    pub fn from_protocol_id(id: u16) -> (r: Option<Feed>)
        ensures
            r == Feed::of_protocol(id),
    {
        if id == tops::PROTOCOL_V1_5 || id == tops::PROTOCOL_V1_6 {
            Some(Feed::Tops)
        } else if id == deep::PROTOCOL_V1 {
            Some(Feed::Deep)
        } else {
            None
        }
    }
}

/// A message block of either feed.
#[derive(Clone, Debug, PartialEq)]
pub enum FeedMessage {
    Tops(tops::Message),
    Deep(deep::Message),
}

/// What a `FeedMessage` holds.
pub enum FeedMessageModel {
    Tops(tops::MessageModel),
    Deep(deep::MessageModel),
}

impl View for FeedMessage {
    type V = FeedMessageModel;

    open spec fn view(&self) -> FeedMessageModel {
        match self {
            FeedMessage::Tops(m) => FeedMessageModel::Tops(m@),
            FeedMessage::Deep(m) => FeedMessageModel::Deep(m@),
        }
    }
}

impl FeedMessageModel {
    /// The bytes that an unsupported block kept; `None` for a decoded block.
    pub open spec fn raw(self) -> Option<Seq<u8>> {
        match self {
            FeedMessageModel::Tops(tops::MessageModel::Unsupported(b)) => Some(b),
            FeedMessageModel::Deep(deep::MessageModel::Unsupported(b)) => Some(b),
            _ => None,
        }
    }
}

/// The length of the block that `tag` opens in `feed`; `None` where the feed
/// does not list the tag.
pub open spec fn block_len(feed: Feed, tag: u8) -> Option<nat> {
    match feed {
        Feed::Tops => tops::block_len(tag),
        Feed::Deep => deep::block_len(tag),
    }
}

/// Whether `b` holds a whole block of `feed`: a tag, and as many bytes as the
/// layout of a listed tag calls for.
pub open spec fn message_fits(feed: Feed, b: Seq<u8>) -> bool {
    &&& b.len() > 0
    &&& block_len(feed, b[0]) matches Some(n) ==> b.len() >= n
}

/// The message that the block `b` of `feed` encodes.
#[verifier::opaque]
pub open spec fn message_model(feed: Feed, b: Seq<u8>) -> FeedMessageModel {
    match feed {
        Feed::Tops => FeedMessageModel::Tops(<tops::Message as Unmarshal>::model_of(b)),
        Feed::Deep => FeedMessageModel::Deep(<deep::Message as Unmarshal>::model_of(b)),
    }
}

/// What decoding `b` as a block of `feed` gives.
pub open spec fn decoded(feed: Feed, b: Seq<u8>) -> Result<FeedMessageModel, DecodeError> {
    if message_fits(feed, b) {
        Ok(message_model(feed, b))
    } else {
        Err(DecodeError::TruncatedBuffer)
    }
}

/// The view of a decoding outcome.
pub open spec fn outcome(r: Result<FeedMessage, DecodeError>) -> Result<FeedMessageModel, DecodeError> {
    match r {
        Ok(m) => Ok(m@),
        Err(e) => Err(e),
    }
}

impl FeedMessageModel {
    /// The tag byte that the message keeps.
    pub open spec fn tag(self) -> u8 {
        match self {
            FeedMessageModel::Tops(m) => match m {
                tops::MessageModel::SystemEvent(x) => x.message_type,
                tops::MessageModel::SecurityDirectory(x) => x.message_type,
                tops::MessageModel::TradingStatus(x) => x.message_type,
                tops::MessageModel::OperationalHaltStatus(x) => x.message_type,
                tops::MessageModel::ShortSalePriceTestStatus(x) => x.message_type,
                tops::MessageModel::QuoteUpdate(x) => x.message_type,
                tops::MessageModel::TradeReport(x) => x.message_type,
                tops::MessageModel::TradeBreak(x) => x.message_type,
                tops::MessageModel::OfficialPrice(x) => x.message_type,
                tops::MessageModel::AuctionInformation(x) => x.message_type,
                tops::MessageModel::Unsupported(b) => b[0],
            },
            FeedMessageModel::Deep(m) => match m {
                deep::MessageModel::SystemEvent(x) => x.message_type,
                deep::MessageModel::SecurityDirectory(x) => x.message_type,
                deep::MessageModel::TradingStatus(x) => x.message_type,
                deep::MessageModel::OperationalHaltStatus(x) => x.message_type,
                deep::MessageModel::ShortSalePriceTestStatus(x) => x.message_type,
                deep::MessageModel::SecurityEvent(x) => x.message_type,
                deep::MessageModel::PriceLevelUpdate(x) => x.message_type,
                deep::MessageModel::TradeReport(x) => x.message_type,
                deep::MessageModel::OfficialPrice(x) => x.message_type,
                deep::MessageModel::TradeBreak(x) => x.message_type,
                deep::MessageModel::AuctionInformation(x) => x.message_type,
                deep::MessageModel::Unsupported(b) => b[0],
            },
        }
    }
}

/// The length of the block that `tag` opens in `feed`, if the feed lists it.
pub fn block_len_of(feed: Feed, tag: u8) -> (r: Option<usize>)
    ensures
        r matches Some(n) ==> block_len(feed, tag) == Some(n as nat),
        r is None <==> block_len(feed, tag) is None,
{
    match feed {
        Feed::Tops => tops::block_len_of(tag),
        Feed::Deep => deep::block_len_of(tag),
    }
}

/// Decodes one message block of `feed`. The tag in the first byte picks the
/// decoder from the feed's own table; a tag that the table does not list gives
/// `Unsupported` with a copy of the whole buffer. The only failure is a buffer
/// too short for the layout of its tag (or empty).
pub fn decode_message(feed: Feed, buf: &[u8]) -> (r: Result<FeedMessage, DecodeError>)
    ensures
        outcome(r) == decoded(feed, buf@),
        r is Err <==> !message_fits(feed, buf@),
        r matches Err(e) ==> e == DecodeError::TruncatedBuffer,
        buf@.len() > 0 && block_len(feed, buf@[0]) is None ==> (r matches Ok(m) && m@.raw()
            == Some(buf@)),
        r matches Ok(m) ==> (block_len(feed, buf@[0]) is Some ==> m@.raw() is None),
        r matches Ok(m) ==> m@.tag() == buf@[0],
{
    proof {
        reveal(message_model);
    }
    match feed {
        Feed::Tops => {
            let m = <tops::Message as Unmarshal>::unmarshal(buf)?;
            Ok(FeedMessage::Tops(m))
        },
        Feed::Deep => {
            let m = <deep::Message as Unmarshal>::unmarshal(buf)?;
            Ok(FeedMessage::Deep(m))
        },
    }
}

/// Decoding is a pure function of the feed and the bytes: two decodings of
/// identical bytes give equal results.
pub proof fn lemma_decode_deterministic(
    feed: Feed,
    b1: Seq<u8>,
    b2: Seq<u8>,
    r1: Result<FeedMessage, DecodeError>,
    r2: Result<FeedMessage, DecodeError>,
)
    requires
        b1 == b2,
        outcome(r1) == decoded(feed, b1),
        outcome(r2) == decoded(feed, b2),
    ensures
        outcome(r1) == outcome(r2),
{
}

/// A block one byte shorter than the layout of its listed tag is refused as
/// truncated.
pub proof fn lemma_one_byte_short(feed: Feed, b: Seq<u8>, n: nat)
    requires
        b.len() > 0,
        block_len(feed, b[0]) == Some(n),
        b.len() + 1 == n,
    ensures
        decoded(feed, b) == Err::<FeedMessageModel, DecodeError>(DecodeError::TruncatedBuffer),
{
}

/// Each feed routes a tag that it lists to the decoder of that tag, which keeps
/// the tag; a tag that it does not list gives `Unsupported` with the block's
/// bytes unchanged.
pub proof fn lemma_dispatch(feed: Feed, b: Seq<u8>)
    requires
        message_fits(feed, b),
    ensures
        block_len(feed, b[0]) is None ==> message_model(feed, b).raw() == Some(b),
        block_len(feed, b[0]) is Some ==> message_model(feed, b).raw() is None,
        message_model(feed, b).tag() == b[0],
{
    reveal(message_model);
}

/// Two price level updates whose blocks differ in the tag alone, one of the buy
/// side and one of the sell side, hold the same fields but for the tag.
pub proof fn lemma_price_level_sides(buy: Seq<u8>, sell: Seq<u8>)
    requires
        buy.len() == sell.len(),
        buy.len() >= deep::PRICE_LEVEL_UPDATE_LEN,
        buy[0] == 0x38,
        sell[0] == 0x35,
        forall|i: int| 1 <= i < buy.len() ==> buy[i] == sell[i],
    ensures
        message_model(Feed::Deep, buy) == FeedMessageModel::Deep(
            deep::MessageModel::PriceLevelUpdate(<deep::PriceLevelUpdate as Unmarshal>::model_of(buy)),
        ),
        message_model(Feed::Deep, sell) == FeedMessageModel::Deep(
            deep::MessageModel::PriceLevelUpdate(<deep::PriceLevelUpdate as Unmarshal>::model_of(sell)),
        ),
        <deep::PriceLevelUpdate as Unmarshal>::model_of(sell) == (deep::PriceLevelUpdateModel {
            message_type: 0x35,
            ..<deep::PriceLevelUpdate as Unmarshal>::model_of(buy)
        }),
{
    reveal(message_model);
    assert(buy.subrange(2, 10) == sell.subrange(2, 10));
    assert(buy.subrange(10, 18) == sell.subrange(10, 18));
    assert(buy.subrange(18, 22) == sell.subrange(18, 22));
    assert(buy.subrange(22, 30) == sell.subrange(22, 30));
}

/// The length of the header that opens every segment.
pub const SEGMENT_HEADER_LEN: usize = 40;

/// The header that opens every segment.
#[derive(Clone, Copy, Debug, PartialEq, Eq, Structural)]
pub struct SegmentHeader {
    /// Version of the IEX-TP protocol.
    pub version: u8,
    /// Identifies the higher-layer protocol of the messages in the segment
    /// (TOPS 1.5 or 1.6, DEEP 1.0).
    pub message_protocol_id: u16,
    /// The stream of messages; messages from sources with the same channel
    /// are duplicates by sequence number or offset.
    pub channel_id: u32,
    /// Identifies the stream of messages that the system produced; a message
    /// is identified by its session and sequence number.
    pub session_id: u32,
    /// The number of payload bytes after the header, the header not counted.
    pub payload_length: u16,
    /// The number of message blocks in the segment.
    pub message_count: u16,
    /// The byte offset of the payload in the data stream.
    pub stream_offset: i64,
    /// The sequence number of the first message in the segment; the others
    /// follow it in order.
    pub first_message_sequence_number: i64,
    /// The time the segment was sent, as set by the sender.
    pub send_time: Timestamp,
}

/// The header that the first 40 bytes of `b` encode. Byte 1 is reserved.
pub open spec fn header_of(b: Seq<u8>) -> SegmentHeader {
    SegmentHeader {
        version: b[0],
        message_protocol_id: le_u16(b.subrange(2, 4)),
        channel_id: le_u32(b.subrange(4, 8)),
        session_id: le_u32(b.subrange(8, 12)),
        payload_length: le_u16(b.subrange(12, 14)),
        message_count: le_u16(b.subrange(14, 16)),
        stream_offset: le_i64(b.subrange(16, 24)),
        first_message_sequence_number: le_i64(b.subrange(24, 32)),
        send_time: system_timestamp(b.subrange(32, 40)),
    }
}

/// Decodes the header that opens a segment.
pub fn decode_segment_header(buf: &[u8]) -> (r: Result<SegmentHeader, DecodeError>)
    ensures
        buf@.len() < SEGMENT_HEADER_LEN ==> r == Err::<SegmentHeader, DecodeError>(
            DecodeError::TruncatedBuffer,
        ),
        buf@.len() >= SEGMENT_HEADER_LEN ==> r == Ok::<SegmentHeader, DecodeError>(
            header_of(buf@),
        ),
{
    if buf.len() < SEGMENT_HEADER_LEN {
        return Err(DecodeError::TruncatedBuffer);
    }
    Ok(SegmentHeader {
        version: buf[0],
        message_protocol_id: u16_at(buf, 2),
        channel_id: u32_at(buf, 4),
        session_id: u32_at(buf, 8),
        payload_length: u16_at(buf, 12),
        message_count: u16_at(buf, 14),
        stream_offset: to_signed(u64_at(buf, 16)),
        first_message_sequence_number: to_signed(u64_at(buf, 24)),
        send_time: timestamp_at(buf, 32),
    })
}

/// The payload of the segment `b`: the bytes after the header, as many as
/// the header declares or as the buffer holds, whichever is fewer.
pub open spec fn payload_of(b: Seq<u8>) -> Seq<u8> {
    let declared = SEGMENT_HEADER_LEN + header_of(b).payload_length;
    let end = if b.len() < declared { b.len() as int } else { declared };
    b.subrange(SEGMENT_HEADER_LEN as int, end)
}

/// The first `count` blocks of the payload `p` of `feed`, and whether the
/// payload ran out before them. A listed tag's block is as long as its layout;
/// an unlisted tag's block, whose length nothing tells, takes the rest of the
/// payload.
#[verifier::opaque]
pub open spec fn blocks(feed: Feed, p: Seq<u8>, count: nat) -> (Seq<FeedMessageModel>, bool)
    decreases count,
{
    if count == 0 {
        (Seq::empty(), false)
    } else if p.len() == 0 {
        (Seq::empty(), true)
    } else {
        let n = match block_len(feed, p[0]) {
            Some(n) => n,
            None => p.len(),
        };
        if p.len() < n {
            (Seq::empty(), true)
        } else {
            let rest = blocks(feed, p.subrange(n as int, p.len() as int), (count - 1) as nat);
            (seq![message_model(feed, p.subrange(0, n as int))] + rest.0, rest.1)
        }
    }
}

/// A payload gives at most `count` blocks, and exactly `count` where it does
/// not run out.
pub proof fn lemma_blocks_count(feed: Feed, p: Seq<u8>, count: nat)
    ensures
        blocks(feed, p, count).0.len() <= count,
        !blocks(feed, p, count).1 ==> blocks(feed, p, count).0.len() == count,
    decreases count,
{
    reveal(blocks);
    if count > 0 && p.len() > 0 {
        let n = match block_len(feed, p[0]) {
            Some(n) => n,
            None => p.len(),
        };
        if p.len() >= n {
            lemma_blocks_count(feed, p.subrange(n as int, p.len() as int), (count - 1) as nat);
        }
    }
}

/// The views of a sequence of messages.
pub open spec fn views(s: Seq<FeedMessage>) -> Seq<FeedMessageModel> {
    s.map_values(|m: FeedMessage| m@)
}

/// A decoded segment.
#[derive(Clone, Debug, PartialEq)]
pub struct Segment {
    pub header: SegmentHeader,
    /// The message blocks of the payload, in order.
    pub messages: Vec<FeedMessage>,
    /// Whether the payload ended before the header's count of blocks did.
    pub truncated: bool,
}

/// Decodes a segment of `feed`: its header, then the blocks of its payload, as
/// many as the header counts. Where the payload runs out first, the messages
/// decoded so far are kept and the segment is marked truncated.
pub fn decode_segment(feed: Feed, buf: &[u8]) -> (r: Result<Segment, DecodeError>)
    ensures
        buf@.len() < SEGMENT_HEADER_LEN <==> r is Err,
        r matches Err(e) ==> e == DecodeError::TruncatedBuffer,
        r matches Ok(s) ==> {
            &&& s.header == header_of(buf@)
            &&& (views(s.messages@), s.truncated) == blocks(
                feed,
                payload_of(buf@),
                s.header.message_count as nat,
            )
            &&& s.messages@.len() <= s.header.message_count
            &&& !s.truncated ==> s.messages@.len() == s.header.message_count
        },
{
    let header = decode_segment_header(buf)?;
    let declared: usize = SEGMENT_HEADER_LEN + header.payload_length as usize;
    let end: usize = if buf.len() < declared { buf.len() } else { declared };
    let ghost payload = payload_of(buf@);
    let ghost all = blocks(feed, payload, header.message_count as nat);
    let mut messages: Vec<FeedMessage> = Vec::new();
    let mut truncated = false;
    let mut at: usize = SEGMENT_HEADER_LEN;
    let mut left: u16 = header.message_count;
    proof {
        assert(buf@.subrange(at as int, end as int) == payload);
        reveal(blocks);
    }
    while left > 0
        invariant_except_break
            !truncated,
            ({
                let rest = blocks(feed, buf@.subrange(at as int, end as int), left as nat);
                all == (views(messages@) + rest.0, rest.1)
            }),
        invariant
            SEGMENT_HEADER_LEN <= at <= end <= buf@.len(),
            all == blocks(feed, payload_of(buf@), header.message_count as nat),
            forall|q: Seq<u8>| #[trigger]
                blocks(feed, q, 0) == (Seq::<FeedMessageModel>::empty(), false),
        ensures
            all == (views(messages@), truncated),
        decreases left,
    {
        let ghost p = buf@.subrange(at as int, end as int);
        proof {
            reveal(blocks);
        }
        if at == end {
            truncated = true;
            proof {
                assert(views(messages@) + Seq::empty() == views(messages@));
            }
            break;
        }
        let n: usize = match block_len_of(feed, buf[at]) {
            Some(n) => n,
            None => end - at,
        };
        if end - at < n {
            truncated = true;
            proof {
                assert(views(messages@) + Seq::empty() == views(messages@));
            }
            break;
        }
        let block = &buf[at..at + n];
        proof {
            assert(block@ == p.subrange(0, n as int));
            assert(message_fits(feed, block@));
        }
        // The block holds the whole layout of its tag, so it decodes.
        let m = match decode_message(feed, block) {
            Ok(m) => m,
            Err(_) => {
                return Err(DecodeError::TruncatedBuffer);
            },
        };
        proof {
            assert(p.subrange(n as int, p.len() as int) == buf@.subrange(at + n, end as int));
            let rest = blocks(feed, buf@.subrange(at + n, end as int), (left - 1) as nat);
            assert(views(messages@.push(m)) == views(messages@).push(m@));
            assert(views(messages@) + (seq![m@] + rest.0) == views(messages@).push(m@) + rest.0);
        }
        messages.push(m);
        at = at + n;
        left = left - 1;
    }
    proof {
        lemma_blocks_count(feed, payload, header.message_count as nat);
    }
    Ok(Segment { header, messages, truncated })
}

} // verus!
