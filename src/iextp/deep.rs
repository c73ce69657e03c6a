//! The DEEP feed: the full depth of the order book, by price level.
use vstd::prelude::*;
use vstd::slice::slice_to_vec;

use crate::iextp::codec::{
    ascii_at, ascii_trimmed, price_at, price_of, system_timestamp, timestamp_at, u32_at,
    le_u32, DecodeError, FixedPrice, Timestamp,
};
use crate::iextp::tops::{
    AuctionInformation, AuctionInformationModel, OfficialPrice, OfficialPriceModel,
    OperationalHaltStatus, OperationalHaltStatusModel, SecurityDirectory, SecurityDirectoryModel,
    ShortSalePriceTestStatus, ShortSalePriceTestStatusModel, SystemEvent, SystemEventModel,
    TradeBreak, TradeBreakModel, TradeReport, TradeReportModel, TradingStatus, TradingStatusModel,
    AUCTION_INFORMATION_LEN, OFFICIAL_PRICE_LEN, OPERATIONAL_HALT_STATUS_LEN,
    SECURITY_DIRECTORY_LEN, SHORT_SALE_PRICE_TEST_STATUS_LEN, SYSTEM_EVENT_LEN, TRADE_BREAK_LEN,
    TRADE_REPORT_LEN, TRADING_STATUS_LEN,
};
use crate::iextp::Unmarshal;

verus! {

/// The channel on which IEX publishes DEEP.
pub const CHANNEL_ID: u32 = 1;

/// The name of the feed.
pub const FEED_NAME: &'static str = "DEEP";

/// The message protocol id of DEEP version 1.0.
pub const PROTOCOL_V1: u16 = 0x8004;

/// The length of a security event block.
pub const SECURITY_EVENT_LEN: usize = 18;

/// A security event block.
#[derive(Clone, Debug, PartialEq)]
pub struct SecurityEvent {
    /// The type tag of the block.
    pub message_type: u8,
    /// Security event identifier.
    pub security_event: u8,
    /// The time of the event as set by the IEX Trading System logic.
    pub timestamp: Timestamp,
    /// Security represented in Nasdaq integrated symbology.
    pub symbol: Vec<char>,
}

/// What a `SecurityEvent` holds, with its character fields as sequences.
pub struct SecurityEventModel {
    pub message_type: u8,
    pub security_event: u8,
    pub timestamp: Timestamp,
    pub symbol: Seq<char>,
}

impl View for SecurityEvent {
    type V = SecurityEventModel;

    open spec fn view(&self) -> SecurityEventModel {
        SecurityEventModel {
            message_type: self.message_type,
            security_event: self.security_event,
            timestamp: self.timestamp,
            symbol: self.symbol@,
        }
    }
}

impl Unmarshal for SecurityEvent {
    open spec fn fits(b: Seq<u8>) -> bool {
        b.len() >= SECURITY_EVENT_LEN
    }

    open spec fn model_of(b: Seq<u8>) -> SecurityEventModel {
        SecurityEventModel {
            message_type: b[0],
            security_event: b[1],
            timestamp: system_timestamp(b.subrange(2, 10)),
            symbol: ascii_trimmed(b.subrange(10, 18)),
        }
    }

    fn unmarshal(buf: &[u8]) -> (r: Result<SecurityEvent, DecodeError>) {
        if buf.len() < SECURITY_EVENT_LEN {
            return Err(DecodeError::TruncatedBuffer);
        }
        Ok(SecurityEvent {
            message_type: buf[0],
            security_event: buf[1],
            timestamp: timestamp_at(buf, 2),
            symbol: ascii_at(buf, 10, 8),
        })
    }
}

/// The length of a price level update block.
pub const PRICE_LEVEL_UPDATE_LEN: usize = 30;

/// A price level update block.
#[derive(Clone, Debug, PartialEq)]
pub struct PriceLevelUpdate {
    /// The side of the book: 0x38 for the buy side, 0x35 for the sell side.
    pub message_type: u8,
    /// Event flags (whether the order book event is complete).
    pub event_flags: u8,
    /// The time of the update event as set by the IEX Trading System logic.
    pub timestamp: Timestamp,
    /// Security represented in Nasdaq integrated symbology.
    pub symbol: Vec<char>,
    /// Aggregate quoted size at the price level.
    pub size: u32,
    /// The price level.
    pub price: FixedPrice,
}

/// What a `PriceLevelUpdate` holds, with its character fields as sequences.
pub struct PriceLevelUpdateModel {
    pub message_type: u8,
    pub event_flags: u8,
    pub timestamp: Timestamp,
    pub symbol: Seq<char>,
    pub size: u32,
    pub price: FixedPrice,
}

impl View for PriceLevelUpdate {
    type V = PriceLevelUpdateModel;

    open spec fn view(&self) -> PriceLevelUpdateModel {
        PriceLevelUpdateModel {
            message_type: self.message_type,
            event_flags: self.event_flags,
            timestamp: self.timestamp,
            symbol: self.symbol@,
            size: self.size,
            price: self.price,
        }
    }
}

impl Unmarshal for PriceLevelUpdate {
    open spec fn fits(b: Seq<u8>) -> bool {
        b.len() >= PRICE_LEVEL_UPDATE_LEN
    }

    open spec fn model_of(b: Seq<u8>) -> PriceLevelUpdateModel {
        PriceLevelUpdateModel {
            message_type: b[0],
            event_flags: b[1],
            timestamp: system_timestamp(b.subrange(2, 10)),
            symbol: ascii_trimmed(b.subrange(10, 18)),
            size: le_u32(b.subrange(18, 22)),
            price: price_of(b.subrange(22, 30)),
        }
    }

    fn unmarshal(buf: &[u8]) -> (r: Result<PriceLevelUpdate, DecodeError>) {
        if buf.len() < PRICE_LEVEL_UPDATE_LEN {
            return Err(DecodeError::TruncatedBuffer);
        }
        Ok(PriceLevelUpdate {
            message_type: buf[0],
            event_flags: buf[1],
            timestamp: timestamp_at(buf, 2),
            symbol: ascii_at(buf, 10, 8),
            size: u32_at(buf, 18),
            price: price_at(buf, 22),
        })
    }
}

/// The security event identifiers of a security event block.
#[derive(Clone, Copy, Debug, PartialEq, Eq, Structural)]
pub enum SecurityEventType {
    OpeningProcessComplete,
    ClosingProcessComplete,
}

impl SecurityEventType {
    /// The byte that stands for this event on the wire.
    pub open spec fn spec_code(self) -> u8 {
        match self {
            SecurityEventType::OpeningProcessComplete => 0x4f,
            SecurityEventType::ClosingProcessComplete => 0x43,
        }
    }

    pub fn code(&self) -> (r: u8)
        ensures
            r == self.spec_code(),
    {
        match self {
            SecurityEventType::OpeningProcessComplete => 0x4f,
            SecurityEventType::ClosingProcessComplete => 0x43,
        }
    }
}

/// The two sides of the book, each with the tag of its price level updates.
#[derive(Clone, Copy, Debug, PartialEq, Eq, Structural)]
pub enum PriceLevelUpdateType {
    BuySide,
    SellSide,
}

impl PriceLevelUpdateType {
    /// The tag of a price level update on this side.
    pub open spec fn spec_code(self) -> u8 {
        match self {
            PriceLevelUpdateType::BuySide => 0x38,
            PriceLevelUpdateType::SellSide => 0x35,
        }
    }

    pub fn code(&self) -> (r: u8)
        ensures
            r == self.spec_code(),
    {
        match self {
            PriceLevelUpdateType::BuySide => 0x38,
            PriceLevelUpdateType::SellSide => 0x35,
        }
    }
}

/// A message block of the DEEP feed, by its type tag.
#[derive(Clone, Debug, PartialEq)]
pub enum Message {
    // Administrative message formats.
    SystemEvent(SystemEvent),
    SecurityDirectory(SecurityDirectory),
    TradingStatus(TradingStatus),
    OperationalHaltStatus(OperationalHaltStatus),
    ShortSalePriceTestStatus(ShortSalePriceTestStatus),
    SecurityEvent(SecurityEvent),
    /// A price level update of either side: its `message_type` tells which.
    PriceLevelUpdate(PriceLevelUpdate),
    // Trading message formats.
    TradeReport(TradeReport),
    OfficialPrice(OfficialPrice),
    TradeBreak(TradeBreak),
    // Auction message formats.
    AuctionInformation(AuctionInformation),
    /// A block whose tag DEEP does not list, with all of its bytes.
    Unsupported(Vec<u8>),
}

/// What a `Message` holds.
pub enum MessageModel {
    SystemEvent(SystemEventModel),
    SecurityDirectory(SecurityDirectoryModel),
    TradingStatus(TradingStatusModel),
    OperationalHaltStatus(OperationalHaltStatusModel),
    ShortSalePriceTestStatus(ShortSalePriceTestStatusModel),
    SecurityEvent(SecurityEventModel),
    PriceLevelUpdate(PriceLevelUpdateModel),
    TradeReport(TradeReportModel),
    OfficialPrice(OfficialPriceModel),
    TradeBreak(TradeBreakModel),
    AuctionInformation(AuctionInformationModel),
    Unsupported(Seq<u8>),
}

impl View for Message {
    type V = MessageModel;

    open spec fn view(&self) -> MessageModel {
        match self {
            Message::SystemEvent(m) => MessageModel::SystemEvent(m@),
            Message::SecurityDirectory(m) => MessageModel::SecurityDirectory(m@),
            Message::TradingStatus(m) => MessageModel::TradingStatus(m@),
            Message::OperationalHaltStatus(m) => MessageModel::OperationalHaltStatus(m@),
            Message::ShortSalePriceTestStatus(m) => MessageModel::ShortSalePriceTestStatus(m@),
            Message::SecurityEvent(m) => MessageModel::SecurityEvent(m@),
            Message::PriceLevelUpdate(m) => MessageModel::PriceLevelUpdate(m@),
            Message::TradeReport(m) => MessageModel::TradeReport(m@),
            Message::OfficialPrice(m) => MessageModel::OfficialPrice(m@),
            Message::TradeBreak(m) => MessageModel::TradeBreak(m@),
            Message::AuctionInformation(m) => MessageModel::AuctionInformation(m@),
            Message::Unsupported(bytes) => MessageModel::Unsupported(bytes@),
        }
    }
}

/// The length of the block that `tag` opens in DEEP, for the tags that DEEP
/// lists; `None` for any other tag.
pub open spec fn block_len(tag: u8) -> Option<nat> {
    if tag == 0x53 {
        Some(SYSTEM_EVENT_LEN as nat)
    } else if tag == 0x44 {
        Some(SECURITY_DIRECTORY_LEN as nat)
    } else if tag == 0x48 {
        Some(TRADING_STATUS_LEN as nat)
    } else if tag == 0x4f {
        Some(OPERATIONAL_HALT_STATUS_LEN as nat)
    } else if tag == 0x50 {
        Some(SHORT_SALE_PRICE_TEST_STATUS_LEN as nat)
    } else if tag == 0x45 {
        Some(SECURITY_EVENT_LEN as nat)
    } else if tag == 0x38 || tag == 0x35 {
        Some(PRICE_LEVEL_UPDATE_LEN as nat)
    } else if tag == 0x54 {
        Some(TRADE_REPORT_LEN as nat)
    } else if tag == 0x58 {
        Some(OFFICIAL_PRICE_LEN as nat)
    } else if tag == 0x42 {
        Some(TRADE_BREAK_LEN as nat)
    } else if tag == 0x41 {
        Some(AUCTION_INFORMATION_LEN as nat)
    } else {
        None
    }
}

/// The length of the block that `tag` opens in DEEP, if DEEP lists the tag.
pub fn block_len_of(tag: u8) -> (r: Option<usize>)
    ensures
        r matches Some(n) ==> block_len(tag) == Some(n as nat),
        r is None <==> block_len(tag) is None,
{
    match tag {
        0x53 => Some(SYSTEM_EVENT_LEN),
        0x44 => Some(SECURITY_DIRECTORY_LEN),
        0x48 => Some(TRADING_STATUS_LEN),
        0x4f => Some(OPERATIONAL_HALT_STATUS_LEN),
        0x50 => Some(SHORT_SALE_PRICE_TEST_STATUS_LEN),
        0x45 => Some(SECURITY_EVENT_LEN),
        0x38 | 0x35 => Some(PRICE_LEVEL_UPDATE_LEN),
        0x54 => Some(TRADE_REPORT_LEN),
        0x58 => Some(OFFICIAL_PRICE_LEN),
        0x42 => Some(TRADE_BREAK_LEN),
        0x41 => Some(AUCTION_INFORMATION_LEN),
        _ => None,
    }
}

impl Unmarshal for Message {
    /// A block needs its tag, and then as many bytes as its type's layout.
    open spec fn fits(b: Seq<u8>) -> bool {
        &&& b.len() > 0
        &&& block_len(b[0]) matches Some(n) ==> b.len() >= n
    }

    open spec fn model_of(b: Seq<u8>) -> MessageModel {
        let tag = b[0];
        if tag == 0x53 {
            MessageModel::SystemEvent(SystemEvent::model_of(b))
        } else if tag == 0x44 {
            MessageModel::SecurityDirectory(SecurityDirectory::model_of(b))
        } else if tag == 0x48 {
            MessageModel::TradingStatus(TradingStatus::model_of(b))
        } else if tag == 0x4f {
            MessageModel::OperationalHaltStatus(OperationalHaltStatus::model_of(b))
        } else if tag == 0x50 {
            MessageModel::ShortSalePriceTestStatus(ShortSalePriceTestStatus::model_of(b))
        } else if tag == 0x45 {
            MessageModel::SecurityEvent(SecurityEvent::model_of(b))
        } else if tag == 0x38 || tag == 0x35 {
            MessageModel::PriceLevelUpdate(PriceLevelUpdate::model_of(b))
        } else if tag == 0x54 {
            MessageModel::TradeReport(TradeReport::model_of(b))
        } else if tag == 0x58 {
            MessageModel::OfficialPrice(OfficialPrice::model_of(b))
        } else if tag == 0x42 {
            MessageModel::TradeBreak(TradeBreak::model_of(b))
        } else if tag == 0x41 {
            MessageModel::AuctionInformation(AuctionInformation::model_of(b))
        } else {
            MessageModel::Unsupported(b)
        }
    }

    fn unmarshal(buf: &[u8]) -> (r: Result<Message, DecodeError>) {
        if buf.len() == 0 {
            return Err(DecodeError::TruncatedBuffer);
        }
        match buf[0] {
            0x53 => Ok(Message::SystemEvent(SystemEvent::unmarshal(buf)?)),
            0x44 => Ok(Message::SecurityDirectory(SecurityDirectory::unmarshal(buf)?)),
            0x48 => Ok(Message::TradingStatus(TradingStatus::unmarshal(buf)?)),
            0x4f => Ok(Message::OperationalHaltStatus(OperationalHaltStatus::unmarshal(buf)?)),
            0x50 => Ok(Message::ShortSalePriceTestStatus(ShortSalePriceTestStatus::unmarshal(buf)?)),
            0x45 => Ok(Message::SecurityEvent(SecurityEvent::unmarshal(buf)?)),
            0x38 | 0x35 => Ok(Message::PriceLevelUpdate(PriceLevelUpdate::unmarshal(buf)?)),
            0x54 => Ok(Message::TradeReport(TradeReport::unmarshal(buf)?)),
            0x58 => Ok(Message::OfficialPrice(OfficialPrice::unmarshal(buf)?)),
            0x42 => Ok(Message::TradeBreak(TradeBreak::unmarshal(buf)?)),
            0x41 => Ok(Message::AuctionInformation(AuctionInformation::unmarshal(buf)?)),
            _ => Ok(Message::Unsupported(slice_to_vec(buf))),
        }
    }
}

} // verus!
