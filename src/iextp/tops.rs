//! The TOPS feed: top-of-book quotes, trades and auctions.
use vstd::prelude::*;
use vstd::slice::slice_to_vec;

use crate::iextp::codec::{
    ascii_at, ascii_trimmed, event_time, event_time_at, le_i64, le_u32, price_at, price_of,
    system_timestamp, timestamp_at, to_signed, u32_at, u64_at, DecodeError, FixedPrice, Timestamp,
};
use crate::iextp::Unmarshal;

verus! {

/// The channel on which IEX publishes TOPS.
pub const CHANNEL_ID: u32 = 1;

/// The name of the feed.
pub const FEED_NAME: &'static str = "TOPS";

/// The message protocol id of TOPS version 1.5.
pub const PROTOCOL_V1_5: u16 = 0x8002;

/// The message protocol id of TOPS version 1.6.
pub const PROTOCOL_V1_6: u16 = 0x8003;

/// The length of a system event block.
pub const SYSTEM_EVENT_LEN: usize = 10;

/// A system event block.
#[derive(Clone, Debug, PartialEq)]
pub struct SystemEvent {
    /// The type tag of the block.
    pub message_type: u8,
    /// The system event identifier.
    pub system_event: u8,
    /// The time of the event as set by the IEX Trading System logic.
    pub timestamp: Timestamp,
}

/// What a `SystemEvent` holds.
pub struct SystemEventModel {
    pub message_type: u8,
    pub system_event: u8,
    pub timestamp: Timestamp,
}

impl View for SystemEvent {
    type V = SystemEventModel;

    open spec fn view(&self) -> SystemEventModel {
        SystemEventModel {
            message_type: self.message_type,
            system_event: self.system_event,
            timestamp: self.timestamp,
        }
    }
}

impl Unmarshal for SystemEvent {
    open spec fn fits(b: Seq<u8>) -> bool {
        b.len() >= SYSTEM_EVENT_LEN
    }

    open spec fn model_of(b: Seq<u8>) -> SystemEventModel {
        SystemEventModel {
            message_type: b[0],
            system_event: b[1],
            timestamp: system_timestamp(b.subrange(2, 10)),
        }
    }

    fn unmarshal(buf: &[u8]) -> (r: Result<SystemEvent, DecodeError>) {
        if buf.len() < SYSTEM_EVENT_LEN {
            return Err(DecodeError::TruncatedBuffer);
        }
        Ok(SystemEvent {
            message_type: buf[0],
            system_event: buf[1],
            timestamp: timestamp_at(buf, 2),
        })
    }
}

/// The length of a security directory block.
pub const SECURITY_DIRECTORY_LEN: usize = 31;

/// A security directory block.
#[allow(non_snake_case)]
#[derive(Clone, Debug, PartialEq)]
pub struct SecurityDirectory {
    /// The type tag of the block.
    pub message_type: u8,
    /// Security flags (test security, ETP, when issued).
    pub flags: u8,
    /// The time of the update event as set by the IEX Trading System logic.
    pub timestamp: Timestamp,
    /// IEX-listed security represented in Nasdaq Integrated symbology.
    pub symbol: Vec<char>,
    /// The number of shares that represent a round lot for the security.
    pub round_lot_size: u32,
    /// The corporate action adjusted previous official closing price for
    /// the security; for new issues, the issue price.
    pub adjusted_POC_price: FixedPrice,
    /// Which Limit Up-Limit Down price band calculation parameter is to be used.
    pub LULD_tier: u8,
}

/// What a `SecurityDirectory` holds, with its character fields as sequences.
#[allow(non_snake_case)]
pub struct SecurityDirectoryModel {
    pub message_type: u8,
    pub flags: u8,
    pub timestamp: Timestamp,
    pub symbol: Seq<char>,
    pub round_lot_size: u32,
    pub adjusted_POC_price: FixedPrice,
    pub LULD_tier: u8,
}

impl View for SecurityDirectory {
    type V = SecurityDirectoryModel;

    open spec fn view(&self) -> SecurityDirectoryModel {
        SecurityDirectoryModel {
            message_type: self.message_type,
            flags: self.flags,
            timestamp: self.timestamp,
            symbol: self.symbol@,
            round_lot_size: self.round_lot_size,
            adjusted_POC_price: self.adjusted_POC_price,
            LULD_tier: self.LULD_tier,
        }
    }
}

impl Unmarshal for SecurityDirectory {
    open spec fn fits(b: Seq<u8>) -> bool {
        b.len() >= SECURITY_DIRECTORY_LEN
    }

    open spec fn model_of(b: Seq<u8>) -> SecurityDirectoryModel {
        SecurityDirectoryModel {
            message_type: b[0],
            flags: b[1],
            timestamp: system_timestamp(b.subrange(2, 10)),
            symbol: ascii_trimmed(b.subrange(10, 18)),
            round_lot_size: le_u32(b.subrange(18, 22)),
            adjusted_POC_price: price_of(b.subrange(22, 30)),
            LULD_tier: b[30],
        }
    }

    fn unmarshal(buf: &[u8]) -> (r: Result<SecurityDirectory, DecodeError>) {
        if buf.len() < SECURITY_DIRECTORY_LEN {
            return Err(DecodeError::TruncatedBuffer);
        }
        Ok(SecurityDirectory {
            message_type: buf[0],
            flags: buf[1],
            timestamp: timestamp_at(buf, 2),
            symbol: ascii_at(buf, 10, 8),
            round_lot_size: u32_at(buf, 18),
            adjusted_POC_price: price_at(buf, 22),
            LULD_tier: buf[30],
        })
    }
}

/// The length of a trading status block.
pub const TRADING_STATUS_LEN: usize = 22;

/// A trading status block.
#[derive(Clone, Debug, PartialEq)]
pub struct TradingStatus {
    /// The type tag of the block.
    pub message_type: u8,
    /// Trading status.
    pub trading_status: u8,
    /// The time of the update event as set by the IEX Trading System logic.
    pub timestamp: Timestamp,
    /// Security represented in Nasdaq integrated symbology.
    pub symbol: Vec<char>,
    /// Why the security is halted or in an order acceptance period; blank
    /// while it trades or is paused.
    pub reason: Vec<char>,
}

/// What a `TradingStatus` holds, with its character fields as sequences.
pub struct TradingStatusModel {
    pub message_type: u8,
    pub trading_status: u8,
    pub timestamp: Timestamp,
    pub symbol: Seq<char>,
    pub reason: Seq<char>,
}

impl View for TradingStatus {
    type V = TradingStatusModel;

    open spec fn view(&self) -> TradingStatusModel {
        TradingStatusModel {
            message_type: self.message_type,
            trading_status: self.trading_status,
            timestamp: self.timestamp,
            symbol: self.symbol@,
            reason: self.reason@,
        }
    }
}

impl Unmarshal for TradingStatus {
    open spec fn fits(b: Seq<u8>) -> bool {
        b.len() >= TRADING_STATUS_LEN
    }

    open spec fn model_of(b: Seq<u8>) -> TradingStatusModel {
        TradingStatusModel {
            message_type: b[0],
            trading_status: b[1],
            timestamp: system_timestamp(b.subrange(2, 10)),
            symbol: ascii_trimmed(b.subrange(10, 18)),
            reason: ascii_trimmed(b.subrange(18, 22)),
        }
    }

    fn unmarshal(buf: &[u8]) -> (r: Result<TradingStatus, DecodeError>) {
        if buf.len() < TRADING_STATUS_LEN {
            return Err(DecodeError::TruncatedBuffer);
        }
        Ok(TradingStatus {
            message_type: buf[0],
            trading_status: buf[1],
            timestamp: timestamp_at(buf, 2),
            symbol: ascii_at(buf, 10, 8),
            reason: ascii_at(buf, 18, 4),
        })
    }
}

/// The length of an operational halt status block.
pub const OPERATIONAL_HALT_STATUS_LEN: usize = 18;

/// An operational halt status block.
#[derive(Clone, Debug, PartialEq)]
pub struct OperationalHaltStatus {
    /// The type tag of the block.
    pub message_type: u8,
    /// Operational halt status identifier.
    pub operational_halt_status: u8,
    /// The time of the update event as set by the IEX Trading System logic.
    pub timestamp: Timestamp,
    /// Security represented in Nasdaq integrated symbology.
    pub symbol: Vec<char>,
}

/// What a `OperationalHaltStatus` holds, with its character fields as sequences.
pub struct OperationalHaltStatusModel {
    pub message_type: u8,
    pub operational_halt_status: u8,
    pub timestamp: Timestamp,
    pub symbol: Seq<char>,
}

impl View for OperationalHaltStatus {
    type V = OperationalHaltStatusModel;

    open spec fn view(&self) -> OperationalHaltStatusModel {
        OperationalHaltStatusModel {
            message_type: self.message_type,
            operational_halt_status: self.operational_halt_status,
            timestamp: self.timestamp,
            symbol: self.symbol@,
        }
    }
}

impl Unmarshal for OperationalHaltStatus {
    open spec fn fits(b: Seq<u8>) -> bool {
        b.len() >= OPERATIONAL_HALT_STATUS_LEN
    }

    open spec fn model_of(b: Seq<u8>) -> OperationalHaltStatusModel {
        OperationalHaltStatusModel {
            message_type: b[0],
            operational_halt_status: b[1],
            timestamp: system_timestamp(b.subrange(2, 10)),
            symbol: ascii_trimmed(b.subrange(10, 18)),
        }
    }

    fn unmarshal(buf: &[u8]) -> (r: Result<OperationalHaltStatus, DecodeError>) {
        if buf.len() < OPERATIONAL_HALT_STATUS_LEN {
            return Err(DecodeError::TruncatedBuffer);
        }
        Ok(OperationalHaltStatus {
            message_type: buf[0],
            operational_halt_status: buf[1],
            timestamp: timestamp_at(buf, 2),
            symbol: ascii_at(buf, 10, 8),
        })
    }
}

/// The length of a short sale price test status block.
pub const SHORT_SALE_PRICE_TEST_STATUS_LEN: usize = 19;

/// A short sale price test status block.
#[derive(Clone, Debug, PartialEq)]
pub struct ShortSalePriceTestStatus {
    /// The type tag of the block.
    pub message_type: u8,
    /// Whether the short sale price test is in effect: byte 1 of the
    /// block, any nonzero value meaning that it is.
    pub short_sale_price_test_status: bool,
    /// The time of the update as set by the IEX Trading System logic.
    pub timestamp: Timestamp,
    /// Security represented in Nasdaq integrated symbology.
    pub symbol: Vec<char>,
    /// Why the test was activated or deactivated.
    pub detail: u8,
}

/// What a `ShortSalePriceTestStatus` holds, with its character fields as sequences.
pub struct ShortSalePriceTestStatusModel {
    pub message_type: u8,
    pub short_sale_price_test_status: bool,
    pub timestamp: Timestamp,
    pub symbol: Seq<char>,
    pub detail: u8,
}

impl View for ShortSalePriceTestStatus {
    type V = ShortSalePriceTestStatusModel;

    open spec fn view(&self) -> ShortSalePriceTestStatusModel {
        ShortSalePriceTestStatusModel {
            message_type: self.message_type,
            short_sale_price_test_status: self.short_sale_price_test_status,
            timestamp: self.timestamp,
            symbol: self.symbol@,
            detail: self.detail,
        }
    }
}

impl Unmarshal for ShortSalePriceTestStatus {
    open spec fn fits(b: Seq<u8>) -> bool {
        b.len() >= SHORT_SALE_PRICE_TEST_STATUS_LEN
    }

    open spec fn model_of(b: Seq<u8>) -> ShortSalePriceTestStatusModel {
        ShortSalePriceTestStatusModel {
            message_type: b[0],
            short_sale_price_test_status: b[1] != 0,
            timestamp: system_timestamp(b.subrange(2, 10)),
            symbol: ascii_trimmed(b.subrange(10, 18)),
            detail: b[18],
        }
    }

    fn unmarshal(buf: &[u8]) -> (r: Result<ShortSalePriceTestStatus, DecodeError>) {
        if buf.len() < SHORT_SALE_PRICE_TEST_STATUS_LEN {
            return Err(DecodeError::TruncatedBuffer);
        }
        Ok(ShortSalePriceTestStatus {
            message_type: buf[0],
            short_sale_price_test_status: buf[1] != 0,
            timestamp: timestamp_at(buf, 2),
            symbol: ascii_at(buf, 10, 8),
            detail: buf[18],
        })
    }
}

/// The length of a quote update block.
pub const QUOTE_UPDATE_LEN: usize = 42;

/// A quote update block.
#[derive(Clone, Debug, PartialEq)]
pub struct QuoteUpdate {
    /// The type tag of the block.
    pub message_type: u8,
    /// Quote flags (symbol availability, market session).
    pub flags: u8,
    /// The time an event triggered the quote update as set by the IEX
    /// Trading System logic.
    pub timestamp: Timestamp,
    /// Quoted symbol representation in Nasdaq integrated symbology.
    pub symbol: Vec<char>,
    /// Size of the quote at the bid, in number of shares.
    pub bid_size: u32,
    /// Price of the quote at the bid.
    pub bid_price: FixedPrice,
    /// Price of the quote at the ask.
    pub ask_price: FixedPrice,
    /// Size of the quote at the ask, in number of shares.
    pub ask_size: u32,
}

/// What a `QuoteUpdate` holds, with its character fields as sequences.
pub struct QuoteUpdateModel {
    pub message_type: u8,
    pub flags: u8,
    pub timestamp: Timestamp,
    pub symbol: Seq<char>,
    pub bid_size: u32,
    pub bid_price: FixedPrice,
    pub ask_price: FixedPrice,
    pub ask_size: u32,
}

impl View for QuoteUpdate {
    type V = QuoteUpdateModel;

    open spec fn view(&self) -> QuoteUpdateModel {
        QuoteUpdateModel {
            message_type: self.message_type,
            flags: self.flags,
            timestamp: self.timestamp,
            symbol: self.symbol@,
            bid_size: self.bid_size,
            bid_price: self.bid_price,
            ask_price: self.ask_price,
            ask_size: self.ask_size,
        }
    }
}

impl Unmarshal for QuoteUpdate {
    open spec fn fits(b: Seq<u8>) -> bool {
        b.len() >= QUOTE_UPDATE_LEN
    }

    open spec fn model_of(b: Seq<u8>) -> QuoteUpdateModel {
        QuoteUpdateModel {
            message_type: b[0],
            flags: b[1],
            timestamp: system_timestamp(b.subrange(2, 10)),
            symbol: ascii_trimmed(b.subrange(10, 18)),
            bid_size: le_u32(b.subrange(18, 22)),
            bid_price: price_of(b.subrange(22, 30)),
            ask_price: price_of(b.subrange(30, 38)),
            ask_size: le_u32(b.subrange(38, 42)),
        }
    }

    fn unmarshal(buf: &[u8]) -> (r: Result<QuoteUpdate, DecodeError>) {
        if buf.len() < QUOTE_UPDATE_LEN {
            return Err(DecodeError::TruncatedBuffer);
        }
        Ok(QuoteUpdate {
            message_type: buf[0],
            flags: buf[1],
            timestamp: timestamp_at(buf, 2),
            symbol: ascii_at(buf, 10, 8),
            bid_size: u32_at(buf, 18),
            bid_price: price_at(buf, 22),
            ask_price: price_at(buf, 30),
            ask_size: u32_at(buf, 38),
        })
    }
}

/// The length of a trade report block.
pub const TRADE_REPORT_LEN: usize = 38;

/// A trade report block.
#[derive(Clone, Debug, PartialEq)]
pub struct TradeReport {
    /// The type tag of the block.
    pub message_type: u8,
    /// Sale condition flags.
    pub sale_condition_flags: u8,
    /// The time an event triggered the trade (i.e., execution) as set by
    /// the IEX Trading System logic.
    pub timestamp: Timestamp,
    /// Traded symbol represented in Nasdaq integrated symbology.
    pub symbol: Vec<char>,
    /// Size of the trade, in number of shares.
    pub size: u32,
    /// Execution price.
    pub price: FixedPrice,
    /// IEX generated trade identifier, unique within a day.
    pub trade_id: i64,
}

/// What a `TradeReport` holds, with its character fields as sequences.
pub struct TradeReportModel {
    pub message_type: u8,
    pub sale_condition_flags: u8,
    pub timestamp: Timestamp,
    pub symbol: Seq<char>,
    pub size: u32,
    pub price: FixedPrice,
    pub trade_id: i64,
}

impl View for TradeReport {
    type V = TradeReportModel;

    open spec fn view(&self) -> TradeReportModel {
        TradeReportModel {
            message_type: self.message_type,
            sale_condition_flags: self.sale_condition_flags,
            timestamp: self.timestamp,
            symbol: self.symbol@,
            size: self.size,
            price: self.price,
            trade_id: self.trade_id,
        }
    }
}

impl Unmarshal for TradeReport {
    open spec fn fits(b: Seq<u8>) -> bool {
        b.len() >= TRADE_REPORT_LEN
    }

    open spec fn model_of(b: Seq<u8>) -> TradeReportModel {
        TradeReportModel {
            message_type: b[0],
            sale_condition_flags: b[1],
            timestamp: system_timestamp(b.subrange(2, 10)),
            symbol: ascii_trimmed(b.subrange(10, 18)),
            size: le_u32(b.subrange(18, 22)),
            price: price_of(b.subrange(22, 30)),
            trade_id: le_i64(b.subrange(30, 38)),
        }
    }

    fn unmarshal(buf: &[u8]) -> (r: Result<TradeReport, DecodeError>) {
        if buf.len() < TRADE_REPORT_LEN {
            return Err(DecodeError::TruncatedBuffer);
        }
        Ok(TradeReport {
            message_type: buf[0],
            sale_condition_flags: buf[1],
            timestamp: timestamp_at(buf, 2),
            symbol: ascii_at(buf, 10, 8),
            size: u32_at(buf, 18),
            price: price_at(buf, 22),
            trade_id: to_signed(u64_at(buf, 30)),
        })
    }
}

/// The length of an official price block.
pub const OFFICIAL_PRICE_LEN: usize = 26;

/// An official price block.
#[derive(Clone, Debug, PartialEq)]
pub struct OfficialPrice {
    /// The type tag of the block.
    pub message_type: u8,
    /// Price type identifier (opening or closing price).
    pub price_type: u8,
    /// The time an event triggered the official price calculation (e.g.,
    /// auction match) as set by the IEX Trading System logic.
    pub timestamp: Timestamp,
    /// Security represented in Nasdaq Integrated symbology.
    pub symbol: Vec<char>,
    /// IEX Official Opening or Closing price of an IEX-listed security.
    pub official_price: FixedPrice,
}

/// What a `OfficialPrice` holds, with its character fields as sequences.
pub struct OfficialPriceModel {
    pub message_type: u8,
    pub price_type: u8,
    pub timestamp: Timestamp,
    pub symbol: Seq<char>,
    pub official_price: FixedPrice,
}

impl View for OfficialPrice {
    type V = OfficialPriceModel;

    open spec fn view(&self) -> OfficialPriceModel {
        OfficialPriceModel {
            message_type: self.message_type,
            price_type: self.price_type,
            timestamp: self.timestamp,
            symbol: self.symbol@,
            official_price: self.official_price,
        }
    }
}

impl Unmarshal for OfficialPrice {
    open spec fn fits(b: Seq<u8>) -> bool {
        b.len() >= OFFICIAL_PRICE_LEN
    }

    open spec fn model_of(b: Seq<u8>) -> OfficialPriceModel {
        OfficialPriceModel {
            message_type: b[0],
            price_type: b[1],
            timestamp: system_timestamp(b.subrange(2, 10)),
            symbol: ascii_trimmed(b.subrange(10, 18)),
            official_price: price_of(b.subrange(18, 26)),
        }
    }

    fn unmarshal(buf: &[u8]) -> (r: Result<OfficialPrice, DecodeError>) {
        if buf.len() < OFFICIAL_PRICE_LEN {
            return Err(DecodeError::TruncatedBuffer);
        }
        Ok(OfficialPrice {
            message_type: buf[0],
            price_type: buf[1],
            timestamp: timestamp_at(buf, 2),
            symbol: ascii_at(buf, 10, 8),
            official_price: price_at(buf, 18),
        })
    }
}

/// The length of a trade break block.
pub const TRADE_BREAK_LEN: usize = 38;

/// A trade break block.
#[derive(Clone, Debug, PartialEq)]
pub struct TradeBreak {
    /// The type tag of the block.
    pub message_type: u8,
    /// Sale condition flags.
    pub sale_condition_flags: u8,
    /// The time an event triggered the trade (i.e., execution) as set by
    /// the IEX Trading System logic.
    pub timestamp: Timestamp,
    /// Traded symbol represented in Nasdaq integrated symbology.
    pub symbol: Vec<char>,
    /// Size of the trade, in number of shares.
    pub size: u32,
    /// Execution price.
    pub price: FixedPrice,
    /// IEX generated trade identifier of the trade that is broken.
    pub trade_id: i64,
}

/// What a `TradeBreak` holds, with its character fields as sequences.
pub struct TradeBreakModel {
    pub message_type: u8,
    pub sale_condition_flags: u8,
    pub timestamp: Timestamp,
    pub symbol: Seq<char>,
    pub size: u32,
    pub price: FixedPrice,
    pub trade_id: i64,
}

impl View for TradeBreak {
    type V = TradeBreakModel;

    open spec fn view(&self) -> TradeBreakModel {
        TradeBreakModel {
            message_type: self.message_type,
            sale_condition_flags: self.sale_condition_flags,
            timestamp: self.timestamp,
            symbol: self.symbol@,
            size: self.size,
            price: self.price,
            trade_id: self.trade_id,
        }
    }
}

impl Unmarshal for TradeBreak {
    open spec fn fits(b: Seq<u8>) -> bool {
        b.len() >= TRADE_BREAK_LEN
    }

    open spec fn model_of(b: Seq<u8>) -> TradeBreakModel {
        TradeBreakModel {
            message_type: b[0],
            sale_condition_flags: b[1],
            timestamp: system_timestamp(b.subrange(2, 10)),
            symbol: ascii_trimmed(b.subrange(10, 18)),
            size: le_u32(b.subrange(18, 22)),
            price: price_of(b.subrange(22, 30)),
            trade_id: le_i64(b.subrange(30, 38)),
        }
    }

    fn unmarshal(buf: &[u8]) -> (r: Result<TradeBreak, DecodeError>) {
        if buf.len() < TRADE_BREAK_LEN {
            return Err(DecodeError::TruncatedBuffer);
        }
        Ok(TradeBreak {
            message_type: buf[0],
            sale_condition_flags: buf[1],
            timestamp: timestamp_at(buf, 2),
            symbol: ascii_at(buf, 10, 8),
            size: u32_at(buf, 18),
            price: price_at(buf, 22),
            trade_id: to_signed(u64_at(buf, 30)),
        })
    }
}

/// The length of an auction information block.
pub const AUCTION_INFORMATION_LEN: usize = 80;

/// An auction information block.
#[derive(Clone, Debug, PartialEq)]
pub struct AuctionInformation {
    /// The type tag of the block.
    pub message_type: u8,
    /// Auction type identifier.
    pub auction_type: u8,
    /// The time of the update event as set by the IEX Trading System logic.
    pub timestamp: Timestamp,
    /// IEX-listed security represented in Nasdaq integrated symbology.
    pub symbol: Vec<char>,
    /// Number of shares paired at the reference price using orders on the
    /// Auction Book.
    pub paired_shares: u32,
    /// Clearing price at or within the reference price range using orders
    /// on the Auction Book.
    pub reference_price: FixedPrice,
    /// Clearing price using Eligible Auction Orders.
    pub indicative_clearing_price: FixedPrice,
    /// Number of unpaired shares at the reference price, using orders on
    /// the Auction Book.
    pub imbalance_shares: u32,
    /// Side of the imbalance.
    pub imbalance_side: u8,
    /// Total number of automatic extensions an IPO, Halt, or Volatility
    /// auction has received.
    pub extension_number: u8,
    /// Projected time of the auction match.
    pub scheduled_auction_time: Timestamp,
    /// Clearing price using orders on the Auction Book.
    pub auction_book_clearing_price: FixedPrice,
    /// Reference price used for the auction collar, if any.
    pub collar_reference_price: FixedPrice,
    /// Lower threshold price of the auction collar, if any.
    pub lower_auction_collar: FixedPrice,
    /// Upper threshold price of the auction collar, if any.
    pub upper_auction_collar: FixedPrice,
}

/// What a `AuctionInformation` holds, with its character fields as sequences.
pub struct AuctionInformationModel {
    pub message_type: u8,
    pub auction_type: u8,
    pub timestamp: Timestamp,
    pub symbol: Seq<char>,
    pub paired_shares: u32,
    pub reference_price: FixedPrice,
    pub indicative_clearing_price: FixedPrice,
    pub imbalance_shares: u32,
    pub imbalance_side: u8,
    pub extension_number: u8,
    pub scheduled_auction_time: Timestamp,
    pub auction_book_clearing_price: FixedPrice,
    pub collar_reference_price: FixedPrice,
    pub lower_auction_collar: FixedPrice,
    pub upper_auction_collar: FixedPrice,
}

impl View for AuctionInformation {
    type V = AuctionInformationModel;

    open spec fn view(&self) -> AuctionInformationModel {
        AuctionInformationModel {
            message_type: self.message_type,
            auction_type: self.auction_type,
            timestamp: self.timestamp,
            symbol: self.symbol@,
            paired_shares: self.paired_shares,
            reference_price: self.reference_price,
            indicative_clearing_price: self.indicative_clearing_price,
            imbalance_shares: self.imbalance_shares,
            imbalance_side: self.imbalance_side,
            extension_number: self.extension_number,
            scheduled_auction_time: self.scheduled_auction_time,
            auction_book_clearing_price: self.auction_book_clearing_price,
            collar_reference_price: self.collar_reference_price,
            lower_auction_collar: self.lower_auction_collar,
            upper_auction_collar: self.upper_auction_collar,
        }
    }
}

impl Unmarshal for AuctionInformation {
    open spec fn fits(b: Seq<u8>) -> bool {
        b.len() >= AUCTION_INFORMATION_LEN
    }

    open spec fn model_of(b: Seq<u8>) -> AuctionInformationModel {
        AuctionInformationModel {
            message_type: b[0],
            auction_type: b[1],
            timestamp: system_timestamp(b.subrange(2, 10)),
            symbol: ascii_trimmed(b.subrange(10, 18)),
            paired_shares: le_u32(b.subrange(18, 22)),
            reference_price: price_of(b.subrange(22, 30)),
            indicative_clearing_price: price_of(b.subrange(30, 38)),
            imbalance_shares: le_u32(b.subrange(38, 42)),
            imbalance_side: b[42],
            extension_number: b[43],
            scheduled_auction_time: event_time(b.subrange(44, 48)),
            auction_book_clearing_price: price_of(b.subrange(48, 56)),
            collar_reference_price: price_of(b.subrange(56, 64)),
            lower_auction_collar: price_of(b.subrange(64, 72)),
            upper_auction_collar: price_of(b.subrange(72, 80)),
        }
    }

    fn unmarshal(buf: &[u8]) -> (r: Result<AuctionInformation, DecodeError>) {
        if buf.len() < AUCTION_INFORMATION_LEN {
            return Err(DecodeError::TruncatedBuffer);
        }
        Ok(AuctionInformation {
            message_type: buf[0],
            auction_type: buf[1],
            timestamp: timestamp_at(buf, 2),
            symbol: ascii_at(buf, 10, 8),
            paired_shares: u32_at(buf, 18),
            reference_price: price_at(buf, 22),
            indicative_clearing_price: price_at(buf, 30),
            imbalance_shares: u32_at(buf, 38),
            imbalance_side: buf[42],
            extension_number: buf[43],
            scheduled_auction_time: event_time_at(buf, 44),
            auction_book_clearing_price: price_at(buf, 48),
            collar_reference_price: price_at(buf, 56),
            lower_auction_collar: price_at(buf, 64),
            upper_auction_collar: price_at(buf, 72),
        })
    }
}

/// A message block of the TOPS feed, by its type tag.
#[derive(Clone, Debug, PartialEq)]
pub enum Message {
    // Administrative message formats.
    SystemEvent(SystemEvent),
    SecurityDirectory(SecurityDirectory),
    TradingStatus(TradingStatus),
    OperationalHaltStatus(OperationalHaltStatus),
    ShortSalePriceTestStatus(ShortSalePriceTestStatus),
    // Trading message formats.
    QuoteUpdate(QuoteUpdate),
    TradeReport(TradeReport),
    TradeBreak(TradeBreak),
    OfficialPrice(OfficialPrice),
    // Auction message formats.
    AuctionInformation(AuctionInformation),
    /// A block whose tag TOPS does not list, with all of its bytes.
    Unsupported(Vec<u8>),
}

/// What a `Message` holds.
pub enum MessageModel {
    SystemEvent(SystemEventModel),
    SecurityDirectory(SecurityDirectoryModel),
    TradingStatus(TradingStatusModel),
    OperationalHaltStatus(OperationalHaltStatusModel),
    ShortSalePriceTestStatus(ShortSalePriceTestStatusModel),
    QuoteUpdate(QuoteUpdateModel),
    TradeReport(TradeReportModel),
    TradeBreak(TradeBreakModel),
    OfficialPrice(OfficialPriceModel),
    AuctionInformation(AuctionInformationModel),
    Unsupported(Seq<u8>),
}

impl View for Message {
    type V = MessageModel;

    open spec fn view(&self) -> MessageModel {
        match self {
            Message::SystemEvent(m) => MessageModel::SystemEvent(m@),
            Message::SecurityDirectory(m) => MessageModel::SecurityDirectory(m@),
            Message::TradingStatus(m) => MessageModel::TradingStatus(m@),
            Message::OperationalHaltStatus(m) => MessageModel::OperationalHaltStatus(m@),
            Message::ShortSalePriceTestStatus(m) => MessageModel::ShortSalePriceTestStatus(m@),
            Message::QuoteUpdate(m) => MessageModel::QuoteUpdate(m@),
            Message::TradeReport(m) => MessageModel::TradeReport(m@),
            Message::TradeBreak(m) => MessageModel::TradeBreak(m@),
            Message::OfficialPrice(m) => MessageModel::OfficialPrice(m@),
            Message::AuctionInformation(m) => MessageModel::AuctionInformation(m@),
            Message::Unsupported(bytes) => MessageModel::Unsupported(bytes@),
        }
    }
}

/// The length of the block that `tag` opens in TOPS, for the tags that TOPS
/// lists; `None` for any other tag.
pub open spec fn block_len(tag: u8) -> Option<nat> {
    if tag == 0x53 {
        Some(SYSTEM_EVENT_LEN as nat)
    } else if tag == 0x44 {
        Some(SECURITY_DIRECTORY_LEN as nat)
    } else if tag == 0x48 {
        Some(TRADING_STATUS_LEN as nat)
    } else if tag == 0x4f {
        Some(OPERATIONAL_HALT_STATUS_LEN as nat)
    } else if tag == 0x50 {
        Some(SHORT_SALE_PRICE_TEST_STATUS_LEN as nat)
    } else if tag == 0x51 {
        Some(QUOTE_UPDATE_LEN as nat)
    } else if tag == 0x54 {
        Some(TRADE_REPORT_LEN as nat)
    } else if tag == 0x42 {
        Some(TRADE_BREAK_LEN as nat)
    } else if tag == 0x58 {
        Some(OFFICIAL_PRICE_LEN as nat)
    } else if tag == 0x41 {
        Some(AUCTION_INFORMATION_LEN as nat)
    } else {
        None
    }
}

/// The length of the block that `tag` opens in TOPS, if TOPS lists the tag.
pub fn block_len_of(tag: u8) -> (r: Option<usize>)
    ensures
        r matches Some(n) ==> block_len(tag) == Some(n as nat),
        r is None <==> block_len(tag) is None,
{
    match tag {
        0x53 => Some(SYSTEM_EVENT_LEN),
        0x44 => Some(SECURITY_DIRECTORY_LEN),
        0x48 => Some(TRADING_STATUS_LEN),
        0x4f => Some(OPERATIONAL_HALT_STATUS_LEN),
        0x50 => Some(SHORT_SALE_PRICE_TEST_STATUS_LEN),
        0x51 => Some(QUOTE_UPDATE_LEN),
        0x54 => Some(TRADE_REPORT_LEN),
        0x42 => Some(TRADE_BREAK_LEN),
        0x58 => Some(OFFICIAL_PRICE_LEN),
        0x41 => Some(AUCTION_INFORMATION_LEN),
        _ => None,
    }
}

impl Unmarshal for Message {
    /// A block needs its tag, and then as many bytes as its type's layout.
    open spec fn fits(b: Seq<u8>) -> bool {
        &&& b.len() > 0
        &&& block_len(b[0]) matches Some(n) ==> b.len() >= n
    }

    open spec fn model_of(b: Seq<u8>) -> MessageModel {
        let tag = b[0];
        if tag == 0x53 {
            MessageModel::SystemEvent(SystemEvent::model_of(b))
        } else if tag == 0x44 {
            MessageModel::SecurityDirectory(SecurityDirectory::model_of(b))
        } else if tag == 0x48 {
            MessageModel::TradingStatus(TradingStatus::model_of(b))
        } else if tag == 0x4f {
            MessageModel::OperationalHaltStatus(OperationalHaltStatus::model_of(b))
        } else if tag == 0x50 {
            MessageModel::ShortSalePriceTestStatus(ShortSalePriceTestStatus::model_of(b))
        } else if tag == 0x51 {
            MessageModel::QuoteUpdate(QuoteUpdate::model_of(b))
        } else if tag == 0x54 {
            MessageModel::TradeReport(TradeReport::model_of(b))
        } else if tag == 0x42 {
            MessageModel::TradeBreak(TradeBreak::model_of(b))
        } else if tag == 0x58 {
            MessageModel::OfficialPrice(OfficialPrice::model_of(b))
        } else if tag == 0x41 {
            MessageModel::AuctionInformation(AuctionInformation::model_of(b))
        } else {
            MessageModel::Unsupported(b)
        }
    }

    fn unmarshal(buf: &[u8]) -> (r: Result<Message, DecodeError>) {
        if buf.len() == 0 {
            return Err(DecodeError::TruncatedBuffer);
        }
        match buf[0] {
            0x53 => Ok(Message::SystemEvent(SystemEvent::unmarshal(buf)?)),
            0x44 => Ok(Message::SecurityDirectory(SecurityDirectory::unmarshal(buf)?)),
            0x48 => Ok(Message::TradingStatus(TradingStatus::unmarshal(buf)?)),
            0x4f => Ok(Message::OperationalHaltStatus(OperationalHaltStatus::unmarshal(buf)?)),
            0x50 => Ok(Message::ShortSalePriceTestStatus(ShortSalePriceTestStatus::unmarshal(buf)?)),
            0x51 => Ok(Message::QuoteUpdate(QuoteUpdate::unmarshal(buf)?)),
            0x54 => Ok(Message::TradeReport(TradeReport::unmarshal(buf)?)),
            0x42 => Ok(Message::TradeBreak(TradeBreak::unmarshal(buf)?)),
            0x58 => Ok(Message::OfficialPrice(OfficialPrice::unmarshal(buf)?)),
            0x41 => Ok(Message::AuctionInformation(AuctionInformation::unmarshal(buf)?)),
            _ => Ok(Message::Unsupported(slice_to_vec(buf))),
        }
    }
}

/// The system event identifiers of a system event block.
#[derive(Clone, Copy, Debug, PartialEq, Eq, Structural)]
pub enum SystemEventType {
    /// Outside of heartbeat messages on the lower level protocol, the start of
    /// day message is the first message in any trading session.
    StartOfMessages,
    /// IEX is open and ready to start accepting orders.
    StartOfSystemHours,
    /// DAY and GTX orders, as well as market orders and pegged orders, are
    /// available for execution on IEX.
    StartOfRegularMarketHours,
    /// DAY orders, market orders, and pegged orders are no longer accepted by
    /// IEX.
    EndOfRegularMarketHours,
    /// IEX is now closed and will not accept any new orders during this trading
    /// session. It is still possible to receive messages after the end of day.
    EndOfSystemHours,
    /// Always the last message sent in any trading session.
    EndOfMessages,
}

impl SystemEventType {
    /// The byte that stands for this event on the wire.
    pub open spec fn spec_code(self) -> u8 {
        match self {
            SystemEventType::StartOfMessages => 0x4f,
            SystemEventType::StartOfSystemHours => 0x53,
            SystemEventType::StartOfRegularMarketHours => 0x52,
            SystemEventType::EndOfRegularMarketHours => 0x4d,
            SystemEventType::EndOfSystemHours => 0x45,
            SystemEventType::EndOfMessages => 0x43,
        }
    }

    pub fn code(&self) -> (r: u8)
        ensures
            r == self.spec_code(),
    {
        match self {
            SystemEventType::StartOfMessages => 0x4f,
            SystemEventType::StartOfSystemHours => 0x53,
            SystemEventType::StartOfRegularMarketHours => 0x52,
            SystemEventType::EndOfRegularMarketHours => 0x4d,
            SystemEventType::EndOfSystemHours => 0x45,
            SystemEventType::EndOfMessages => 0x43,
        }
    }
}

/// The Limit Up-Limit Down tiers of a security directory block.
#[derive(Clone, Copy, Debug, PartialEq, Eq, Structural)]
pub enum LULD {
    /// Not applicable.
    Tier0,
    /// Tier 1 NMS Stock.
    Tier1,
    /// Tier 2 NMS Stock.
    Tier2,
}

impl LULD {
    /// The byte that stands for this tier on the wire.
    pub open spec fn spec_code(self) -> u8 {
        match self {
            LULD::Tier0 => 0x0,
            LULD::Tier1 => 0x1,
            LULD::Tier2 => 0x2,
        }
    }

    pub fn code(&self) -> (r: u8)
        ensures
            r == self.spec_code(),
    {
        match self {
            LULD::Tier0 => 0x0,
            LULD::Tier1 => 0x1,
            LULD::Tier2 => 0x2,
        }
    }
}

} // verus!
