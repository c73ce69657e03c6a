//! Primitive codecs: the fixed-width fields that every message block is built
//! from. All integers on the wire are little-endian.
use vstd::prelude::*;

verus! {

/// Why a buffer could not be decoded.
#[derive(Clone, Copy, Debug, PartialEq, Eq, Structural)]
pub enum DecodeError {
    /// The buffer does not hold the layout that its type calls for: it is
    /// too short, or, for a field of exact width, of another length.
    TruncatedBuffer,
}

/// Nanoseconds in one second.
pub const NANOS_PER_SECOND: u64 = 1_000_000_000;

/// Price fields carry the price multiplied by this factor.
pub const PRICE_SCALE: i64 = 10_000;

/// The unsigned value of the first two bytes of `b`, least significant first.
pub open spec fn le_u16(b: Seq<u8>) -> u16 {
    (b[0] as int + b[1] as int * 0x100) as u16
}

/// The unsigned value of the first four bytes of `b`, least significant first.
pub open spec fn le_u32(b: Seq<u8>) -> u32 {
    (b[0] as int + b[1] as int * 0x100 + b[2] as int * 0x1_0000 + b[3] as int * 0x100_0000) as u32
}

/// The unsigned value of the first eight bytes of `b`, least significant first.
pub open spec fn le_u64(b: Seq<u8>) -> u64 {
    (b[0] as int + b[1] as int * 0x100 + b[2] as int * 0x1_0000 + b[3] as int * 0x100_0000
        + b[4] as int * 0x1_0000_0000 + b[5] as int * 0x100_0000_0000
        + b[6] as int * 0x1_0000_0000_0000 + b[7] as int * 0x100_0000_0000_0000) as u64
}

/// The two's-complement reading of the 64 bits of `v`.
pub open spec fn as_signed(v: u64) -> i64 {
    if v < 0x8000_0000_0000_0000 {
        v as i64
    } else {
        (v - 0x1_0000_0000_0000_0000) as i64
    }
}

/// The signed value of the first eight bytes of `b`, least significant first.
pub open spec fn le_i64(b: Seq<u8>) -> i64 {
    as_signed(le_u64(b))
}

/// Reads the two bytes of `buf` that start at `at`.
pub(crate) fn u16_at(buf: &[u8], at: usize) -> (r: u16)
    requires
        at + 2 <= buf@.len(),
    ensures
        r == le_u16(buf@.subrange(at as int, at + 2)),
{
    (buf[at] as u16) + (buf[at + 1] as u16) * 0x100
}

/// Reads the four bytes of `buf` that start at `at`.
pub(crate) fn u32_at(buf: &[u8], at: usize) -> (r: u32)
    requires
        at + 4 <= buf@.len(),
    ensures
        r == le_u32(buf@.subrange(at as int, at + 4)),
{
    (buf[at] as u32) + (buf[at + 1] as u32) * 0x100 + (buf[at + 2] as u32) * 0x1_0000
        + (buf[at + 3] as u32) * 0x100_0000
}

/// Reads the eight bytes of `buf` that start at `at`, as an unsigned value.
pub(crate) fn u64_at(buf: &[u8], at: usize) -> (r: u64)
    requires
        at + 8 <= buf@.len(),
    ensures
        r == le_u64(buf@.subrange(at as int, at + 8)),
{
    (buf[at] as u64) + (buf[at + 1] as u64) * 0x100 + (buf[at + 2] as u64) * 0x1_0000
        + (buf[at + 3] as u64) * 0x100_0000 + (buf[at + 4] as u64) * 0x1_0000_0000
        + (buf[at + 5] as u64) * 0x100_0000_0000 + (buf[at + 6] as u64) * 0x1_0000_0000_0000
        + (buf[at + 7] as u64) * 0x100_0000_0000_0000
}

/// The two's-complement reading of `v`.
pub(crate) fn to_signed(v: u64) -> (r: i64)
    ensures
        r == as_signed(v),
{
    if v < 0x8000_0000_0000_0000 {
        v as i64
    } else {
        -((u64::MAX - v) as i64) - 1
    }
}

/// An instant in UTC, as whole seconds since the Unix epoch and the nanoseconds
/// past that second.
#[derive(Clone, Copy, Debug, PartialEq, Eq, Structural)]
pub struct Timestamp {
    pub seconds: i64,
    pub nanoseconds: u32,
}

impl Timestamp {
    /// Nanoseconds past the second never reach a whole second.
    pub open spec fn wf(self) -> bool {
        self.nanoseconds < NANOS_PER_SECOND
    }

    pub fn new(seconds: i64, nanoseconds: u32) -> (r: Timestamp)
        ensures
            r == (Timestamp { seconds, nanoseconds }),
    {
        Timestamp { seconds, nanoseconds }
    }
}

/// A fixed-point price: `scaled` is the price multiplied by 10 000.
#[derive(Clone, Copy, Debug, PartialEq, Eq, Structural)]
pub struct FixedPrice {
    pub scaled: i64,
}

impl FixedPrice {
    pub fn from_scaled(scaled: i64) -> (r: FixedPrice)
        ensures
            r == (FixedPrice { scaled }),
    {
        FixedPrice { scaled }
    }
}

/// The instant `v` nanoseconds after the Unix epoch.
pub open spec fn instant_of_nanos(v: u64) -> Timestamp {
    Timestamp {
        seconds: (v / NANOS_PER_SECOND) as i64,
        nanoseconds: (v % NANOS_PER_SECOND) as u32,
    }
}

/// A system timestamp: eight bytes of nanoseconds since the Unix epoch.
pub open spec fn system_timestamp(b: Seq<u8>) -> Timestamp {
    instant_of_nanos(le_u64(b))
}

/// An event time: four bytes of whole seconds since the Unix epoch.
pub open spec fn event_time(b: Seq<u8>) -> Timestamp {
    Timestamp { seconds: le_u32(b) as i64, nanoseconds: 0 }
}

/// A price field: eight bytes of the signed price times 10 000.
pub open spec fn price_of(b: Seq<u8>) -> FixedPrice {
    FixedPrice { scaled: le_i64(b) }
}

/// The bytes of `b` read as characters, in order, with every space left out.
pub open spec fn ascii_trimmed(b: Seq<u8>) -> Seq<char>
    decreases b.len(),
{
    if b.len() == 0 {
        Seq::empty()
    } else {
        let rest = ascii_trimmed(b.drop_last());
        if b.last() == 0x20u8 {
            rest
        } else {
            rest.push(b.last() as char)
        }
    }
}

/// Reads the system timestamp of `buf` that starts at `at`.
pub(crate) fn timestamp_at(buf: &[u8], at: usize) -> (r: Timestamp)
    requires
        at + 8 <= buf@.len(),
    ensures
        r == system_timestamp(buf@.subrange(at as int, at + 8)),
        r.wf(),
{
    let v = u64_at(buf, at);
    Timestamp { seconds: (v / NANOS_PER_SECOND) as i64, nanoseconds: (v % NANOS_PER_SECOND) as u32 }
}

/// Reads the event time of `buf` that starts at `at`.
pub(crate) fn event_time_at(buf: &[u8], at: usize) -> (r: Timestamp)
    requires
        at + 4 <= buf@.len(),
    ensures
        r == event_time(buf@.subrange(at as int, at + 4)),
        r.wf(),
{
    Timestamp { seconds: u32_at(buf, at) as i64, nanoseconds: 0 }
}

/// Reads the price of `buf` that starts at `at`.
pub(crate) fn price_at(buf: &[u8], at: usize) -> (r: FixedPrice)
    requires
        at + 8 <= buf@.len(),
    ensures
        r == price_of(buf@.subrange(at as int, at + 8)),
{
    FixedPrice { scaled: to_signed(u64_at(buf, at)) }
}

/// Reads the `len` bytes of `buf` that start at `at` as characters, leaving
/// out the spaces.
pub(crate) fn ascii_at(buf: &[u8], at: usize, len: usize) -> (r: Vec<char>)
    requires
        at + len <= buf@.len(),
    ensures
        r@ == ascii_trimmed(buf@.subrange(at as int, at + len)),
{
    let mut out: Vec<char> = Vec::new();
    let n: usize = buf.len();
    let mut i: usize = 0;
    while i < len
        invariant
            i <= len,
            at + len <= buf@.len(),
            n == buf@.len(),
            out@ == ascii_trimmed(buf@.subrange(at as int, at + i)),
        decreases len - i,
    {
        let c = buf[at + i];
        proof {
            let next = buf@.subrange(at as int, at + i + 1);
            assert(next.drop_last() == buf@.subrange(at as int, at + i));
            assert(next.last() == c);
        }
        if c != 0x20 {
            out.push(c as char);
        }
        i = i + 1;
    }
    out
}

/// The characters of `buf`, in order, with every space (0x20) left out. Any
/// other byte stands for the character of that code.
pub fn decode_ascii_trimmed(buf: &[u8]) -> (r: Vec<char>)
    ensures
        r@ == ascii_trimmed(buf@),
{
    proof {
        assert(buf@.subrange(0, buf@.len() as int) == buf@);
    }
    ascii_at(buf, 0, buf.len())
}

/// The little-endian `u32` that the first four bytes of `buf` hold.
pub fn decode_u32(buf: &[u8]) -> (r: Result<u32, DecodeError>)
    ensures
        buf@.len() < 4 ==> r == Err::<u32, DecodeError>(DecodeError::TruncatedBuffer),
        buf@.len() >= 4 ==> r == Ok::<u32, DecodeError>(le_u32(buf@)),
{
    if buf.len() < 4 {
        return Err(DecodeError::TruncatedBuffer);
    }
    Ok(u32_at(buf, 0))
}

/// The little-endian `u64` that the first eight bytes of `buf` hold.
pub fn decode_u64(buf: &[u8]) -> (r: Result<u64, DecodeError>)
    ensures
        buf@.len() < 8 ==> r == Err::<u64, DecodeError>(DecodeError::TruncatedBuffer),
        buf@.len() >= 8 ==> r == Ok::<u64, DecodeError>(le_u64(buf@)),
{
    if buf.len() < 8 {
        return Err(DecodeError::TruncatedBuffer);
    }
    Ok(u64_at(buf, 0))
}

/// The price that the eight bytes of `buf` hold. A price field is exactly
/// eight bytes wide: a buffer of any other length is refused as truncated.
pub fn decode_price(buf: &[u8]) -> (r: Result<FixedPrice, DecodeError>)
    ensures
        buf@.len() != 8 ==> r == Err::<FixedPrice, DecodeError>(DecodeError::TruncatedBuffer),
        buf@.len() == 8 ==> r == Ok::<FixedPrice, DecodeError>(price_of(buf@)),
{
    if buf.len() != 8 {
        return Err(DecodeError::TruncatedBuffer);
    }
    Ok(price_at(buf, 0))
}

/// The instant that the system timestamp in the first eight bytes of `buf`
/// stands for: nanoseconds since the Unix epoch, split into whole seconds and
/// the remainder.
pub fn decode_system_timestamp(buf: &[u8]) -> (r: Result<Timestamp, DecodeError>)
    ensures
        buf@.len() < 8 ==> r == Err::<Timestamp, DecodeError>(DecodeError::TruncatedBuffer),
        buf@.len() >= 8 ==> r == Ok::<Timestamp, DecodeError>(system_timestamp(buf@)),
        r matches Ok(t) ==> t.wf(),
{
    if buf.len() < 8 {
        return Err(DecodeError::TruncatedBuffer);
    }
    Ok(timestamp_at(buf, 0))
}

/// The instant that the event time in the first four bytes of `buf` stands
/// for: whole seconds since the Unix epoch.
pub fn decode_event_time(buf: &[u8]) -> (r: Result<Timestamp, DecodeError>)
    ensures
        buf@.len() < 4 ==> r == Err::<Timestamp, DecodeError>(DecodeError::TruncatedBuffer),
        buf@.len() >= 4 ==> r == Ok::<Timestamp, DecodeError>(event_time(buf@)),
        r matches Ok(t) ==> t.wf(),
{
    if buf.len() < 4 {
        return Err(DecodeError::TruncatedBuffer);
    }
    Ok(event_time_at(buf, 0))
}

} // verus!
