//! Log entries and the batches in which they are written.
use vstd::prelude::*;

use crate::types::TableId;

verus! {

/// Sequence number of a log entry.
pub type SequenceNumber = u64;

/// Where a table's log lives: its region and its table.
#[derive(Clone, Copy, Debug, PartialEq, Eq, Structural)]
pub struct WalLocation {
    pub region_id: u64,
    pub table_id: TableId,
}

impl WalLocation {
    pub fn new(region_id: u64, table_id: TableId) -> (r: WalLocation)
        ensures
            r == (WalLocation { region_id, table_id }),
    {
        WalLocation { region_id, table_id }
    }
}

/// The big-endian bytes of `v`.
pub open spec fn u32_be_bytes(v: u32) -> Seq<u8> {
    seq![(v >> 24u32) as u8, (v >> 16u32) as u8, (v >> 8u32) as u8, v as u8]
}

/// The number whose big-endian bytes are the first four of `b`.
pub open spec fn u32_from_be(b: Seq<u8>) -> u32
    recommends
        b.len() >= 4,
{
    ((b[0] as u32) << 24u32) | ((b[1] as u32) << 16u32) | ((b[2] as u32) << 8u32) | (b[3] as u32)
}

/// A value that can be written into the log as bytes.
pub trait Payload {
    /// The bytes that encode the value.
    spec fn encoded(&self) -> Seq<u8>;

    /// Size of the encoded payload.
    fn encode_size(&self) -> (r: usize)
        ensures
            r == self.encoded().len(),
    ;

    /// Appends the encoded payload to `buf`.
    fn encode_to(&self, buf: &mut Vec<u8>)
        ensures
            final(buf)@ == old(buf)@ + self.encoded(),
    ;
}

/// A payload held in memory: one number, encoded in four bytes.
#[derive(Clone, Copy, Debug, PartialEq, Eq, Structural)]
pub struct MemoryPayload {
    pub val: u32,
}

impl Payload for MemoryPayload {
    open spec fn encoded(&self) -> Seq<u8> {
        u32_be_bytes(self.val)
    }

    fn encode_size(&self) -> (r: usize) {
        4
    }

    fn encode_to(&self, buf: &mut Vec<u8>) {
        let v = self.val;
        buf.push((v >> 24u32) as u8);
        buf.push((v >> 16u32) as u8);
        buf.push((v >> 8u32) as u8);
        buf.push(v as u8);
        proof {
            assert(final(buf)@ =~= old(buf)@ + u32_be_bytes(self.val));
        }
    }
}

/// A decoded log entry.
#[derive(Debug)]
pub struct LogEntry<P> {
    pub table_id: TableId,
    pub sequence: SequenceNumber,
    pub payload: P,
}

/// An encoded entry to be written into the log.
#[derive(Debug)]
pub struct LogWriteEntry {
    pub payload: Vec<u8>,
}

/// A batch of `LogWriteEntry`s for one location.
#[derive(Debug)]
pub struct LogWriteBatch {
    pub location: WalLocation,
    pub entries: Vec<LogWriteEntry>,
}

impl LogWriteBatch {
    /// An empty batch for `location`.
    pub fn new(location: WalLocation) -> (r: LogWriteBatch)
        ensures
            r.location == location,
            r.entries@.len() == 0,
    {
        Self::with_capacity(location, 0)
    }

    /// An empty batch for `location`, with room for `cap` entries.
    pub fn with_capacity(location: WalLocation, cap: usize) -> (r: LogWriteBatch)
        ensures
            r.location == location,
            r.entries@.len() == 0,
    {
        LogWriteBatch { location, entries: Vec::with_capacity(cap) }
    }

    /// Appends `entry` to the batch.
    pub fn push(&mut self, entry: LogWriteEntry)
        ensures
            final(self).location == old(self).location,
            final(self).entries@ == old(self).entries@.push(entry),
    {
        self.entries.push(entry)
    }

    /// The number of entries in the batch.
    pub fn len(&self) -> (r: usize)
        ensures
            r == self.entries@.len(),
    {
        self.entries.len()
    }

    /// Whether the batch has no entry.
    pub fn is_empty(&self) -> (r: bool)
        ensures
            r == (self.entries@.len() == 0),
    {
        self.entries.len() == 0
    }

    /// Removes every entry; the location stays.
    pub fn clear(&mut self)
        ensures
            final(self).location == old(self).location,
            final(self).entries@.len() == 0,
    {
        self.entries.clear()
    }
}

/// The context in which a payload is decoded.
#[derive(Debug, Default, Clone, Copy)]
pub struct PayloadDecodeContext {
    pub table_id: TableId,
}

/// Why a payload could not be decoded.
#[derive(Debug, Clone, Copy, PartialEq, Eq, Structural)]
pub enum DecodeError {
    /// The buffer holds fewer bytes than the payload needs.
    NotEnoughBytes { needed: usize, available: usize },
}

/// Reads values of type `Target` back from the bytes of the log.
pub trait PayloadDecoder {
    type Target;
    type Error;

    /// What decoding `buf` gives: the value with the number of bytes read, or
    /// the reason it failed.
    spec fn decoded(&self, buf: Seq<u8>) -> Result<(Self::Target, usize), Self::Error>;

    /// Decodes a value from the start of `buf`.
    fn decode(&self, ctx: &PayloadDecodeContext, buf: &[u8]) -> (r: Result<
        (Self::Target, usize),
        Self::Error,
    >)
        ensures
            r == self.decoded(buf@),
    ;
}

/// Decodes `MemoryPayload`s.
#[derive(Debug, Clone, Copy)]
pub struct MemoryPayloadDecoder;

impl PayloadDecoder for MemoryPayloadDecoder {
    type Target = MemoryPayload;
    type Error = DecodeError;

    /// The first four bytes of `buf`, big-endian; a shorter buffer is
    /// refused.
    open spec fn decoded(&self, buf: Seq<u8>) -> Result<(MemoryPayload, usize), DecodeError> {
        if buf.len() < 4 {
            Err(DecodeError::NotEnoughBytes { needed: 4, available: buf.len() as usize })
        } else {
            Ok((MemoryPayload { val: u32_from_be(buf) }, 4))
        }
    }

    fn decode(&self, _ctx: &PayloadDecodeContext, buf: &[u8]) -> (r: Result<
        (MemoryPayload, usize),
        DecodeError,
    >) {
        if buf.len() < 4 {
            return Err(DecodeError::NotEnoughBytes { needed: 4, available: buf.len() });
        }
        let val = ((buf[0] as u32) << 24u32) | ((buf[1] as u32) << 16u32) | ((buf[2] as u32) << 8u32)
            | (buf[3] as u32);
        Ok((MemoryPayload { val }, 4))
    }
}

/// Decoding the encoding of a payload gives the payload back, and reads
/// exactly the bytes that were written.
pub proof fn lemma_payload_round_trip(p: MemoryPayload, rest: Seq<u8>)
    ensures
        MemoryPayloadDecoder.decoded(p.encoded() + rest) == Ok::<(MemoryPayload, usize), DecodeError>(
            (p, p.encoded().len() as usize),
        ),
{
    let v = p.val;
    let b = u32_be_bytes(v) + rest;
    assert(b[0] == (v >> 24u32) as u8);
    assert(b[1] == (v >> 16u32) as u8);
    assert(b[2] == (v >> 8u32) as u8);
    assert(b[3] == v as u8);
    assert((((v >> 24u32) as u8 as u32) << 24u32) | (((v >> 16u32) as u8 as u32) << 16u32) | (((v
        >> 8u32) as u8 as u32) << 8u32) | (v as u8 as u32) == v) by (bit_vector);
    assert(u32_from_be(b) == v);
}

} // verus!
