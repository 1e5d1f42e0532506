//! Packet records: a 16-byte header and the payload that follows it.

use crate::bytes::{lemma_u32_round_trip, read_u32, read_u32_spec, u32_bytes, write_u32, append_bytes, Endianness};
use crate::error::PcapError;
use vstd::prelude::*;

verus! {

/// Size in bytes of the encoded packet header.
pub const PACKET_HEADER_LEN: usize = 16;

/// The fixed-size header of a packet record.
///
/// `ts_fraction` counts microseconds or nanoseconds, as the global header's
/// timestamp unit says.
#[derive(Debug, Clone, Copy, PartialEq, Eq, Structural)]
pub struct PacketHeader {
    pub ts_seconds: u32,
    pub ts_fraction: u32,
    pub captured_length: u32,
    pub original_length: u32,
}

/// A packet record; its payload borrows from the buffer it came from, or
/// from the caller that writes it.
#[derive(Debug)]
pub struct Packet<'a> {
    pub header: PacketHeader,
    pub data: &'a [u8],
}

/// The 16 bytes that encode `h` in the given order.
pub open spec fn packet_header_bytes(e: Endianness, h: PacketHeader) -> Seq<u8> {
    u32_bytes(e, h.ts_seconds) + u32_bytes(e, h.ts_fraction) + u32_bytes(e, h.captured_length)
        + u32_bytes(e, h.original_length)
}

/// `h` with its captured length set to the length of `data`.
pub open spec fn with_captured_length(h: PacketHeader, data: Seq<u8>) -> PacketHeader {
    PacketHeader { captured_length: data.len() as u32, ..h }
}

/// The bytes of a packet record: its header, with the captured length taken
/// from the payload, then the payload.
pub open spec fn packet_bytes(e: Endianness, h: PacketHeader, data: Seq<u8>) -> Seq<u8> {
    packet_header_bytes(e, with_captured_length(h, data)) + data
}

/// The packet header whose fields the first 16 bytes of `b` hold.
pub open spec fn packet_header_from_bytes(e: Endianness, b: Seq<u8>) -> PacketHeader {
    PacketHeader {
        ts_seconds: read_u32_spec(e, b, 0),
        ts_fraction: read_u32_spec(e, b, 4),
        captured_length: read_u32_spec(e, b, 8),
        original_length: read_u32_spec(e, b, 12),
    }
}

/// What decoding a packet record from the start of `b` gives: its header,
/// its payload and the bytes after it.
pub open spec fn decode_packet(e: Endianness, b: Seq<u8>) -> Result<
    (PacketHeader, Seq<u8>, Seq<u8>),
    PcapError,
> {
    if b.len() < PACKET_HEADER_LEN {
        Err(PcapError::TruncatedHeader)
    } else {
        let h = packet_header_from_bytes(e, b);
        let end = PACKET_HEADER_LEN + h.captured_length;
        if end > b.len() {
            Err(PcapError::TruncatedPacketData)
        } else {
            Ok((h, b.subrange(PACKET_HEADER_LEN as int, end), b.subrange(end, b.len() as int)))
        }
    }
}

impl PacketHeader {
    /// Encodes the header in 16 bytes, in the given order.
    pub fn to_array(&self, e: Endianness) -> (r: Vec<u8>)
        ensures
            r@ == packet_header_bytes(e, *self),
    {
        let mut out: Vec<u8> = Vec::new();
        write_u32(e, &mut out, self.ts_seconds);
        write_u32(e, &mut out, self.ts_fraction);
        write_u32(e, &mut out, self.captured_length);
        write_u32(e, &mut out, self.original_length);
        out
    }

    /// Decodes a packet header from the first 16 bytes of `slice`.
    pub fn from_slice(slice: &[u8], e: Endianness) -> (r: Result<PacketHeader, PcapError>)
        ensures
            match r {
                Ok(h) => slice@.len() >= PACKET_HEADER_LEN && h == packet_header_from_bytes(
                    e,
                    slice@,
                ),
                Err(err) => slice@.len() < PACKET_HEADER_LEN && err == PcapError::TruncatedHeader,
            },
    {
        if slice.len() < PACKET_HEADER_LEN {
            return Err(PcapError::TruncatedHeader);
        }
        Ok(
            PacketHeader {
                ts_seconds: read_u32(e, slice, 0),
                ts_fraction: read_u32(e, slice, 4),
                captured_length: read_u32(e, slice, 8),
                original_length: read_u32(e, slice, 12),
            },
        )
    }
}

impl<'a> Packet<'a> {
    /// A packet whose captured length is the length of `data`.
    pub fn new(ts_seconds: u32, ts_fraction: u32, original_length: u32, data: &'a [u8]) -> (r:
        Packet<'a>)
        requires
            data@.len() <= u32::MAX,
        ensures
            r.header == (PacketHeader {
                ts_seconds,
                ts_fraction,
                captured_length: data@.len() as u32,
                original_length,
            }),
            r.data@ == data@,
    {
        let captured_length = data.len() as u32;
        Packet {
            header: PacketHeader { ts_seconds, ts_fraction, captured_length, original_length },
            data,
        }
    }

    /// Decodes a packet record from the start of `slice`, in the given order.
    /// Returns the packet, whose payload borrows from `slice`, and the bytes
    /// after it.
    pub fn from_slice(slice: &'a [u8], e: Endianness) -> (r: Result<(Packet<'a>, &'a [u8]), PcapError>)
        ensures
            match r {
                Ok((p, rem)) => decode_packet(e, slice@) == Ok::<
                    (PacketHeader, Seq<u8>, Seq<u8>),
                    PcapError,
                >((p.header, p.data@, rem@)),
                Err(err) => decode_packet(e, slice@) == Err::<
                    (PacketHeader, Seq<u8>, Seq<u8>),
                    PcapError,
                >(err),
            },
    {
        let header = match PacketHeader::from_slice(slice, e) {
            Ok(h) => h,
            Err(err) => return Err(err),
        };
        let len = slice.len();
        let available = len - PACKET_HEADER_LEN;
        if header.captured_length as usize > available {
            return Err(PcapError::TruncatedPacketData);
        }
        let end = PACKET_HEADER_LEN + header.captured_length as usize;
        let data = vstd::slice::slice_subrange(slice, PACKET_HEADER_LEN, end);
        let rem = vstd::slice::slice_subrange(slice, end, len);
        Ok((Packet { header, data }, rem))
    }

    /// Encodes the record in the given order: the header, with the captured
    /// length taken from the payload, then the payload.
    pub fn to_bytes(&self, e: Endianness) -> (r: Vec<u8>)
        requires
            self.data@.len() <= u32::MAX,
        ensures
            r@ == packet_bytes(e, self.header, self.data@),
    {
        let header = PacketHeader { captured_length: self.data.len() as u32, ..self.header };
        let mut out = header.to_array(e);
        append_bytes(&mut out, self.data);
        out
    }
}

/// Decoding an encoded record, with any bytes after it, gives back its
/// header (captured length taken from the payload), its payload and those
/// bytes.
pub proof fn lemma_packet_round_trip(e: Endianness, h: PacketHeader, data: Seq<u8>, rest: Seq<u8>)
    requires
        data.len() <= u32::MAX,
    ensures
        decode_packet(e, packet_bytes(e, h, data) + rest) == Ok::<
            (PacketHeader, Seq<u8>, Seq<u8>),
            PcapError,
        >((with_captured_length(h, data), data, rest)),
{
    let hc = with_captured_length(h, data);
    let b = packet_bytes(e, h, data) + rest;
    let n = data.len() as int;
    assert(b.len() == 16 + n + rest.len());
    assert(b.subrange(0, 4) =~= u32_bytes(e, hc.ts_seconds));
    lemma_u32_round_trip(e, hc.ts_seconds, b, 0);
    assert(b.subrange(4, 8) =~= u32_bytes(e, hc.ts_fraction));
    lemma_u32_round_trip(e, hc.ts_fraction, b, 4);
    assert(b.subrange(8, 12) =~= u32_bytes(e, hc.captured_length));
    lemma_u32_round_trip(e, hc.captured_length, b, 8);
    assert(b.subrange(12, 16) =~= u32_bytes(e, hc.original_length));
    lemma_u32_round_trip(e, hc.original_length, b, 12);
    assert(packet_header_from_bytes(e, b) == hc);
    assert(b.subrange(16, 16 + n) =~= data);
    assert(b.subrange(16 + n, b.len() as int) =~= rest);
}

/// A record whose captured length is zero has an empty payload and takes
/// exactly the 16 bytes of its header.
pub proof fn lemma_zero_length_packet(e: Endianness, b: Seq<u8>)
    requires
        b.len() >= PACKET_HEADER_LEN,
        read_u32_spec(e, b, 8) == 0,
    ensures
        decode_packet(e, b) == Ok::<(PacketHeader, Seq<u8>, Seq<u8>), PcapError>(
            (packet_header_from_bytes(e, b), Seq::empty(), b.subrange(16, b.len() as int)),
        ),
{
    assert(b.subrange(16, 16) =~= Seq::<u8>::empty());
}

/// Fewer than 16 bytes are refused as a truncated header; a header that
/// claims more payload bytes than follow it (as `n` claimed with `n - 1`
/// present) is refused as truncated payload.
pub proof fn lemma_packet_truncation(e: Endianness, b: Seq<u8>)
    ensures
        b.len() < PACKET_HEADER_LEN ==> decode_packet(e, b) == Err::<
            (PacketHeader, Seq<u8>, Seq<u8>),
            PcapError,
        >(PcapError::TruncatedHeader),
        b.len() >= PACKET_HEADER_LEN && b.len() < PACKET_HEADER_LEN + read_u32_spec(e, b, 8)
            ==> decode_packet(e, b) == Err::<
            (PacketHeader, Seq<u8>, Seq<u8>),
            PcapError,
        >(PcapError::TruncatedPacketData),
{
}

} // verus!
