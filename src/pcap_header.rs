//! The 24-byte global header that opens every capture.

use crate::bytes::{
    lemma_u16_round_trip, lemma_u32_round_trip, read_u16, read_u16_spec, read_u32, read_u32_spec,
    u16_bytes, u32_be_bytes, u32_bytes, u32_from_be, write_u16, write_u32, Endianness,
};
use crate::error::PcapError;
use vstd::prelude::*;

verus! {

/// Magic number of a big-endian capture with microsecond timestamps.
pub const MAGIC_BE_MICRO: u32 = 0xa1b2c3d4;

/// Magic number of a little-endian capture with microsecond timestamps.
pub const MAGIC_LE_MICRO: u32 = 0xd4c3b2a1;

/// Magic number of a big-endian capture with nanosecond timestamps.
pub const MAGIC_BE_NANO: u32 = 0xa1b23c4d;

/// Magic number of a little-endian capture with nanosecond timestamps.
pub const MAGIC_LE_NANO: u32 = 0x4d3cb2a1;

/// Size in bytes of the encoded global header.
pub const HEADER_LEN: usize = 24;

/// Link type code of Ethernet.
pub const LINKTYPE_ETHERNET: u32 = 1;

/// The unit in which packet timestamps count fractions of a second.
#[derive(Debug, Clone, Copy, PartialEq, Eq, Structural)]
pub enum TsResolution {
    MicroSecond,
    NanoSecond,
}

/// The global header of a capture.
///
/// The magic number is kept as the first four bytes read most significant
/// first; byte order and timestamp unit are derived from it.
#[derive(Debug, Clone, Copy, PartialEq, Eq, Structural)]
pub struct PcapHeader {
    pub magic_number: u32,
    pub version_major: u16,
    pub version_minor: u16,
    pub ts_correction: i32,
    pub ts_accuracy: u32,
    pub snaplen: u32,
    pub link_type: u32,
}

/// The magic number is one of the four accepted constants.
pub open spec fn is_valid_magic(m: u32) -> bool {
    m == MAGIC_BE_MICRO || m == MAGIC_LE_MICRO || m == MAGIC_BE_NANO || m == MAGIC_LE_NANO
}

/// The byte order that a magic number selects.
pub open spec fn endianness_of(m: u32) -> Endianness {
    if m == MAGIC_BE_MICRO || m == MAGIC_BE_NANO {
        Endianness::Big
    } else {
        Endianness::Little
    }
}

/// The timestamp unit that a magic number selects.
pub open spec fn ts_resolution_of(m: u32) -> TsResolution {
    if m == MAGIC_BE_NANO || m == MAGIC_LE_NANO {
        TsResolution::NanoSecond
    } else {
        TsResolution::MicroSecond
    }
}

/// The 24 bytes that encode `h`: the magic number as it stands, then the
/// other fields in the order that it selects.
pub open spec fn header_bytes(h: PcapHeader) -> Seq<u8> {
    let e = endianness_of(h.magic_number);
    u32_be_bytes(h.magic_number) + u16_bytes(e, h.version_major) + u16_bytes(e, h.version_minor)
        + u32_bytes(e, h.ts_correction as u32) + u32_bytes(e, h.ts_accuracy) + u32_bytes(
        e,
        h.snaplen,
    ) + u32_bytes(e, h.link_type)
}

/// The magic number held by the first four bytes of `b`.
pub open spec fn magic_of(b: Seq<u8>) -> u32 {
    u32_from_be(b[0], b[1], b[2], b[3])
}

/// The header whose fields the first 24 bytes of `b` hold.
pub open spec fn header_from_bytes(b: Seq<u8>) -> PcapHeader {
    let m = magic_of(b);
    let e = endianness_of(m);
    PcapHeader {
        magic_number: m,
        version_major: read_u16_spec(e, b, 4),
        version_minor: read_u16_spec(e, b, 6),
        ts_correction: read_u32_spec(e, b, 8) as i32,
        ts_accuracy: read_u32_spec(e, b, 12),
        snaplen: read_u32_spec(e, b, 16),
        link_type: read_u32_spec(e, b, 20),
    }
}

/// What decoding a global header from the start of `b` gives.
pub open spec fn decode_header(b: Seq<u8>) -> Result<PcapHeader, PcapError> {
    if b.len() < HEADER_LEN {
        Err(PcapError::TruncatedHeader)
    } else if !is_valid_magic(magic_of(b)) {
        Err(PcapError::InvalidMagicNumber)
    } else {
        Ok(header_from_bytes(b))
    }
}

impl PcapHeader {
    /// The magic number is one of the four accepted constants.
    pub open spec fn wf(&self) -> bool {
        is_valid_magic(self.magic_number)
    }

    /// The byte order that the magic number selects.
    pub open spec fn endianness_spec(&self) -> Endianness {
        endianness_of(self.magic_number)
    }

    /// The timestamp unit that the magic number selects.
    pub open spec fn ts_resolution_spec(&self) -> TsResolution {
        ts_resolution_of(self.magic_number)
    }

    /// The header that a writer uses by default: big-endian, microsecond
    /// timestamps, version 2.4, snaplen 65535, Ethernet.
    pub open spec fn new_spec() -> PcapHeader {
        PcapHeader {
            magic_number: MAGIC_BE_MICRO,
            version_major: 2,
            version_minor: 4,
            ts_correction: 0,
            ts_accuracy: 0,
            snaplen: 65535,
            link_type: LINKTYPE_ETHERNET,
        }
    }

    /// The header that a writer uses by default: big-endian, microsecond
    /// timestamps, version 2.4, snaplen 65535, Ethernet.
    pub fn new() -> (r: PcapHeader)
        ensures
            r == PcapHeader::new_spec(),
            r.wf(),
    {
        PcapHeader {
            magic_number: MAGIC_BE_MICRO,
            version_major: 2,
            version_minor: 4,
            ts_correction: 0,
            ts_accuracy: 0,
            snaplen: 65535,
            link_type: LINKTYPE_ETHERNET,
        }
    }

    /// The byte order that the magic number selects.
    pub fn endianness(&self) -> (r: Endianness)
        ensures
            r == endianness_of(self.magic_number),
    {
        if self.magic_number == MAGIC_BE_MICRO || self.magic_number == MAGIC_BE_NANO {
            Endianness::Big
        } else {
            Endianness::Little
        }
    }

    /// The timestamp unit that the magic number selects.
    pub fn ts_resolution(&self) -> (r: TsResolution)
        ensures
            r == ts_resolution_of(self.magic_number),
    {
        if self.magic_number == MAGIC_BE_NANO || self.magic_number == MAGIC_LE_NANO {
            TsResolution::NanoSecond
        } else {
            TsResolution::MicroSecond
        }
    }

    /// Decodes a global header from the start of `slice`.
    /// Returns the header and the bytes after it.
    pub fn from_slice<'a>(slice: &'a [u8]) -> (r: Result<(PcapHeader, &'a [u8]), PcapError>)
        ensures
            match r {
                Ok((h, rem)) => decode_header(slice@) == Ok::<PcapHeader, PcapError>(h)
                    && rem@ == slice@.subrange(HEADER_LEN as int, slice@.len() as int),
                Err(e) => decode_header(slice@) == Err::<PcapHeader, PcapError>(e),
            },
    {
        let len = slice.len();
        if len < HEADER_LEN {
            return Err(PcapError::TruncatedHeader);
        }
        let magic_number = read_u32(Endianness::Big, slice, 0);
        if !(magic_number == MAGIC_BE_MICRO || magic_number == MAGIC_LE_MICRO
            || magic_number == MAGIC_BE_NANO || magic_number == MAGIC_LE_NANO) {
            return Err(PcapError::InvalidMagicNumber);
        }
        let e = if magic_number == MAGIC_BE_MICRO || magic_number == MAGIC_BE_NANO {
            Endianness::Big
        } else {
            Endianness::Little
        };
        let header = PcapHeader {
            magic_number,
            version_major: read_u16(e, slice, 4),
            version_minor: read_u16(e, slice, 6),
            ts_correction: read_u32(e, slice, 8) as i32,
            ts_accuracy: read_u32(e, slice, 12),
            snaplen: read_u32(e, slice, 16),
            link_type: read_u32(e, slice, 20),
        };
        let rem = vstd::slice::slice_subrange(slice, HEADER_LEN, len);
        Ok((header, rem))
    }

    /// Encodes the header in 24 bytes; fails on a magic number that is not
    /// one of the four accepted constants.
    pub fn to_array(&self) -> (r: Result<Vec<u8>, PcapError>)
        ensures
            match r {
                Ok(v) => self.wf() && v@ == header_bytes(*self),
                Err(e) => !self.wf() && e == PcapError::InvalidMagicNumber,
            },
    {
        let m = self.magic_number;
        if !(m == MAGIC_BE_MICRO || m == MAGIC_LE_MICRO || m == MAGIC_BE_NANO || m == MAGIC_LE_NANO) {
            return Err(PcapError::InvalidMagicNumber);
        }
        let e = self.endianness();
        let mut out: Vec<u8> = Vec::new();
        write_u32(Endianness::Big, &mut out, m);
        write_u16(e, &mut out, self.version_major);
        write_u16(e, &mut out, self.version_minor);
        write_u32(e, &mut out, self.ts_correction as u32);
        write_u32(e, &mut out, self.ts_accuracy);
        write_u32(e, &mut out, self.snaplen);
        write_u32(e, &mut out, self.link_type);
        Ok(out)
    }
}

/// Decoding the encoding of a valid header gives that header back.
pub proof fn lemma_header_round_trip(h: PcapHeader)
    requires
        h.wf(),
    ensures
        header_bytes(h).len() == HEADER_LEN,
        decode_header(header_bytes(h)) == Ok::<PcapHeader, PcapError>(h),
{
    let b = header_bytes(h);
    let e = endianness_of(h.magic_number);
    assert(b.len() == 24);
    assert(b.subrange(0, 4) =~= u32_bytes(Endianness::Big, h.magic_number));
    lemma_u32_round_trip(Endianness::Big, h.magic_number, b, 0);
    assert(b.subrange(4, 6) =~= u16_bytes(e, h.version_major));
    lemma_u16_round_trip(e, h.version_major, b, 4);
    assert(b.subrange(6, 8) =~= u16_bytes(e, h.version_minor));
    lemma_u16_round_trip(e, h.version_minor, b, 6);
    assert(b.subrange(8, 12) =~= u32_bytes(e, h.ts_correction as u32));
    lemma_u32_round_trip(e, h.ts_correction as u32, b, 8);
    assert(b.subrange(12, 16) =~= u32_bytes(e, h.ts_accuracy));
    lemma_u32_round_trip(e, h.ts_accuracy, b, 12);
    assert(b.subrange(16, 20) =~= u32_bytes(e, h.snaplen));
    lemma_u32_round_trip(e, h.snaplen, b, 16);
    assert(b.subrange(20, 24) =~= u32_bytes(e, h.link_type));
    lemma_u32_round_trip(e, h.link_type, b, 20);
    let c = h.ts_correction;
    assert((c as u32) as i32 == c) by (bit_vector);
    assert(header_from_bytes(b) == h);
}

/// Fewer than 24 bytes are refused as a truncated header.
pub proof fn lemma_header_truncation(b: Seq<u8>)
    requires
        b.len() < HEADER_LEN,
    ensures
        decode_header(b) == Err::<PcapHeader, PcapError>(PcapError::TruncatedHeader),
{
}

/// A buffer of at least 24 bytes that opens with the four bytes of `m`
/// decodes when `m` is an accepted magic number, to a header with that magic
/// number and the byte order and timestamp unit that it names; with any
/// other `m` it is refused as an invalid magic number.
pub proof fn lemma_magic_coverage(b: Seq<u8>, m: u32)
    requires
        b.len() >= HEADER_LEN,
        b.subrange(0, 4) == u32_be_bytes(m),
    ensures
        is_valid_magic(m) ==> decode_header(b) is Ok,
        is_valid_magic(m) ==> decode_header(b)->Ok_0.magic_number == m,
        m == MAGIC_BE_MICRO ==> decode_header(b)->Ok_0.endianness_spec() == Endianness::Big
            && decode_header(b)->Ok_0.ts_resolution_spec() == TsResolution::MicroSecond,
        m == MAGIC_LE_MICRO ==> decode_header(b)->Ok_0.endianness_spec() == Endianness::Little
            && decode_header(b)->Ok_0.ts_resolution_spec() == TsResolution::MicroSecond,
        m == MAGIC_BE_NANO ==> decode_header(b)->Ok_0.endianness_spec() == Endianness::Big
            && decode_header(b)->Ok_0.ts_resolution_spec() == TsResolution::NanoSecond,
        m == MAGIC_LE_NANO ==> decode_header(b)->Ok_0.endianness_spec() == Endianness::Little
            && decode_header(b)->Ok_0.ts_resolution_spec() == TsResolution::NanoSecond,
        !is_valid_magic(m) ==> decode_header(b) == Err::<PcapHeader, PcapError>(
            PcapError::InvalidMagicNumber,
        ),
{
    lemma_u32_round_trip(Endianness::Big, m, b, 0);
}

} // verus!
