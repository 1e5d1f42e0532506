//! Parsing a capture held in memory, one packet record at a time.

use crate::bytes::Endianness;
use crate::error::PcapError;
use crate::packet::{decode_packet, Packet, PacketHeader};
use crate::pcap_header::{decode_header, PcapHeader};
use vstd::prelude::*;

verus! {

/// Holds the global header of a capture and decodes its packet records.
///
/// The parser keeps no cursor: each call decodes from the buffer it is
/// given and hands back what remains.
#[derive(Debug)]
pub struct PcapParser {
    header: PcapHeader,
}

impl PcapParser {
    /// The global header that the parser was made from.
    pub closed spec fn spec_header(&self) -> PcapHeader {
        self.header
    }

    /// The header holds one of the four accepted magic numbers.
    pub open spec fn wf(&self) -> bool {
        self.spec_header().wf()
    }

    /// Creates a parser from the global header at the start of `slice`.
    /// Returns the parser and the bytes after the header.
    pub fn new(slice: &[u8]) -> (r: Result<(PcapParser, &[u8]), PcapError>)
        ensures
            match r {
                Ok((p, rem)) => decode_header(slice@) == Ok::<PcapHeader, PcapError>(
                    p.spec_header(),
                ) && rem@ == slice@.subrange(24, slice@.len() as int) && p.wf(),
                Err(e) => decode_header(slice@) == Err::<PcapHeader, PcapError>(e),
            },
    {
        let (header, rem) = PcapHeader::from_slice(slice)?;
        Ok((PcapParser { header }, rem))
    }

    /// The global header of the capture.
    pub fn header(&self) -> (r: PcapHeader)
        ensures
            r == self.spec_header(),
    {
        self.header
    }

    /// Decodes the next packet record from the start of `slice`, in the byte
    /// order of the capture. Returns the packet, whose payload borrows from
    /// `slice`, and the bytes after it.
    pub fn next_packet<'a>(&self, slice: &'a [u8]) -> (r: Result<(Packet<'a>, &'a [u8]), PcapError>)
        ensures
            match r {
                Ok((p, rem)) => decode_packet(self.spec_header().endianness_spec(), slice@)
                    == Ok::<(PacketHeader, Seq<u8>, Seq<u8>), PcapError>(
                    (p.header, p.data@, rem@),
                ),
                Err(e) => decode_packet(self.spec_header().endianness_spec(), slice@) == Err::<
                    (PacketHeader, Seq<u8>, Seq<u8>),
                    PcapError,
                >(e),
            },
    {
        let e: Endianness = self.header.endianness();
        Packet::from_slice(slice, e)
    }
}

} // verus!
