//! Writing a capture into a growing byte buffer.

use crate::bytes::append_bytes;
use crate::error::PcapError;
use crate::packet::{packet_bytes, Packet, PacketHeader};
use crate::pcap_header::{header_bytes, PcapHeader};
use vstd::prelude::*;

verus! {

/// Writes a capture into a byte buffer: the global header on creation, then
/// one record for each packet written.
#[derive(Debug)]
pub struct PcapWriter {
    header: PcapHeader,
    writer: Vec<u8>,
}

impl PcapWriter {
    /// The global header of the capture.
    pub closed spec fn spec_header(&self) -> PcapHeader {
        self.header
    }

    /// The bytes written so far, with what the buffer held before.
    pub closed spec fn written(&self) -> Seq<u8> {
        self.writer@
    }

    /// Creates a writer that appends to `writer`, and writes the default
    /// global header (big-endian, microsecond timestamps, version 2.4,
    /// snaplen 65535, Ethernet).
    pub fn new(writer: Vec<u8>) -> (r: PcapWriter)
        ensures
            r.spec_header() == PcapHeader::new_spec(),
            r.written() == writer@ + header_bytes(r.spec_header()),
    {
        let header = PcapHeader::new();
        match PcapWriter::with_header(header, writer) {
            Ok(w) => w,
            Err(_) => {
                proof {
                    assert(false);
                }
                PcapWriter { header, writer: Vec::new() }
            }
        }
    }

    /// Creates a writer that appends to `writer`, and writes `header`.
    /// Fails, writing nothing, when its magic number is not one of the four
    /// accepted constants.
    pub fn with_header(header: PcapHeader, writer: Vec<u8>) -> (r: Result<PcapWriter, PcapError>)
        ensures
            match r {
                Ok(w) => header.wf() && w.spec_header() == header && w.written() == writer@
                    + header_bytes(header),
                Err(e) => !header.wf() && e == PcapError::InvalidMagicNumber,
            },
    {
        let bytes = header.to_array()?;
        let mut writer = writer;
        append_bytes(&mut writer, bytes.as_slice());
        Ok(PcapWriter { header, writer })
    }

    /// The global header of the capture.
    pub fn header(&self) -> (r: PcapHeader)
        ensures
            r == self.spec_header(),
    {
        self.header
    }

    /// Consumes the writer, returning the buffer.
    pub fn into_writer(self) -> (r: Vec<u8>)
        ensures
            r@ == self.written(),
    {
        self.writer
    }

    /// The buffer written so far.
    pub fn get_ref(&self) -> (r: &Vec<u8>)
        ensures
            r@ == self.written(),
    {
        &self.writer
    }

    /// The buffer, to be changed in place; writing to it directly may leave
    /// a capture that does not parse.
    pub fn get_mut(&mut self) -> (r: &mut Vec<u8>)
        ensures
            r@ == old(self).written(),
            final(r)@ == final(self).written(),
            final(self).spec_header() == old(self).spec_header(),
    {
        &mut self.writer
    }

    /// Writes a record for `data`, whose captured and original lengths are
    /// both the length of `data`.
    pub fn write(&mut self, ts_seconds: u32, ts_fraction: u32, data: &[u8])
        requires
            data@.len() <= u32::MAX,
        ensures
            final(self).spec_header() == old(self).spec_header(),
            final(self).written() == old(self).written() + packet_bytes(
                old(self).spec_header().endianness_spec(),
                PacketHeader {
                    ts_seconds,
                    ts_fraction,
                    captured_length: data@.len() as u32,
                    original_length: data@.len() as u32,
                },
                data@,
            ),
    {
        let len = data.len() as u32;
        let packet = Packet::new(ts_seconds, ts_fraction, len, data);
        self.write_packet(&packet);
    }

    /// Writes a record for `packet` in the byte order of the capture: its
    /// header, with the captured length taken from the payload, then the
    /// payload.
    pub fn write_packet(&mut self, packet: &Packet)
        requires
            packet.data@.len() <= u32::MAX,
        ensures
            final(self).spec_header() == old(self).spec_header(),
            final(self).written() == old(self).written() + packet_bytes(
                old(self).spec_header().endianness_spec(),
                packet.header,
                packet.data@,
            ),
    {
        let bytes = packet.to_bytes(self.header.endianness());
        append_bytes(&mut self.writer, bytes.as_slice());
    }
}

} // verus!
