//! A codec for the classic packet-capture file format: a 24-byte global
//! header followed by packet records, each a 16-byte header and its payload.

pub mod bytes;
pub mod error;
pub mod pcap_header;
pub mod packet;
pub mod parser;
pub mod writer;

pub use bytes::Endianness;
pub use error::PcapError;
pub use packet::{Packet, PacketHeader, PACKET_HEADER_LEN};
pub use parser::PcapParser;
pub use pcap_header::{
    PcapHeader, TsResolution, HEADER_LEN, LINKTYPE_ETHERNET, MAGIC_BE_MICRO, MAGIC_BE_NANO,
    MAGIC_LE_MICRO, MAGIC_LE_NANO,
};
pub use writer::PcapWriter;
