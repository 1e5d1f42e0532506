use pcap_codec::{
    Endianness, Packet, PacketHeader, PcapError, PcapHeader, PcapParser, PcapWriter, TsResolution,
    MAGIC_BE_MICRO, MAGIC_BE_NANO, MAGIC_LE_MICRO, MAGIC_LE_NANO,
};

fn sample_header(magic_number: u32) -> PcapHeader {
    PcapHeader {
        magic_number,
        version_major: 2,
        version_minor: 4,
        ts_correction: -3600,
        ts_accuracy: 7,
        snaplen: 262144,
        link_type: 113,
    }
}

#[test]
fn header_round_trip_all_magics() {
    for m in [MAGIC_BE_MICRO, MAGIC_LE_MICRO, MAGIC_BE_NANO, MAGIC_LE_NANO] {
        let h = sample_header(m);
        let mut bytes = h.to_array().unwrap();
        assert_eq!(bytes.len(), 24);
        bytes.extend_from_slice(&[9, 8, 7]);
        let (back, rem) = PcapHeader::from_slice(&bytes).unwrap();
        assert_eq!(back, h);
        assert_eq!(rem, &[9, 8, 7][..]);
    }
}

#[test]
fn default_header_bytes() {
    let h = PcapHeader::new();
    assert_eq!(
        h.to_array().unwrap(),
        vec![
            0xa1, 0xb2, 0xc3, 0xd4, 0x00, 0x02, 0x00, 0x04, 0, 0, 0, 0, 0, 0, 0, 0, 0x00, 0x00,
            0xff, 0xff, 0x00, 0x00, 0x00, 0x01
        ]
    );
}

#[test]
fn little_endian_header_bytes() {
    let h = sample_header(MAGIC_LE_MICRO);
    let bytes = h.to_array().unwrap();
    assert_eq!(&bytes[0..4], &[0xd4, 0xc3, 0xb2, 0xa1]);
    assert_eq!(&bytes[4..8], &[0x02, 0x00, 0x04, 0x00]);
    assert_eq!(&bytes[8..12], &[0xf0, 0xf1, 0xff, 0xff]);
    assert_eq!(&bytes[16..20], &[0x00, 0x00, 0x04, 0x00]);
    assert_eq!(&bytes[20..24], &[113, 0, 0, 0]);
}

#[test]
fn invalid_magic_is_not_encoded() {
    assert_eq!(sample_header(0x12345678).to_array(), Err(PcapError::InvalidMagicNumber));
    assert!(matches!(
        PcapWriter::with_header(sample_header(0xa1b2c3d5), Vec::new()),
        Err(PcapError::InvalidMagicNumber)
    ));
}

#[test]
fn magic_number_coverage() {
    let cases = [
        ([0xa1, 0xb2, 0xc3, 0xd4], Endianness::Big, TsResolution::MicroSecond),
        ([0xd4, 0xc3, 0xb2, 0xa1], Endianness::Little, TsResolution::MicroSecond),
        ([0xa1, 0xb2, 0x3c, 0x4d], Endianness::Big, TsResolution::NanoSecond),
        ([0x4d, 0x3c, 0xb2, 0xa1], Endianness::Little, TsResolution::NanoSecond),
    ];
    for (magic, e, res) in cases {
        let mut buf = vec![0u8; 24];
        buf[..4].copy_from_slice(&magic);
        let (h, rem) = PcapHeader::from_slice(&buf).unwrap();
        assert_eq!(h.magic_number, u32::from_be_bytes(magic));
        assert_eq!(h.endianness(), e);
        assert_eq!(h.ts_resolution(), res);
        assert!(rem.is_empty());
    }
    for magic in [[0, 0, 0, 0], [0xa1, 0xb2, 0xc3, 0xd5], [0xd4, 0xc3, 0xb2, 0xa2], [0xff; 4]] {
        let mut buf = vec![0u8; 24];
        buf[..4].copy_from_slice(&magic);
        assert!(matches!(PcapHeader::from_slice(&buf), Err(PcapError::InvalidMagicNumber)));
        assert!(matches!(PcapParser::new(&buf), Err(PcapError::InvalidMagicNumber)));
    }
}

#[test]
fn header_fields_read_in_little_endian() {
    let mut buf = vec![0xd4, 0xc3, 0xb2, 0xa1, 0x02, 0x00, 0x04, 0x00];
    buf.extend_from_slice(&[0xff, 0xff, 0xff, 0xff, 0, 0, 0, 0, 0xff, 0xff, 0, 0, 1, 0, 0, 0]);
    let (h, _) = PcapHeader::from_slice(&buf).unwrap();
    assert_eq!(h.version_major, 2);
    assert_eq!(h.version_minor, 4);
    assert_eq!(h.ts_correction, -1);
    assert_eq!(h.snaplen, 65535);
    assert_eq!(h.link_type, 1);
}

#[test]
fn truncated_global_header() {
    let full = PcapHeader::new().to_array().unwrap();
    for n in 0..24 {
        assert!(matches!(PcapHeader::from_slice(&full[..n]), Err(PcapError::TruncatedHeader)));
        assert!(matches!(PcapParser::new(&full[..n]), Err(PcapError::TruncatedHeader)));
    }
}

#[test]
fn truncated_packet_data() {
    let header = PacketHeader { ts_seconds: 1, ts_fraction: 2, captured_length: 5, original_length: 5 };
    let mut buf = header.to_array(Endianness::Big);
    buf.extend_from_slice(&[1, 2, 3, 4]);
    assert!(matches!(
        Packet::from_slice(&buf, Endianness::Big),
        Err(PcapError::TruncatedPacketData)
    ));
    buf.push(5);
    let (p, rem) = Packet::from_slice(&buf, Endianness::Big).unwrap();
    assert_eq!(p.data, &[1, 2, 3, 4, 5][..]);
    assert!(rem.is_empty());
}

#[test]
fn truncated_packet_header() {
    let buf = [0u8; 15];
    assert!(matches!(Packet::from_slice(&buf, Endianness::Little), Err(PcapError::TruncatedHeader)));
    assert!(matches!(Packet::from_slice(&[], Endianness::Big), Err(PcapError::TruncatedHeader)));
}

#[test]
fn zero_length_packet() {
    let header = PacketHeader { ts_seconds: 10, ts_fraction: 20, captured_length: 0, original_length: 60 };
    let mut buf = header.to_array(Endianness::Little);
    buf.extend_from_slice(&[0xaa, 0xbb]);
    let (p, rem) = Packet::from_slice(&buf, Endianness::Little).unwrap();
    assert_eq!(p.header, header);
    assert!(p.data.is_empty());
    assert_eq!(rem, &[0xaa, 0xbb][..]);
}

#[test]
fn packet_header_bytes_in_both_orders() {
    let header = PacketHeader {
        ts_seconds: 0x01020304,
        ts_fraction: 0x05060708,
        captured_length: 0x090a0b0c,
        original_length: 0x0d0e0f10,
    };
    assert_eq!(header.to_array(Endianness::Big), (1u8..=16).collect::<Vec<u8>>());
    assert_eq!(
        header.to_array(Endianness::Little),
        vec![4, 3, 2, 1, 8, 7, 6, 5, 12, 11, 10, 9, 16, 15, 14, 13]
    );
    let big: Vec<u8> = (1u8..=16).collect();
    assert_eq!(PacketHeader::from_slice(&big, Endianness::Big), Ok(header));
}

#[test]
fn packet_round_trip_recomputes_captured_length() {
    let data = [7u8, 6, 5, 4, 3, 2, 1];
    for e in [Endianness::Big, Endianness::Little] {
        let packet = Packet {
            header: PacketHeader {
                ts_seconds: 1_600_000_000,
                ts_fraction: 999_999,
                captured_length: 1000,
                original_length: 1500,
            },
            data: &data,
        };
        let mut bytes = packet.to_bytes(e);
        assert_eq!(bytes.len(), 16 + data.len());
        bytes.extend_from_slice(&[0xee]);
        let (back, rem) = Packet::from_slice(&bytes, e).unwrap();
        assert_eq!(
            back.header,
            PacketHeader { captured_length: 7, ..packet.header }
        );
        assert_eq!(back.data, &data[..]);
        assert_eq!(rem, &[0xee][..]);
    }
}

#[test]
fn packet_new_sets_captured_length() {
    let data = [1u8, 2, 3];
    let p = Packet::new(5, 6, 100, &data);
    assert_eq!(
        p.header,
        PacketHeader { ts_seconds: 5, ts_fraction: 6, captured_length: 3, original_length: 100 }
    );
}

#[test]
fn write_default_header_and_one_packet() {
    let mut w = PcapWriter::new(Vec::new());
    w.write(0, 0, &[0x01, 0x02, 0x03]);
    let bytes = w.into_writer();
    let mut expected = vec![
        0xa1, 0xb2, 0xc3, 0xd4, 0x00, 0x02, 0x00, 0x04, 0, 0, 0, 0, 0, 0, 0, 0, 0x00, 0x00, 0xff,
        0xff, 0x00, 0x00, 0x00, 0x01,
    ];
    expected.extend_from_slice(&[
        0x00, 0x00, 0x00, 0x00, 0x00, 0x00, 0x00, 0x00, 0x00, 0x00, 0x00, 0x03, 0x00, 0x00, 0x00,
        0x03, 0x01, 0x02, 0x03,
    ]);
    assert_eq!(bytes, expected);

    let (parser, rem) = PcapParser::new(&bytes).unwrap();
    assert_eq!(parser.header(), PcapHeader::new());
    let (p, rem) = parser.next_packet(rem).unwrap();
    assert_eq!(
        p.header,
        PacketHeader { ts_seconds: 0, ts_fraction: 0, captured_length: 3, original_length: 3 }
    );
    assert_eq!(p.data, &[1, 2, 3][..]);
    assert!(rem.is_empty());
}

#[test]
fn little_endian_writer_and_parser_agree() {
    let header = sample_header(MAGIC_LE_NANO);
    let mut w = PcapWriter::with_header(header, vec![]).unwrap();
    assert_eq!(w.header(), header);
    let data_a = [1u8, 2];
    let data_b = [3u8; 40];
    w.write(1, 2, &data_a);
    w.write_packet(&Packet::new(3, 4, 1500, &data_b));
    assert_eq!(w.get_ref().len(), 24 + 16 + 2 + 16 + 40);
    let bytes = w.into_writer();
    assert_eq!(&bytes[24..28], &[1, 0, 0, 0]);

    let (parser, mut rem) = PcapParser::new(&bytes).unwrap();
    assert_eq!(parser.header(), header);
    assert_eq!(parser.header().ts_resolution(), TsResolution::NanoSecond);
    let mut seen = Vec::new();
    while !rem.is_empty() {
        let (p, r) = parser.next_packet(rem).unwrap();
        seen.push((p.header, p.data.to_vec()));
        rem = r;
    }
    assert_eq!(seen.len(), 2);
    assert_eq!(seen[0].0, PacketHeader { ts_seconds: 1, ts_fraction: 2, captured_length: 2, original_length: 2 });
    assert_eq!(seen[0].1, vec![1, 2]);
    assert_eq!(seen[1].0, PacketHeader { ts_seconds: 3, ts_fraction: 4, captured_length: 40, original_length: 1500 });
    assert_eq!(seen[1].1, vec![3u8; 40]);
}

#[test]
fn writer_appends_to_existing_buffer() {
    let mut w = PcapWriter::new(vec![0xcc]);
    assert_eq!(w.get_ref().len(), 25);
    w.get_mut().clear();
    w.write(9, 9, &[]);
    assert_eq!(w.into_writer(), vec![0, 0, 0, 9, 0, 0, 0, 9, 0, 0, 0, 0, 0, 0, 0, 0]);
}
