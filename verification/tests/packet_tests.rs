use ddp_rs::packet::Packet;
use ddp_rs::protocol::message::Message;
use ddp_rs::protocol::timecode::TimeCode;
use ddp_rs::protocol::{Header, PacketType, PixelConfig, ID};

#[test]
fn test_json() {
    {
        let data = vec![
            0x44, 0x00, 0x0D, 0xFA, 0x00, 0x00, 0x00, 0x00, 0x01, 0x8E, 0x7b, 0x0a, 0x20, 0x20,
            0x20, 0x20, 0x22, 0x63, 0x6f, 0x6e, 0x66, 0x69, 0x67, 0x22, 0x3a, 0x0a, 0x20, 0x20,
            0x20, 0x20, 0x7b, 0x0a, 0x20, 0x20, 0x20, 0x20, 0x20, 0x20, 0x20, 0x20, 0x22, 0x67,
            0x77, 0x22, 0x3a, 0x20, 0x22, 0x61, 0x2e, 0x62, 0x2e, 0x63, 0x2e, 0x64, 0x22, 0x2c,
            0x0a, 0x20, 0x20, 0x20, 0x20, 0x20, 0x20, 0x20, 0x20, 0x22, 0x69, 0x70, 0x22, 0x3a,
            0x20, 0x22, 0x61, 0x2e, 0x62, 0x2e, 0x63, 0x2e, 0x64, 0x22, 0x2c, 0x0a, 0x20, 0x20,
            0x20, 0x20, 0x20, 0x20, 0x20, 0x20, 0x22, 0x6e, 0x6d, 0x22, 0x3a, 0x20, 0x22, 0x61,
            0x2e, 0x62, 0x2e, 0x63, 0x2e, 0x64, 0x22, 0x2c, 0x0a, 0x20, 0x20, 0x20, 0x20, 0x20,
            0x20, 0x20, 0x20, 0x22, 0x70, 0x6f, 0x72, 0x74, 0x73, 0x22, 0x3a, 0x0a, 0x20, 0x20,
            0x20, 0x20, 0x20, 0x20, 0x20, 0x20, 0x5b, 0x0a, 0x20, 0x20, 0x20, 0x20, 0x20, 0x20,
            0x20, 0x20, 0x20, 0x20, 0x20, 0x20, 0x7b, 0x0a, 0x20, 0x20, 0x20, 0x20, 0x20, 0x20,
            0x20, 0x20, 0x20, 0x20, 0x20, 0x20, 0x20, 0x20, 0x20, 0x20, 0x22, 0x6c, 0x22, 0x3a,
            0x20, 0x33, 0x2c, 0x0a, 0x20, 0x20, 0x20, 0x20, 0x20, 0x20, 0x20, 0x20, 0x20, 0x20,
            0x20, 0x20, 0x20, 0x20, 0x20, 0x20, 0x22, 0x70, 0x6f, 0x72, 0x74, 0x22, 0x3a, 0x20,
            0x31, 0x2c, 0x0a, 0x20, 0x20, 0x20, 0x20, 0x20, 0x20, 0x20, 0x20, 0x20, 0x20, 0x20,
            0x20, 0x20, 0x20, 0x20, 0x20, 0x22, 0x73, 0x73, 0x22, 0x3a, 0x20, 0x34, 0x2c, 0x0a,
            0x20, 0x20, 0x20, 0x20, 0x20, 0x20, 0x20, 0x20, 0x20, 0x20, 0x20, 0x20, 0x20, 0x20,
            0x20, 0x20, 0x22, 0x74, 0x73, 0x22, 0x3a, 0x20, 0x32, 0x0a, 0x20, 0x20, 0x20, 0x20,
            0x20, 0x20, 0x20, 0x20, 0x20, 0x20, 0x20, 0x20, 0x7d, 0x2c, 0x0a, 0x20, 0x20, 0x20,
            0x20, 0x20, 0x20, 0x20, 0x20, 0x20, 0x20, 0x20, 0x20, 0x7b, 0x0a, 0x20, 0x20, 0x20,
            0x20, 0x20, 0x20, 0x20, 0x20, 0x20, 0x20, 0x20, 0x20, 0x20, 0x20, 0x20, 0x20, 0x22,
            0x6c, 0x22, 0x3a, 0x20, 0x37, 0x2c, 0x0a, 0x20, 0x20, 0x20, 0x20, 0x20, 0x20, 0x20,
            0x20, 0x20, 0x20, 0x20, 0x20, 0x20, 0x20, 0x20, 0x20, 0x22, 0x70, 0x6f, 0x72, 0x74,
            0x22, 0x3a, 0x20, 0x35, 0x2c, 0x0a, 0x20, 0x20, 0x20, 0x20, 0x20, 0x20, 0x20, 0x20,
            0x20, 0x20, 0x20, 0x20, 0x20, 0x20, 0x20, 0x20, 0x22, 0x73, 0x73, 0x22, 0x3a, 0x20,
            0x38, 0x2c, 0x0a, 0x20, 0x20, 0x20, 0x20, 0x20, 0x20, 0x20, 0x20, 0x20, 0x20, 0x20,
            0x20, 0x20, 0x20, 0x20, 0x20, 0x22, 0x74, 0x73, 0x22, 0x3a, 0x20, 0x36, 0x0a, 0x20,
            0x20, 0x20, 0x20, 0x20, 0x20, 0x20, 0x20, 0x20, 0x20, 0x20, 0x20, 0x7d, 0x0a, 0x20,
            0x20, 0x20, 0x20, 0x20, 0x20, 0x20, 0x20, 0x5d, 0x0a, 0x20, 0x20, 0x20, 0x20, 0x7d,
            0x0a, 0x7d,
        ];
        let packet = Packet::from_bytes(&data);

        assert_eq!(packet.header.length, 398);

        match packet.parsed {
            Some(p) => match p {
                Message::Config(c) => {
                    assert_eq!(c.config.gw.unwrap(), "a.b.c.d");
                    assert_eq!(c.config.nm.unwrap(), "a.b.c.d");
                    assert_eq!(c.config.ports.len(), 2);
                }
                _ => panic!("not the right packet parsed"),
            },
            None => panic!("Packet parsing failed"),
        }
    }
}

#[test]
fn test_untyped() {
    {
        let data = vec![
            0x44, 0x00, 0x0D, 0xFA, 0x00, 0x00, 0x00, 0x00, 0x00, 0x0F, 0x7B, 0x22, 0x68, 0x65,
            0x6C, 0x6C, 0x6F, 0x22, 0x3A, 0x20, 0x22, 0x6F, 0x6B, 0x22, 0x7D,
        ];
        let packet = Packet::from_bytes(&data);

        match packet.parsed {
            Some(p) => match p {
                Message::Parsed((_, p)) => {
                    assert_eq!(p["hello"], "ok");
                }
                _ => panic!("not the right packet parsed"),
            },
            None => panic!("Packet parsing failed"),
        }
    }
}

#[test]
fn test_unparsed() {
    {
        let data = vec![
            0x44, 0x00, 0x0D, 0xFA, 0x00, 0x00, 0x00, 0x00, 0x00, 0x0E, 0x53, 0x4C, 0x49, 0x43,
            0x4B, 0x44, 0x45, 0x4E, 0x49, 0x53, 0x34, 0x30, 0x30, 0x30,
        ];
        let packet = Packet::from_bytes(&data);

        match packet.parsed {
            Some(p) => match p {
                Message::Unparsed((_, p)) => {
                    assert_eq!(p, "SLICKDENIS4000");
                }
                _ => panic!("not the right packet parsed"),
            },
            None => panic!("Packet parsing failed"),
        }
    }
}

#[test]
fn test_non_utf8_non_json_keeps_raw_data() {
    // Bytes that are neither JSON nor UTF-8: the decode chain yields no
    // parsed message, but the raw payload is still retained on the packet.
    let mut data = vec![0x44, 0x00, 0x0D, 0xFA, 0x00, 0x00, 0x00, 0x00, 0x00, 0x04];
    let payload = vec![0xFF, 0xFE, 0x80, 0x81];
    data.extend_from_slice(&payload);
    let packet = Packet::from_bytes(&data);

    assert!(packet.parsed.is_none());
    assert_eq!(packet.data, payload);
}

#[test]
fn test_truncated_input_yields_default_packet() {
    // Too short for the 10-byte header.
    let packet = Packet::from_bytes(&[0x41, 0x01, 0x0D]);
    assert_eq!(packet.header, Header::default());
    assert!(packet.data.is_empty());
    assert!(packet.parsed.is_none());

    // Timecode flag set, but too short for the 14-byte header.
    let packet = Packet::from_bytes(&[0x51, 0x01, 0x0D, 0x01, 0, 0, 0, 0, 0, 0, 0, 0]);
    assert_eq!(packet.header, Header::default());
    assert!(packet.data.is_empty());
    assert!(packet.parsed.is_none());
}

#[test]
fn test_from_data() {
    let header = Header::default();
    let packet = Packet::from_data(header, &[1, 2, 3]);
    assert_eq!(packet.header, header);
    assert_eq!(packet.data, vec![1, 2, 3]);
    assert!(packet.parsed.is_none());
}

// Integration tests for full packet roundtrips
#[test]
fn test_full_packet_roundtrip() {
    // Create a header
    let header = Header {
        packet_type: PacketType {
            version: 1,
            timecode: false,
            storage: false,
            reply: false,
            query: false,
            push: true,
        },
        sequence_number: 5,
        pixel_config: PixelConfig::default(),
        id: ID::default(),
        offset: 0,
        length: 9,
        time_code: TimeCode(None),
    };

    // Create RGB data
    let data = vec![255, 0, 0, 0, 255, 0, 0, 0, 255];

    // Convert header to bytes
    let header_bytes = header.encode();

    // Create full packet
    let mut packet_bytes = header_bytes.to_vec();
    packet_bytes.extend_from_slice(&data);

    // Parse it back
    let parsed_packet = Packet::from_bytes(&packet_bytes);

    // Verify
    assert_eq!(parsed_packet.header.sequence_number, 5);
    assert_eq!(parsed_packet.header.length, 9);
    assert_eq!(parsed_packet.data, data);
}

#[test]
fn test_packet_with_timecode_integration() {
    // Create a header with timecode
    let header = Header {
        packet_type: PacketType {
            version: 1,
            timecode: true,
            storage: false,
            reply: false,
            query: false,
            push: true,
        },
        sequence_number: 3,
        pixel_config: PixelConfig::default(),
        id: ID::default(),
        offset: 100,
        length: 6,
        time_code: TimeCode(Some(12345)),
    };

    // Create RGB data
    let data = vec![128, 128, 128, 64, 64, 64];

    // Convert header to bytes (14 bytes with timecode)
    let header_bytes = header.encode();
    assert_eq!(header_bytes.len(), 14);

    // Create full packet
    let mut packet_bytes = header_bytes.to_vec();
    packet_bytes.extend_from_slice(&data);

    // Parse it back
    let parsed_packet = Packet::from_bytes(&packet_bytes);

    // Verify
    assert_eq!(parsed_packet.header.sequence_number, 3);
    assert_eq!(parsed_packet.header.length, 6);
    assert_eq!(parsed_packet.header.offset, 100);
    assert_eq!(parsed_packet.header.time_code.0, Some(12345));
    assert_eq!(parsed_packet.data, data);
}

#[test]
fn test_packet_with_config_message_integration() {
    let json = r#"{"config":{"gw":"192.168.1.1","ip":"192.168.1.100"}}"#;

    let header = Header {
        packet_type: PacketType {
            version: 1,
            timecode: false,
            storage: false,
            reply: true,
            query: false,
            push: false,
        },
        sequence_number: 1,
        pixel_config: PixelConfig::default(),
        id: ID::Config,
        offset: 0,
        length: json.len() as u16,
        time_code: TimeCode(None),
    };

    let header_bytes = header.encode();
    let mut packet_bytes = header_bytes.to_vec();
    packet_bytes.extend_from_slice(json.as_bytes());

    let parsed_packet = Packet::from_bytes(&packet_bytes);

    assert_eq!(parsed_packet.header.id, ID::Config);
    assert!(parsed_packet.parsed.is_some());
}

#[test]
fn test_multiple_packets_different_sequences_integration() {
    // Test that we can parse multiple packets with different sequence numbers
    let test_cases = vec![
        (1, vec![255, 0, 0]),
        (5, vec![0, 255, 0]),
        (10, vec![0, 0, 255]),
        (15, vec![128, 128, 128]),
    ];

    for (seq_num, data) in test_cases {
        let header = Header {
            packet_type: PacketType {
                version: 1,
                timecode: false,
                storage: false,
                reply: false,
                query: false,
                push: true,
            },
            sequence_number: seq_num,
            pixel_config: PixelConfig::default(),
            id: ID::default(),
            offset: 0,
            length: data.len() as u16,
            time_code: TimeCode(None),
        };

        let header_bytes = header.encode();
        let mut packet_bytes = header_bytes.to_vec();
        packet_bytes.extend_from_slice(&data);

        let parsed = Packet::from_bytes(&packet_bytes);
        assert_eq!(parsed.header.sequence_number, seq_num);
        assert_eq!(parsed.data, data);
    }
}

#[test]
fn test_large_pixel_data_integration() {
    // Test with a large number of pixels
    let num_pixels = 480; // Max size in connection
    let mut data = Vec::with_capacity(num_pixels * 3);

    for i in 0..num_pixels {
        data.push((i % 256) as u8);
        data.push(((i * 2) % 256) as u8);
        data.push(((i * 3) % 256) as u8);
    }

    let header = Header {
        packet_type: PacketType {
            version: 1,
            timecode: false,
            storage: false,
            reply: false,
            query: false,
            push: true,
        },
        sequence_number: 1,
        pixel_config: PixelConfig::default(),
        id: ID::default(),
        offset: 0,
        length: data.len() as u16,
        time_code: TimeCode(None),
    };

    let header_bytes = header.encode();
    let mut packet_bytes = header_bytes.to_vec();
    packet_bytes.extend_from_slice(&data);

    let parsed = Packet::from_bytes(&packet_bytes);
    assert_eq!(parsed.data.len(), data.len());
    assert_eq!(parsed.data, data);
}
