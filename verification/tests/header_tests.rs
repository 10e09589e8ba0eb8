use ddp_rs::protocol::{pixel_config, Header, PacketType, PixelConfig, PixelFormat, ID};
use ddp_rs::protocol::timecode::TimeCode;

#[test]
fn test_parsing() {
    // Normal
    {
        let data: [u8; 10] = [65, 6, 10, 1, 0, 0, 0, 0, 0, 3];
        let header = Header::decode(&data[..]);

        assert_eq!(
            header.packet_type,
            PacketType {
                version: 1,
                timecode: false,
                storage: false,
                reply: false,
                query: false,
                push: true
            }
        );
        assert_eq!(header.sequence_number, 6);
        assert_eq!(header.length, 3);
        assert_eq!(header.offset, 0);
    }

    // oddity
    {
        let data: [u8; 10] = [255, 12, 13, 1, 0, 0, 0x99, 0xd5, 0x01, 0x19];
        let header = Header::decode(&data[..]);

        assert_eq!(
            header.packet_type,
            PacketType {
                version: 3,
                timecode: true,
                storage: true,
                reply: true,
                query: true,
                push: true
            }
        );

        assert_eq!(header.sequence_number, 12);
        assert_eq!(
            header.pixel_config,
            PixelConfig {
                data_type: pixel_config::DataType::RGB,
                data_size: PixelFormat::Pixel24Bits,
                customer_defined: false
            }
        );
        assert_eq!(header.length, 281);
        assert_eq!(header.offset, 39381);
    }
}

#[test]
fn test_header_round_trip_10_byte_form() {
    // decode(encode(header)) == header for the 10-byte form.
    let header = Header {
        packet_type: PacketType {
            version: 2,
            timecode: false,
            storage: true,
            reply: false,
            query: true,
            push: true,
        },
        sequence_number: 7,
        pixel_config: PixelConfig::default(),
        id: ID::Custom(99),
        offset: 0xDEADBEEF,
        length: 1440,
        time_code: TimeCode(None),
    };
    let bytes = header.encode();
    assert_eq!(bytes.len(), 10);
    assert_eq!(Header::decode(&bytes), header);
}

#[test]
fn test_header_round_trip_14_byte_form() {
    // decode(encode(header)) == header for the 14-byte (timecode) form.
    let header = Header {
        packet_type: PacketType {
            version: 1,
            timecode: true,
            storage: false,
            reply: true,
            query: false,
            push: false,
        },
        sequence_number: 15,
        pixel_config: PixelConfig::default(),
        id: ID::Status,
        offset: 1440,
        length: 560,
        time_code: TimeCode(Some(0xCAFEBABE)),
    };
    let bytes = header.encode();
    assert_eq!(bytes.len(), 14);
    assert_eq!(Header::decode(&bytes), header);
}

#[test]
fn test_header_encode_big_endian_fields() {
    let header = Header {
        packet_type: PacketType::default(),
        sequence_number: 1,
        pixel_config: PixelConfig::default(),
        id: ID::Default,
        offset: 0x01020304,
        length: 0x0506,
        time_code: TimeCode(None),
    };
    let bytes = header.encode();
    assert_eq!(&bytes[4..8], &[0x01, 0x02, 0x03, 0x04]);
    assert_eq!(&bytes[8..10], &[0x05, 0x06]);
}
