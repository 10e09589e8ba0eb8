use ddp_rs::protocol::PacketType;

#[test]
fn test_packet_type_parse() {
    let byte: u8 = 0b00010110;
    let packet_type = PacketType::from_byte(byte);

    assert_eq!(
        packet_type,
        PacketType {
            version: 0,
            timecode: true,
            storage: false,
            reply: true,
            query: true,
            push: false,
        }
    );
}

#[test]
fn test_packet_type_into_u8() {
    let packet_type = PacketType {
        version: 1,
        timecode: true,
        storage: false,
        reply: true,
        query: true,
        push: false,
    };

    let byte: u8 = packet_type.to_byte();
    assert_eq!(byte, 0x56);
}

#[test]
fn test_packet_type_default() {
    let pt = PacketType::default();
    assert_eq!(pt.version, 1);
    assert!(!pt.timecode);
    assert!(!pt.storage);
    assert!(!pt.reply);
    assert!(!pt.query);
    assert!(!pt.push);
    assert_eq!(pt.to_byte(), 0x40);
}

#[test]
fn test_packet_type_round_trip_all_flag_bytes() {
    // Every byte whose version bits are a decodable pattern round-trips
    // through decode then encode, except for the reserved bit (weight 32),
    // which decode drops.
    for byte in 0u8..=255 {
        let pt = PacketType::from_byte(byte);
        let back = pt.to_byte();
        assert_eq!(back, byte & 0b1101_1111);
    }
}
