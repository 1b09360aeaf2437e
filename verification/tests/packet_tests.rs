use rai_connect::packet::{
    inject_supporter_privileges, Packet, PacketHeader, Privileges, ServerPacketId,
};

#[test]
fn test_parse_header() {
    let data = [5, 0, 0, 4, 0, 0, 0, 1, 0, 0, 0];
    let header = PacketHeader::parse(&data).unwrap();

    assert_eq!(header.packet_id, 5);
    assert_eq!(header.compression, 0);
    assert_eq!(header.length, 4);
}

#[test]
fn test_privileges_supporter() {
    let priv_normal = Privileges(Privileges::NORMAL);
    assert!(!priv_normal.has_supporter());

    let priv_supporter = priv_normal.with_supporter();
    assert!(priv_supporter.has_supporter());
    assert_eq!(
        priv_supporter.value(),
        Privileges::NORMAL | Privileges::SUPPORTER
    );
}

#[test]
fn test_inject_supporter() {
    let mut packet = Packet {
        header: PacketHeader {
            packet_id: 71,
            compression: 0,
            length: 4,
        },
        payload: Privileges::NORMAL.to_le_bytes().to_vec(),
    };

    inject_supporter_privileges(&mut packet);

    let new_priv = u32::from_le_bytes([
        packet.payload[0],
        packet.payload[1],
        packet.payload[2],
        packet.payload[3],
    ]);

    assert!(Privileges(new_priv).has_supporter());
}

#[test]
fn test_parse_multiple_consecutive_packets() {
    let mut data = Vec::new();

    data.extend_from_slice(&[5, 0, 0, 4, 0, 0, 0]);
    data.extend_from_slice(&[1, 0, 0, 0]);

    data.extend_from_slice(&[71, 0, 0, 4, 0, 0, 0]);
    data.extend_from_slice(&[1, 0, 0, 0]);

    let (packets, remaining) = Packet::parse_stream(&data);

    assert_eq!(packets.len(), 2);
    assert!(remaining.is_empty());

    assert_eq!(packets[0].packet_type(), ServerPacketId::LoginReply);
    assert_eq!(packets[1].packet_type(), ServerPacketId::UserPrivileges);
}

#[test]
fn test_parse_three_packets() {
    let mut data = Vec::new();

    data.extend_from_slice(&[5, 0, 0, 4, 0, 0, 0]);
    data.extend_from_slice(&[1, 2, 3, 4]);

    data.extend_from_slice(&[75, 0, 0, 2, 0, 0, 0]);
    data.extend_from_slice(&[10, 20]);

    data.extend_from_slice(&[24, 0, 0, 0, 0, 0, 0]);

    let (packets, remaining) = Packet::parse_stream(&data);

    assert_eq!(packets.len(), 3);
    assert!(remaining.is_empty());

    assert_eq!(packets[0].header.length, 4);
    assert_eq!(packets[1].header.length, 2);
    assert_eq!(packets[2].header.length, 0);
}

#[test]
fn test_incomplete_header() {
    let data = [5, 0, 0, 4, 0];

    let (packets, remaining) = Packet::parse_stream(&data);

    assert!(packets.is_empty());
    assert_eq!(remaining.len(), 5);
}

#[test]
fn test_incomplete_payload() {
    let data = [5, 0, 0, 10, 0, 0, 0, 1, 2, 3, 4];

    let (packets, remaining) = Packet::parse_stream(&data);

    assert!(packets.is_empty());
    assert_eq!(remaining.len(), 11);
}

#[test]
fn test_one_complete_one_incomplete() {
    let mut data = Vec::new();

    data.extend_from_slice(&[5, 0, 0, 4, 0, 0, 0]);
    data.extend_from_slice(&[1, 0, 0, 0]);

    data.extend_from_slice(&[71, 0, 0, 10, 0, 0, 0]);
    data.extend_from_slice(&[1, 2, 3]);

    let (packets, remaining) = Packet::parse_stream(&data);

    assert_eq!(packets.len(), 1);
    assert_eq!(packets[0].packet_type(), ServerPacketId::LoginReply);
    assert_eq!(remaining.len(), 10);
}

#[test]
fn test_incomplete_header_after_complete_packet() {
    let mut data = Vec::new();

    data.extend_from_slice(&[5, 0, 0, 4, 0, 0, 0]);
    data.extend_from_slice(&[1, 0, 0, 0]);

    data.extend_from_slice(&[71, 0, 0]);

    let (packets, remaining) = Packet::parse_stream(&data);

    assert_eq!(packets.len(), 1);
    assert_eq!(remaining.len(), 3);
}

#[test]
fn test_empty_payload_packet() {
    let data = [24, 0, 0, 0, 0, 0, 0];

    let (packets, remaining) = Packet::parse_stream(&data);

    assert_eq!(packets.len(), 1);
    assert!(remaining.is_empty());
    assert!(packets[0].payload.is_empty());
    assert_eq!(packets[0].header.length, 0);
}

#[test]
fn test_multiple_empty_payload_packets() {
    let mut data = Vec::new();

    data.extend_from_slice(&[5, 0, 0, 0, 0, 0, 0]);
    data.extend_from_slice(&[71, 0, 0, 0, 0, 0, 0]);
    data.extend_from_slice(&[24, 0, 0, 0, 0, 0, 0]);

    let (packets, remaining) = Packet::parse_stream(&data);

    assert_eq!(packets.len(), 3);
    assert!(remaining.is_empty());
    for packet in &packets {
        assert!(packet.payload.is_empty());
    }
}

#[test]
fn test_large_payload() {
    let payload_size: u32 = 65536;
    let mut data = Vec::new();

    data.push(5);
    data.push(0);
    data.push(0);
    data.extend_from_slice(&payload_size.to_le_bytes());

    data.extend(vec![0xAB; payload_size as usize]);

    let (packets, remaining) = Packet::parse_stream(&data);

    assert_eq!(packets.len(), 1);
    assert!(remaining.is_empty());
    assert_eq!(packets[0].payload.len(), payload_size as usize);
}

#[test]
fn test_large_payload_incomplete() {
    let payload_size: u32 = 1_000_000;
    let actual_data_size = 1000;

    let mut data = Vec::new();
    data.push(5);
    data.push(0);
    data.push(0);
    data.extend_from_slice(&payload_size.to_le_bytes());
    data.extend(vec![0xAB; actual_data_size]);

    let (packets, remaining) = Packet::parse_stream(&data);

    assert!(packets.is_empty());
    assert_eq!(remaining.len(), 7 + actual_data_size);
}

#[test]
fn test_empty_input() {
    let data: [u8; 0] = [];

    let (packets, remaining) = Packet::parse_stream(&data);

    assert!(packets.is_empty());
    assert!(remaining.is_empty());
}

#[test]
fn test_packet_roundtrip() {
    let original = Packet {
        header: PacketHeader {
            packet_id: 71,
            compression: 0,
            length: 4,
        },
        payload: vec![1, 2, 3, 4],
    };

    let bytes = original.to_bytes();
    let (packets, remaining) = Packet::parse_stream(&bytes);

    assert_eq!(packets.len(), 1);
    assert!(remaining.is_empty());

    assert_eq!(packets[0].header.packet_id, original.header.packet_id);
    assert_eq!(packets[0].header.compression, original.header.compression);
    assert_eq!(packets[0].header.length, original.header.length);
    assert_eq!(packets[0].payload, original.payload);
}

#[test]
fn test_multiple_packet_roundtrip() {
    let packets_original = vec![
        Packet {
            header: PacketHeader {
                packet_id: 5,
                compression: 0,
                length: 4,
            },
            payload: vec![1, 0, 0, 0],
        },
        Packet {
            header: PacketHeader {
                packet_id: 71,
                compression: 0,
                length: 4,
            },
            payload: vec![5, 0, 0, 0],
        },
    ];

    let mut bytes = Vec::new();
    for packet in &packets_original {
        bytes.extend(packet.to_bytes());
    }

    let (packets_parsed, remaining) = Packet::parse_stream(&bytes);

    assert_eq!(packets_parsed.len(), 2);
    assert!(remaining.is_empty());

    for (original, parsed) in packets_original.iter().zip(packets_parsed.iter()) {
        assert_eq!(original.header.packet_id, parsed.header.packet_id);
        assert_eq!(original.payload, parsed.payload);
    }
}

#[test]
fn test_header_parse_exact_size() {
    let data = [5, 0, 0, 0, 0, 0, 0];

    let header = PacketHeader::parse(&data);

    assert!(header.is_some());
    let header = header.unwrap();
    assert_eq!(header.packet_id, 5);
    assert_eq!(header.length, 0);
}

#[test]
fn test_header_parse_too_short() {
    let data = [5, 0, 0, 0, 0, 0];

    let header = PacketHeader::parse(&data);

    assert!(header.is_none());
}

#[test]
fn test_header_to_bytes_roundtrip() {
    let original = PacketHeader {
        packet_id: 12345,
        compression: 1,
        length: 0x12345678,
    };

    let bytes = original.to_bytes();
    let parsed = PacketHeader::parse(&bytes).unwrap();

    assert_eq!(original.packet_id, parsed.packet_id);
    assert_eq!(original.compression, parsed.compression);
    assert_eq!(original.length, parsed.length);
}

#[test]
fn test_inject_supporter_wrong_packet_type() {
    let mut packet = Packet {
        header: PacketHeader {
            packet_id: 5,
            compression: 0,
            length: 4,
        },
        payload: vec![1, 0, 0, 0],
    };

    let payload_before = packet.payload.clone();
    inject_supporter_privileges(&mut packet);

    assert_eq!(packet.payload, payload_before);
}

#[test]
fn test_inject_supporter_payload_too_short() {
    let mut packet = Packet {
        header: PacketHeader {
            packet_id: 71,
            compression: 0,
            length: 2,
        },
        payload: vec![1, 0],
    };

    let payload_before = packet.payload.clone();
    inject_supporter_privileges(&mut packet);

    assert_eq!(packet.payload, payload_before);
}

#[test]
fn test_inject_supporter_already_has_supporter() {
    let initial_privs = Privileges::NORMAL | Privileges::SUPPORTER;
    let mut packet = Packet {
        header: PacketHeader {
            packet_id: 71,
            compression: 0,
            length: 4,
        },
        payload: initial_privs.to_le_bytes().to_vec(),
    };

    inject_supporter_privileges(&mut packet);

    let new_priv = u32::from_le_bytes([
        packet.payload[0],
        packet.payload[1],
        packet.payload[2],
        packet.payload[3],
    ]);

    assert!(Privileges(new_priv).has_supporter());
    assert_eq!(new_priv, initial_privs);
}

#[test]
fn test_inject_supporter_twice_is_idempotent() {
    let mut once = Packet {
        header: PacketHeader {
            packet_id: 71,
            compression: 0,
            length: 4,
        },
        payload: vec![1, 0, 0, 0],
    };
    inject_supporter_privileges(&mut once);
    let after_once = once.payload.clone();

    inject_supporter_privileges(&mut once);
    assert_eq!(once.payload, after_once);
}

#[test]
fn test_server_packet_id_from_u16() {
    assert_eq!(ServerPacketId::from(5), ServerPacketId::LoginReply);
    assert_eq!(ServerPacketId::from(75), ServerPacketId::ProtocolVersion);
    assert_eq!(ServerPacketId::from(71), ServerPacketId::UserPrivileges);
    assert_eq!(ServerPacketId::from(83), ServerPacketId::UserPresence);
    assert_eq!(ServerPacketId::from(11), ServerPacketId::UserStats);
    assert_eq!(ServerPacketId::from(64), ServerPacketId::ChannelInfo);
    assert_eq!(ServerPacketId::from(24), ServerPacketId::Notification);
    assert_eq!(ServerPacketId::from(9999), ServerPacketId::Unknown);
    assert_eq!(ServerPacketId::from(0), ServerPacketId::Unknown);
}

#[test]
fn test_privileges_default() {
    let privs = Privileges::default();
    assert_eq!(privs.value(), Privileges::NORMAL);
    assert!(!privs.has_supporter());
}

#[test]
fn test_privileges_bitfield_operations() {
    let privs = Privileges(Privileges::NORMAL | Privileges::SUPPORTER | Privileges::BAT);

    assert!(privs.has_supporter());
    assert_eq!(privs.value() & Privileges::BAT, Privileges::BAT);
    assert_eq!(privs.value() & Privileges::NORMAL, Privileges::NORMAL);
}
