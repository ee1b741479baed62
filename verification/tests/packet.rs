use great_atuin::ISISConfig;
use great_atuin::ISISNeighborSimulator;
use great_atuin::ISISPacketBuilder;
use great_atuin::IsisError;
use great_atuin::PDUType;

fn simulator_with(net: &str, router_ip: &str) -> ISISNeighborSimulator {
    let config = ISISConfig {
        router_ip: router_ip.to_string(),
        net: net.to_string(),
        ..Default::default()
    };
    ISISNeighborSimulator::new(config).unwrap()
}

#[test]
fn builder_ethernet_header_bytes() {
    let mut builder = ISISPacketBuilder::new();
    builder.add_ethernet_header();
    let bytes = builder.build();
    assert_eq!(
        bytes,
        vec![0x01, 0x80, 0xc2, 0x00, 0x00, 0x14, 0x00, 0x00, 0x00, 0x00, 0x00, 0x00, 0x83, 0xFE]
    );
}

#[test]
fn builder_isis_header_bytes() {
    let mut builder = ISISPacketBuilder::new();
    builder.add_isis_header(PDUType::P2PHello);
    assert_eq!(builder.build(), vec![0x83, 0x11, 0x01, 0x00]);
}

#[test]
fn builder_decodes_system_id() {
    let mut builder = ISISPacketBuilder::new();
    builder.add_system_id("0007.0100.0004").unwrap();
    assert_eq!(builder.build(), vec![0x00, 0x07, 0x01, 0x00, 0x00, 0x04]);
}

#[test]
fn builder_rejects_non_hex_system_id() {
    let mut builder = ISISPacketBuilder::new();
    match builder.add_system_id("zz07.0100.0004") {
        Err(IsisError::InvalidFormat) => {}
        _ => panic!("non-hex digits must fail with InvalidFormat"),
    }
    assert_eq!(builder.build(), Vec::<u8>::new());
}

#[test]
fn builder_rejects_odd_digit_count() {
    let mut builder = ISISPacketBuilder::new();
    match builder.add_system_id("007") {
        Err(IsisError::InvalidFormat) => {}
        _ => panic!("an odd number of hex digits must fail with InvalidFormat"),
    }
}

#[test]
fn crafted_packet_layout_is_byte_exact() {
    let simulator = simulator_with("49.0972.0007.0100.0004.00", "1.2.3.5");
    let packet = simulator.craft_hello_packet().unwrap();

    // Link-layer header: multicast destination, zero source, IS-IS EtherType.
    assert_eq!(&packet[0..6], &[0x01, 0x80, 0xc2, 0x00, 0x00, 0x14]);
    assert_eq!(&packet[6..12], &[0x00; 6]);
    assert_eq!(&packet[12..14], &[0x83, 0xFE]);
    // ISIS common header for a P2P Hello.
    assert_eq!(&packet[14..18], &[0x83, 0x11, 0x01, 0x00]);
    // The decoded 6-byte System ID.
    assert_eq!(&packet[18..24], &[0x00, 0x07, 0x01, 0x00, 0x00, 0x04]);
    // Hold time, big-endian 30.
    assert_eq!(&packet[24..26], &[0x00, 0x1E]);
    // Area-Address TLV: length is the exact byte count of the value.
    assert_eq!(packet[26], 0x01);
    assert_eq!(packet[27], 7);
    assert_eq!(&packet[28..35], b"49.0972");
    // Protocols-Supported TLV.
    assert_eq!(&packet[35..38], &[0x81, 0x01, 0xCC]);
    // IP-Interface-Address TLV: length 4, then the four octets.
    assert_eq!(&packet[38..40], &[0x8E, 0x04]);
    assert_eq!(&packet[40..44], &[1, 2, 3, 5]);
    // Padding TLV and its 255 zero bytes.
    assert_eq!(&packet[44..46], &[0xFF, 0xFF]);
    assert_eq!(packet.len(), 301);
    assert!(packet[46..301].iter().all(|b| *b == 0));
}

#[test]
fn crafted_packet_length_tracks_area_id_length() {
    let a = simulator_with("49.0972.0007.0100.0004.00", "1.2.3.5");
    let b = simulator_with("4.09725.0007.0100.0004.00", "1.2.3.5");
    let pa = a.craft_hello_packet().unwrap();
    let pb = b.craft_hello_packet().unwrap();
    // 294 bytes plus the area id: "49.0972" and "04.09725".
    assert_eq!(b.area_id, "04.09725");
    assert_eq!(pa.len(), 294 + 7);
    assert_eq!(pb.len(), 294 + 8);
    // Both end in exactly 255 padding zeros.
    assert!(pa[pa.len() - 255..].iter().all(|x| *x == 0));
    assert_ne!(pa[pa.len() - 256], 0);
    assert!(pb[pb.len() - 255..].iter().all(|x| *x == 0));
}

#[test]
fn craft_rejects_bad_router_addresses() {
    for bad in [
        "1.2.3",
        "1.2.3.4.5",
        "1.2.3.256",
        "1.2.3.x",
        "1.2..4",
        "",
        "...",
    ] {
        let simulator = simulator_with("49.0972.0007.0100.0004.00", bad);
        match simulator.craft_hello_packet() {
            Err(IsisError::InvalidAddress) => {}
            _ => panic!("router address {:?} must fail with InvalidAddress", bad),
        }
    }
}

#[test]
fn craft_accepts_boundary_octets() {
    let simulator = simulator_with("49.0972.0007.0100.0004.00", "0.255.007.10");
    let packet = simulator.craft_hello_packet().unwrap();
    assert_eq!(&packet[40..44], &[0, 255, 7, 10]);
}

#[test]
fn crafted_packet_passes_framing_and_pdu_type_check() {
    // The built frame is EtherType framing with the IS-IS EtherType, and the
    // PDU-type byte the builder wrote sits right after the protocol id.
    let simulator = simulator_with("49.0972.0007.0100.0004.00", "1.2.3.5");
    let packet = simulator.craft_hello_packet().unwrap();
    let field = u16::from_be_bytes([packet[12], packet[13]]);
    assert_eq!(field, 0x83FE);
    assert!(field > 1500);
    let payload = &packet[14..];
    assert_eq!(payload[1], 17);
}
