use great_atuin::ExchangeOutcome;
use great_atuin::ISISConfig;
use great_atuin::ISISNeighborSimulator;

fn simulator() -> ISISNeighborSimulator {
    let config = ISISConfig {
        router_ip: "1.2.3.5".to_string(),
        net: "49.0972.0007.0100.0004.00".to_string(),
        ..Default::default()
    };
    ISISNeighborSimulator::new(config).unwrap()
}

/// An EtherType-framed frame: 12 header bytes, the IS-IS EtherType, and a
/// 9-byte payload with the given PDU-type and circuit-type bytes.
fn ethertype_frame(pdu: u8, circuit: u8) -> Vec<u8> {
    let mut f = vec![0u8; 12];
    f.extend_from_slice(&[0x83, 0xFE]);
    let mut payload = vec![0u8; 9];
    payload[4] = pdu;
    payload[8] = circuit;
    f.extend_from_slice(&payload);
    f
}

/// A legacy-framed frame: 12 header bytes, a length field, a 3-byte LLC
/// header, and a 9-byte payload with the given PDU-type and circuit-type
/// bytes.
fn legacy_frame(dsap: u8, ssap: u8, pdu: u8, circuit: u8) -> Vec<u8> {
    let mut f = vec![0u8; 12];
    f.extend_from_slice(&[0x00, 0x40]);
    f.extend_from_slice(&[dsap, ssap, 0x03]);
    let mut payload = vec![0u8; 9];
    payload[4] = pdu;
    payload[8] = circuit;
    f.extend_from_slice(&payload);
    f
}

#[test]
fn verify_rejects_short_frames() {
    let simulator = simulator();
    let sent: Vec<u8> = Vec::new();
    for n in 0..14 {
        let frame = vec![0u8; n];
        assert!(!simulator.verify_response(&sent, &frame));
    }
}

#[test]
fn verify_rejects_legacy_frame_with_bad_sap() {
    let simulator = simulator();
    let sent: Vec<u8> = Vec::new();
    assert!(!simulator.verify_response(&sent, &legacy_frame(0xAA, 0xFE, 17, 1)));
    assert!(!simulator.verify_response(&sent, &legacy_frame(0xFE, 0xAA, 17, 1)));
    assert!(!simulator.verify_response(&sent, &legacy_frame(0x00, 0x00, 17, 1)));
}

#[test]
fn verify_accepts_legacy_frame_with_isis_sap() {
    let simulator = simulator();
    let sent: Vec<u8> = Vec::new();
    assert!(simulator.verify_response(&sent, &legacy_frame(0xFE, 0xFE, 16, 2)));
}

#[test]
fn verify_rejects_legacy_frame_too_short_for_llc() {
    let simulator = simulator();
    let sent: Vec<u8> = Vec::new();
    // 16 bytes: length field 64, but no room for the LLC header.
    let mut frame = vec![0u8; 12];
    frame.extend_from_slice(&[0x00, 0x40, 0xFE, 0xFE]);
    assert!(!simulator.verify_response(&sent, &frame));
}

#[test]
fn verify_accepts_ethertype_frame_with_valid_hello() {
    let simulator = simulator();
    let sent: Vec<u8> = Vec::new();
    assert!(simulator.verify_response(&sent, &ethertype_frame(17, 1)));
    assert!(simulator.verify_response(&sent, &ethertype_frame(17, 2)));
    assert!(simulator.verify_response(&sent, &ethertype_frame(17, 3)));
    assert!(simulator.verify_response(&sent, &ethertype_frame(15, 1)));
    assert!(simulator.verify_response(&sent, &ethertype_frame(16, 3)));
}

#[test]
fn verify_rejects_wrong_ethertype() {
    let simulator = simulator();
    let sent: Vec<u8> = Vec::new();
    let mut frame = ethertype_frame(17, 1);
    frame[12] = 0x08;
    frame[13] = 0x00;
    assert!(!simulator.verify_response(&sent, &frame));
}

#[test]
fn verify_rejects_bad_pdu_or_circuit_type() {
    let simulator = simulator();
    let sent: Vec<u8> = Vec::new();
    assert!(!simulator.verify_response(&sent, &ethertype_frame(14, 1)));
    assert!(!simulator.verify_response(&sent, &ethertype_frame(18, 1)));
    assert!(!simulator.verify_response(&sent, &ethertype_frame(0, 1)));
    assert!(!simulator.verify_response(&sent, &ethertype_frame(17, 0)));
    assert!(!simulator.verify_response(&sent, &ethertype_frame(17, 4)));
    assert!(!simulator.verify_response(&sent, &ethertype_frame(17, 255)));
}

#[test]
fn verify_rejects_ethertype_frame_with_short_payload() {
    let simulator = simulator();
    let sent: Vec<u8> = Vec::new();
    let mut frame = vec![0u8; 12];
    frame.extend_from_slice(&[0x83, 0xFE]);
    frame.extend_from_slice(&[0x83, 0x11, 0x01, 0x00, 0x11]);
    assert!(!simulator.verify_response(&sent, &frame));
}

#[test]
fn verify_isis_payload_checks_both_offsets() {
    let simulator = simulator();
    let mut payload = vec![0u8; 9];
    payload[4] = 17;
    payload[8] = 1;
    assert!(simulator.verify_isis_payload(&payload));
    payload[8] = 9;
    assert!(!simulator.verify_isis_payload(&payload));
    assert!(!simulator.verify_isis_payload(&payload[..8]));
}

#[test]
fn verify_accepts_captured_legacy_hello() {
    // A captured point-to-point exchange reply: an L2 LAN Hello in legacy LLC
    // framing, length field 0x05d7, DSAP/SSAP 0xFE, PDU type 16, circuit
    // type 2.
    let captured = "0180c2000015d077ceda710705d7fefe03831b01001001000002000701000003001e05d44000070100000306d301008102cc8e01040349097284040506070908ff00000000000000000000000000000000000000000000000000000000000000000000000000000000000000000000000000000000000000000000000000000000000000000000000000000000000000000000000000000000000000000000000000000000000000000000000000000000000000000000000000000000000000000000000000000000000000000000000000000000000000000000000000000000000000000000000000000000000000000000000000000000000000000000000000000000000000000000000000000000000000000000000000000000000000000000000000000000000000000000000000000000000000000000000000000008";
    let received = hex::decode(captured).unwrap();
    assert_eq!(u16::from_be_bytes([received[12], received[13]]), 0x05d7);
    assert_eq!(received[14], 0xFE);
    assert_eq!(received[15], 0xFE);
    assert_eq!(received[17 + 4], 16);
    assert_eq!(received[17 + 8], 2);
    let simulator = simulator();
    let sent = simulator.craft_hello_packet().unwrap();
    assert!(simulator.verify_response(&sent, &received));
}

#[test]
fn evaluate_exchange_maps_outcomes() {
    let simulator = simulator();
    let sent: Vec<u8> = Vec::new();
    assert_eq!(
        simulator.evaluate_exchange(&sent, &Some(ethertype_frame(17, 1))),
        ExchangeOutcome::ValidNeighbor
    );
    assert_eq!(
        simulator.evaluate_exchange(&sent, &Some(vec![0u8; 5])),
        ExchangeOutcome::FailedVerification
    );
    assert_eq!(
        simulator.evaluate_exchange(&sent, &None),
        ExchangeOutcome::NoResponse
    );
    assert_eq!(
        simulator.evaluate_exchange(&sent, &None).message(),
        "No response received"
    );
}
