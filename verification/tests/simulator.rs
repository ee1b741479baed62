use great_atuin::ISISConfig;
use great_atuin::ISISNeighborSimulator;
use great_atuin::IsisError;

#[test]
fn test_system_id_extraction() {
    let config = ISISConfig {
        net: "49.0972.0007.0100.0004.00".to_string(),
        ..Default::default()
    };
    let simulator = ISISNeighborSimulator::new(config).unwrap();
    assert_eq!(simulator.system_id, "0007.0100.0004");
}

#[test]
fn test_area_id_formatting() {
    assert_eq!(ISISNeighborSimulator::format_area_id("49.972"), "49.972");
}

#[test]
fn system_id_and_area_id_of_canonical_net() {
    let config = ISISConfig {
        net: "49.0972.0007.0100.0004.00".to_string(),
        ..Default::default()
    };
    let simulator = ISISNeighborSimulator::new(config).unwrap();
    assert_eq!(simulator.system_id, "0007.0100.0004");
    assert_eq!(simulator.area_id, "49.0972");
}

#[test]
fn system_id_of_another_net() {
    let config = ISISConfig {
        net: "49.0001.1921.6800.1001.00".to_string(),
        ..Default::default()
    };
    let simulator = ISISNeighborSimulator::new(config).unwrap();
    assert_eq!(simulator.system_id, "1921.6800.1001");
    assert_eq!(simulator.area_id, "49.0001");
}

#[test]
fn new_rejects_short_net() {
    let config = ISISConfig {
        net: "49.972".to_string(),
        ..Default::default()
    };
    match ISISNeighborSimulator::new(config) {
        Err(IsisError::InvalidFormat) => {}
        _ => panic!("a short NET must fail with InvalidFormat"),
    }
}

#[test]
fn new_rejects_net_without_groups() {
    let config = ISISConfig {
        net: "4909720007010000040000".to_string(),
        ..Default::default()
    };
    match ISISNeighborSimulator::new(config) {
        Err(IsisError::InvalidFormat) => {}
        _ => panic!("a NET without two groups must fail with InvalidFormat"),
    }
}

#[test]
fn new_rejects_non_hex_system_id() {
    let config = ISISConfig {
        net: "49.0972.g007.0100.0004.00".to_string(),
        ..Default::default()
    };
    match ISISNeighborSimulator::new(config) {
        Err(IsisError::InvalidFormat) => {}
        _ => panic!("a non-hex System ID slice must fail with InvalidFormat"),
    }
}

#[test]
fn new_rejects_empty_net() {
    let config = ISISConfig::default();
    match ISISNeighborSimulator::new(config) {
        Err(IsisError::InvalidFormat) => {}
        _ => panic!("an empty NET must fail with InvalidFormat"),
    }
}

#[test]
fn new_accepts_net_of_exactly_22_characters() {
    let config = ISISConfig {
        net: "49.0972.0007.0100.0004".to_string(),
        ..Default::default()
    };
    let simulator = ISISNeighborSimulator::new(config).unwrap();
    assert_eq!(simulator.system_id, "0007.0100.0004");
    assert_eq!(simulator.area_id, "49.0972");
}

#[test]
fn error_messages_name_each_failure() {
    assert_eq!(IsisError::InvalidFormat.message(), "invalid NET format");
    assert_eq!(IsisError::InvalidAddress.message(), "invalid router address");
    assert_eq!(IsisError::DeviceNotFound.message(), "device not found");
    assert_eq!(IsisError::CaptureError.message(), "capture error");
}

#[test]
fn extract_area_id_pads_both_groups() {
    assert_eq!(
        ISISNeighborSimulator::extract_area_id("9.5.rest.ignored").unwrap(),
        "09.05"
    );
}

#[test]
fn extract_area_id_needs_two_groups() {
    match ISISNeighborSimulator::extract_area_id("49") {
        Err(IsisError::InvalidFormat) => {}
        _ => panic!("one group is not enough for an Area ID"),
    }
}

#[test]
fn format_area_id_pads_short_groups() {
    assert_eq!(ISISNeighborSimulator::format_area_id("9.5"), "09.05");
    assert_eq!(ISISNeighborSimulator::format_area_id("49.0972"), "49.0972");
    assert_eq!(ISISNeighborSimulator::format_area_id(""), "00");
    assert_eq!(ISISNeighborSimulator::format_area_id("7"), "07");
}

#[test]
fn format_area_id_is_idempotent_on_examples() {
    let once = ISISNeighborSimulator::format_area_id("9.5");
    let twice = ISISNeighborSimulator::format_area_id(&once);
    assert_eq!(twice, once);

    let once = ISISNeighborSimulator::format_area_id("49.972");
    let twice = ISISNeighborSimulator::format_area_id(&once);
    assert_eq!(twice, once);

    let once = ISISNeighborSimulator::format_area_id("..7.");
    let twice = ISISNeighborSimulator::format_area_id(&once);
    assert_eq!(twice, once);
}
