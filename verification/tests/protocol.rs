use logitech_sim_led::led::protocol::{
    all_known_protocols, known_mode_switches, known_unsupported_wheels, ClassicLedProtocol,
    WheelLedProtocol, DFGT_PRODUCT_ID, G27_PRODUCT_ID, G29_PRODUCT_ID, G920_PRODUCT_ID,
    G923_PRODUCT_ID, G923_PS_PRODUCT_ID, G923_XBOX_PRODUCT_ID, LOGITECH_VENDOR_ID,
};

#[test]
fn classic_protocol_matches_g27_g29_and_g923_native_and_xbox() {
    let p = ClassicLedProtocol;
    assert!(p.matches(LOGITECH_VENDOR_ID, G27_PRODUCT_ID));
    assert!(p.matches(LOGITECH_VENDOR_ID, G29_PRODUCT_ID));
    assert!(p.matches(LOGITECH_VENDOR_ID, G923_PRODUCT_ID));
    assert!(p.matches(LOGITECH_VENDOR_ID, G923_XBOX_PRODUCT_ID));
    assert!(!p.matches(LOGITECH_VENDOR_ID, G923_PS_PRODUCT_ID));
    assert!(!p.matches(LOGITECH_VENDOR_ID, G920_PRODUCT_ID));
    assert!(!p.matches(LOGITECH_VENDOR_ID, DFGT_PRODUCT_ID));
    assert!(!p.matches(0x1234, G29_PRODUCT_ID));
}

#[test]
fn classic_protocol_encodes_leds_as_f8_12_bits() {
    let p = ClassicLedProtocol;
    assert_eq!(
        p.encode_leds(0x1f),
        vec![0xf8, 0x12, 0x1f, 0x00, 0x00, 0x00, 0x00]
    );
    // High bits above the 5-LED mask are masked off.
    assert_eq!(
        p.encode_leds(0xff),
        vec![0xf8, 0x12, 0x1f, 0x00, 0x00, 0x00, 0x00]
    );
}

#[test]
fn g923_ps_mode_switch_targets_native_product_id_with_report_id_0x30() {
    let switches = known_mode_switches();
    let g923_ps = switches
        .iter()
        .find(|s| s.matches_product_id == G923_PS_PRODUCT_ID)
        .expect("G923 PS mode switch should be registered");
    assert_eq!(g923_ps.expected_product_id_after_switch, G923_PRODUCT_ID);
    assert_eq!(g923_ps.switch_report[0], 0x30);
    assert_eq!(
        &g923_ps.switch_report[1..],
        &[0xf8, 0x09, 0x07, 0x01, 0x01, 0x00, 0x00]
    );
}

#[test]
fn classic_protocol_reports_its_id_and_interface() {
    let p = ClassicLedProtocol;
    assert_eq!(p.id(), "classic");
    assert_eq!(p.usage_page(), 0x0001);
    assert_eq!(p.usage(), 0x0004);
    assert_eq!(p.encode_leds(0x00), vec![0xf8, 0x12, 0x00, 0x00, 0x00, 0x00, 0x00]);
    assert_eq!(p.encode_leds(0x25), vec![0xf8, 0x12, 0x05, 0x00, 0x00, 0x00, 0x00]);
}

#[test]
fn registry_holds_only_the_classic_protocol() {
    let protocols = all_known_protocols();
    assert_eq!(protocols.len(), 1);
    assert_eq!(protocols[0].id(), "classic");
    assert!(protocols[0].matches(LOGITECH_VENDOR_ID, G29_PRODUCT_ID));
}

#[test]
fn mode_switch_targets_the_joystick_interface() {
    let switches = known_mode_switches();
    assert_eq!(switches.len(), 1);
    assert_eq!(switches[0].id, "g923_ps_to_native");
    assert_eq!(switches[0].usage_page, 0x0001);
    assert_eq!(switches[0].usage, 0x0004);
    // The wheel lands on a product id the classic protocol drives.
    assert!(ClassicLedProtocol.matches(LOGITECH_VENDOR_ID, switches[0].expected_product_id_after_switch));
}

#[test]
fn unsupported_wheels_are_named_and_not_driven() {
    let wheels = known_unsupported_wheels();
    assert_eq!(wheels, vec![(G920_PRODUCT_ID, "G920"), (DFGT_PRODUCT_ID, "Driving Force GT")]);
    for (pid, _) in wheels {
        assert!(!ClassicLedProtocol.matches(LOGITECH_VENDOR_ID, pid));
    }
}
