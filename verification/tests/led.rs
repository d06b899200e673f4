use logitech_sim_led::led::curve::LedBarState;
use logitech_sim_led::led::device::{
    direct_match_candidates, find_interface, find_unsupported_wheel, hid_write_buffer,
    position_of_id, protocol_for_interface, HidInterface, LedWriter, WriterAction, WriterEvent,
    WRITE_FAILURE_LIMIT,
};
use logitech_sim_led::led::protocol::{
    all_known_protocols, known_mode_switches, ClassicLedProtocol, WheelLedProtocol,
    DFGT_PRODUCT_ID, G29_PRODUCT_ID, G920_PRODUCT_ID, G923_PRODUCT_ID, G923_PS_PRODUCT_ID,
    LOGITECH_VENDOR_ID,
};

fn iface(vendor_id: u16, product_id: u16, usage_page: u16, usage: u16) -> HidInterface {
    HidInterface { vendor_id, product_id, usage_page, usage }
}

#[test]
fn lit_leds_fill_from_the_left() {
    assert_eq!(LedBarState::lit(0), LedBarState { bits: 0, blink: false });
    assert_eq!(LedBarState::lit(1).bits, 0b00001);
    assert_eq!(LedBarState::lit(3).bits, 0b00111);
    assert_eq!(LedBarState::lit(5).bits, 0x1f);
    assert_eq!(LedBarState::lit(8).bits, 0xff);
    for n in 0..=8u8 {
        assert_eq!(LedBarState::lit(n).bits.count_ones(), n as u32);
        assert!(!LedBarState::lit(n).blink);
    }
}

#[test]
fn more_lit_leds_never_turn_one_off() {
    for a in 0..=5u8 {
        for b in a..=5u8 {
            let low = LedBarState::lit(a).bits;
            let high = LedBarState::lit(b).bits;
            assert_eq!(low & high, low);
            assert!(low.count_ones() <= high.count_ones());
        }
    }
}

#[test]
fn default_bar_is_dark() {
    assert_eq!(LedBarState::default(), LedBarState { bits: 0, blink: false });
}

#[test]
fn hid_write_buffer_prepends_the_placeholder_byte() {
    let frame = ClassicLedProtocol.encode_leds(0x1f);
    assert_eq!(hid_write_buffer(&frame), vec![0x00, 0xf8, 0x12, 0x1f, 0, 0, 0, 0]);
    assert_eq!(hid_write_buffer(&[]), vec![0x00]);
    let switch = &known_mode_switches()[0];
    assert_eq!(
        hid_write_buffer(&switch.switch_report),
        vec![0x00, 0x30, 0xf8, 0x09, 0x07, 0x01, 0x01, 0x00, 0x00]
    );
}

#[test]
fn direct_candidates_are_only_the_joystick_interface_of_driven_wheels() {
    let protocols = all_known_protocols();
    let interfaces = vec![
        iface(0x1234, 0x0001, 0x0001, 0x0004),
        iface(LOGITECH_VENDOR_ID, G29_PRODUCT_ID, 0xff00, 0x0001),
        iface(LOGITECH_VENDOR_ID, G29_PRODUCT_ID, 0x0001, 0x0004),
        iface(LOGITECH_VENDOR_ID, G923_PS_PRODUCT_ID, 0x0001, 0x0004),
        iface(LOGITECH_VENDOR_ID, G923_PRODUCT_ID, 0x0001, 0x0004),
    ];
    assert_eq!(direct_match_candidates(&interfaces, &protocols), vec![(2, 0), (4, 0)]);
    assert!(direct_match_candidates(&interfaces[..2], &protocols).is_empty());
    assert!(direct_match_candidates(&[], &protocols).is_empty());
}

#[test]
fn mode_switch_interfaces_are_found_in_enumeration_order() {
    let switch = &known_mode_switches()[0];
    let source = switch.source_interface();
    assert_eq!(source, iface(LOGITECH_VENDOR_ID, G923_PS_PRODUCT_ID, 0x0001, 0x0004));
    let target = switch.target_interface();
    assert_eq!(target, iface(LOGITECH_VENDOR_ID, G923_PRODUCT_ID, 0x0001, 0x0004));

    let before = vec![
        iface(LOGITECH_VENDOR_ID, G923_PS_PRODUCT_ID, 0xff43, 0x0602),
        iface(LOGITECH_VENDOR_ID, G923_PS_PRODUCT_ID, 0x0001, 0x0004),
    ];
    assert_eq!(find_interface(&before, source), Some(1));
    assert_eq!(find_interface(&before, target), None);

    let after = vec![
        iface(LOGITECH_VENDOR_ID, G923_PRODUCT_ID, 0x0001, 0x0004),
        iface(LOGITECH_VENDOR_ID, G923_PRODUCT_ID, 0x0001, 0x0004),
    ];
    let found = find_interface(&after, target).expect("re-enumerated wheel");
    assert_eq!(found, 0);
    assert_eq!(protocol_for_interface(after[found], &all_known_protocols()), Some(0));
    assert_eq!(protocol_for_interface(before[1], &all_known_protocols()), None);
}

#[test]
fn unsupported_wheel_is_reported_by_name() {
    let interfaces = vec![
        iface(0x045e, G920_PRODUCT_ID, 0x0001, 0x0004),
        iface(LOGITECH_VENDOR_ID, 0xc52b, 0x0001, 0x0002),
        iface(LOGITECH_VENDOR_ID, DFGT_PRODUCT_ID, 0x0001, 0x0004),
        iface(LOGITECH_VENDOR_ID, G920_PRODUCT_ID, 0x0001, 0x0004),
    ];
    assert_eq!(find_unsupported_wheel(&interfaces), Some((DFGT_PRODUCT_ID, "Driving Force GT")));
    assert_eq!(find_unsupported_wheel(&interfaces[3..]), Some((G920_PRODUCT_ID, "G920")));
    assert_eq!(find_unsupported_wheel(&interfaces[..2]), None);
}

#[test]
fn protocols_are_found_by_id() {
    let protocols = all_known_protocols();
    assert_eq!(position_of_id(&protocols, ClassicLedProtocol.id()), Some(0));
    assert_eq!(position_of_id(&protocols, "g920"), None);
}

#[test]
fn steady_state_is_written_as_is() {
    let mut writer = LedWriter::new();
    let state = LedBarState { bits: 0x07, blink: false };
    match writer.on_event(WriterEvent::NewState(state), true) {
        WriterAction::Write { bits, restart_blink_timer } => {
            assert_eq!(bits, 0x07);
            assert!(!restart_blink_timer);
        }
        WriterAction::ClearAndStop => panic!("not shutting down"),
    }
    match writer.on_event(WriterEvent::Timeout, false) {
        WriterAction::Write { bits, .. } => assert_eq!(bits, 0x07),
        WriterAction::ClearAndStop => panic!("not shutting down"),
    }
}

#[test]
fn redline_blink_alternates_with_the_timer() {
    let mut writer = LedWriter::new();
    let redline = LedBarState { bits: 0x1f, blink: true };
    let mut shown = Vec::new();
    for (event, elapsed) in [
        (WriterEvent::NewState(redline), true),
        (WriterEvent::Timeout, false),
        (WriterEvent::Timeout, true),
        (WriterEvent::Timeout, true),
    ] {
        match writer.on_event(event, elapsed) {
            WriterAction::Write { bits, restart_blink_timer } => {
                assert_eq!(restart_blink_timer, elapsed);
                shown.push(bits);
            }
            WriterAction::ClearAndStop => panic!("not shutting down"),
        }
    }
    assert_eq!(shown, vec![0x1f, 0x1f, 0x00, 0x1f]);
}

#[test]
fn disconnect_clears_and_stops() {
    let mut writer = LedWriter::new();
    assert!(matches!(writer.on_event(WriterEvent::Disconnected, false), WriterAction::ClearAndStop));
}

#[test]
fn wheel_is_given_up_after_five_consecutive_failures() {
    let mut writer = LedWriter::new();
    for _ in 0..4 {
        assert!(!writer.on_write_result(false));
    }
    // A success in between starts the count over.
    assert!(!writer.on_write_result(true));
    assert_eq!(writer.consecutive_write_failures, 0);
    for _ in 0..(WRITE_FAILURE_LIMIT - 1) {
        assert!(!writer.on_write_result(false));
    }
    assert!(writer.on_write_result(false));
    assert_eq!(writer.consecutive_write_failures, WRITE_FAILURE_LIMIT);
}
