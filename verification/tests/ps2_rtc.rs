use kernel::arch::ps2::{
    movement, ps2_to_hid, MouseLeadByte, Ps2, Ps2Data, Ps2KeyEvent, Ps2KeyState, Ps2MousePhase,
    Ps2MouseReport,
};
use kernel::arch::rtc::Rtc;

#[test]
fn key_make_and_break() {
    let mut ps2 = Ps2::new();
    assert_eq!(ps2.process_key_data(Ps2Data(0x1E)), Some(Ps2KeyEvent { usage: 0x04, is_break: false }));
    assert_eq!(ps2.process_key_data(Ps2Data(0x9E)), Some(Ps2KeyEvent { usage: 0x04, is_break: true }));
    assert_eq!(ps2.process_key_data(Ps2Data(0x1C)), Some(Ps2KeyEvent { usage: 0x28, is_break: false }));
}

#[test]
fn extended_key_after_prefix() {
    let mut ps2 = Ps2::new();
    assert_eq!(ps2.process_key_data(Ps2Data(0xE0)), None);
    assert_eq!(ps2.key_state, Ps2KeyState::PrefixE0);
    // E0 48: cursor up
    assert_eq!(ps2.process_key_data(Ps2Data(0x48)), Some(Ps2KeyEvent { usage: 0x52, is_break: false }));
    assert_eq!(ps2.key_state, Ps2KeyState::Default);
    // E0 9D: right control released
    assert_eq!(ps2.process_key_data(Ps2Data(0xE0)), None);
    assert_eq!(ps2.process_key_data(Ps2Data(0x9D)), Some(Ps2KeyEvent { usage: 0xE4, is_break: true }));
}

#[test]
fn scancode_table() {
    assert_eq!(ps2_to_hid(0x01), 0x29);
    assert_eq!(ps2_to_hid(0x00), 0);
    assert_eq!(ps2_to_hid(0xC8), 0x52);
}

#[test]
fn mouse_packet() {
    let mut ps2 = Ps2::new();
    // bytes before the acknowledgement are ignored
    assert_eq!(ps2.process_mouse_data(Ps2Data(0x00)), None);
    assert_eq!(ps2.mouse_phase, Ps2MousePhase::Ack);
    assert_eq!(ps2.process_mouse_data(Ps2Data(0xFA)), None);
    assert_eq!(ps2.mouse_phase, Ps2MousePhase::Leading);
    // left button, x negative
    assert_eq!(ps2.process_mouse_data(Ps2Data(0x19)), None);
    assert_eq!(ps2.process_mouse_data(Ps2Data(0xFE)), None);
    assert_eq!(
        ps2.process_mouse_data(Ps2Data(0x05)),
        Some(Ps2MouseReport { buttons: 1, x: -2, y: -5 })
    );
    assert_eq!(ps2.mouse_phase, Ps2MousePhase::Leading);
}

#[test]
fn mouse_invalid_lead_is_skipped() {
    let mut ps2 = Ps2::new();
    ps2.process_mouse_data(Ps2Data(0xFA));
    // no always-one bit
    assert_eq!(ps2.process_mouse_data(Ps2Data(0x01)), None);
    assert_eq!(ps2.mouse_phase, Ps2MousePhase::Leading);
    // overflow
    assert_eq!(ps2.process_mouse_data(Ps2Data(0x48)), None);
    assert_eq!(ps2.mouse_phase, Ps2MousePhase::Leading);
    assert_eq!(ps2.process_mouse_data(Ps2Data(0x2A)), None);
    assert_eq!(ps2.mouse_phase, Ps2MousePhase::X);
    assert_eq!(ps2.process_mouse_data(Ps2Data(0x10)), None);
    assert_eq!(
        ps2.process_mouse_data(Ps2Data(0xFF)),
        Some(Ps2MouseReport { buttons: 2, x: 16, y: 1 })
    );
}

#[test]
fn mouse_movement_sign() {
    assert_eq!(movement(Ps2Data(0x10), false), 16);
    assert_eq!(movement(Ps2Data(0xF0), true), -16);
    assert_eq!(movement(Ps2Data(0x00), true), -256);
    assert!(MouseLeadByte(0x08).is_valid());
    assert!(!MouseLeadByte(0x88).is_valid());
}

#[test]
fn bcd_conversion() {
    assert_eq!(Rtc::bcd_to_dec(0x59), 59);
    assert_eq!(Rtc::bcd_to_dec(0x00), 0);
    assert_eq!(Rtc::fix_value(0x23, true), 23);
    assert_eq!(Rtc::fix_value(0x23, false), 0x23);
}

#[test]
fn twelve_hour_clock() {
    // 12 AM is hour 0, 12 PM is hour 12, 1 PM is hour 13
    assert_eq!(Rtc::fix_hour(0x12, true, true), 0);
    assert_eq!(Rtc::fix_hour(0x92, true, true), 12);
    assert_eq!(Rtc::fix_hour(0x81, true, true), 13);
    assert_eq!(Rtc::fix_hour(0x12, true, false), 12);
    assert_eq!(Rtc::fix_hour(13, false, false), 13);
}

#[test]
fn decode_binary_registers() {
    // register B: binary, 24 hours
    let r = Rtc::decode_raw((30, 15, 8, 24, 12, 23, 20), 0x06);
    assert_eq!(r, (30, 15, 8, 24, 12, 2023));
    let r = Rtc::decode_raw((0x30, 0x15, 0x08, 0x24, 0x12, 0x23, 0x20), 0x02);
    assert_eq!(r, (30, 15, 8, 24, 12, 2023));
}

#[test]
fn seconds_of_day() {
    assert_eq!(Rtc::time_secs(5, 4, 3, 2), 5 + 4 * 60 + 3 * 3600 + 2 * 86400);
    let rtc = Rtc { base_secs: 100, offset: 1_000, century_index: 0 };
    assert_eq!(rtc.system_time(2_500_001_000), (102, 500_000_000));
    assert!(rtc.century_index().is_none());
}
