use kernel::drivers::usb::drivers::usb_hid::{HidMouseReport, UsbHidDriver};
use kernel::io::hid::KeyEvent;
use kernel::io::hid_keys::{usage_to_char_101, usage_to_char_109, HidManager, MouseReport, MouseState};
use kernel::io::hid_parse::{
    HidParseError, HidParsedReport, HidReportCollectionType, HidReportItem, HidReportItemTag,
    HidReportValue, HidUsage, ParsedReportEntry,
};
use kernel::io::hid_stream::{HidBitStreamError, HidBitStreamReader, HidBitStreamWriter};
use kernel::io::hid_parse::HidReportItemTag::{
    Collection, Delimiter, EndCollection, Input, LogicalMaximum, LogicalMinimum, Output, Pop, Push,
    ReportCount, ReportId, ReportSize, Usage, UsageMaximum, UsageMinimum, UsagePage,
};

fn it(tag: HidReportItemTag, v: u32) -> HidReportItem {
    HidReportItem { tag, value: HidReportValue { unsigned: v, signed: v as i32 } }
}

fn signed_byte(tag: HidReportItemTag, v: i8) -> HidReportItem {
    HidReportItem { tag, value: HidReportValue { unsigned: v as u8 as u32, signed: v as i32 } }
}

fn boot_keyboard() -> Vec<HidReportItem> {
    vec![
        it(UsagePage, 1), it(Usage, 6), it(Collection, 1),
        it(UsagePage, 7), it(UsageMinimum, 0xE0), it(UsageMaximum, 0xE7),
        it(LogicalMinimum, 0), it(LogicalMaximum, 1), it(ReportSize, 1), it(ReportCount, 8), it(Input, 2),
        it(ReportCount, 1), it(ReportSize, 8), it(Input, 1),
        it(ReportCount, 5), it(ReportSize, 1), it(UsagePage, 8), it(UsageMinimum, 1), it(UsageMaximum, 5), it(Output, 2),
        it(ReportCount, 1), it(ReportSize, 3), it(Output, 1),
        it(ReportCount, 6), it(ReportSize, 8), it(LogicalMinimum, 0), it(LogicalMaximum, 0x65),
        it(UsagePage, 7), it(UsageMinimum, 0), it(UsageMaximum, 0x65), it(Input, 0),
        it(EndCollection, 0),
    ]
}

fn boot_mouse() -> Vec<HidReportItem> {
    vec![
        it(UsagePage, 1), it(Usage, 2), it(Collection, 1), it(Usage, 1), it(Collection, 0),
        it(UsagePage, 9), it(UsageMinimum, 1), it(UsageMaximum, 3), it(LogicalMinimum, 0), it(LogicalMaximum, 1),
        it(ReportCount, 3), it(ReportSize, 1), it(Input, 2),
        it(ReportCount, 1), it(ReportSize, 5), it(Input, 1),
        it(UsagePage, 1), it(Usage, 0x30), it(Usage, 0x31),
        signed_byte(LogicalMinimum, -127), it(LogicalMaximum, 127), it(ReportSize, 8), it(ReportCount, 2), it(Input, 6),
        it(EndCollection, 0), it(EndCollection, 0),
    ]
}

#[test]
fn parse_boot_keyboard() {
    let report = HidParsedReport::parse(&boot_keyboard()).ok().unwrap();
    assert!(!report.has_report_id());
    assert_eq!(report.initial_bit_position(), 0);
    let app = report.primary_app().unwrap();
    assert_eq!(app.usage(), HidUsage(HidUsage::KEYBOARD));
    assert_eq!(app.report_id(), None);
    let inputs = app.input_items();
    assert_eq!(inputs.len(), 3);
    assert_eq!(inputs[0].usage_min(), HidUsage(HidUsage::MOD_MIN));
    assert_eq!(inputs[0].usage_max(), HidUsage(HidUsage::MOD_MAX));
    assert_eq!((inputs[0].report_size(), inputs[0].report_count()), (1, 8));
    assert!(inputs[1].is_const());
    assert_eq!(inputs[1].usage_min(), HidUsage(0));
    assert!(inputs[2].is_array());
    assert_eq!(inputs[2].usage_max(), HidUsage(0x0007_0065));
    assert_eq!(inputs[2].logical_max(), 0x65);
    assert_eq!(app.bit_count_for_input(), 64);
    assert_eq!(app.bit_count_for_output(), 8);
    assert_eq!(app.bit_count_for_feature(), 0);
    let outputs = app.output_items();
    assert_eq!(outputs[0].usage_min(), HidUsage(0x0008_0001));
    assert!(app.feature_items().is_empty());
}

#[test]
fn decode_keyboard_report() {
    let report = HidParsedReport::parse(&boot_keyboard()).ok().unwrap();
    let buffer = [0x22u8, 0, 0x04, 0x05, 0, 0, 0, 0];
    let app = UsbHidDriver::report_app(&report, &buffer).unwrap();
    assert!(UsbHidDriver::report_complete(buffer.len(), 0, app));
    assert!(!UsbHidDriver::report_complete(7, 0, app));
    let key = UsbHidDriver::keyboard_report(app, &buffer, 0);
    assert_eq!(key.modifier, 0x22);
    assert_eq!(key.keydata, [0x04, 0x05, 0, 0, 0, 0]);
}

#[test]
fn keyboard_leds() {
    let report = HidParsedReport::parse(&boot_keyboard()).ok().unwrap();
    let app = report.primary_app().unwrap();
    assert_eq!(UsbHidDriver::keyboard_led_report(app), Some((vec![0x1F], 1)));
    let mouse = HidParsedReport::parse(&boot_mouse()).ok().unwrap();
    assert_eq!(UsbHidDriver::keyboard_led_report(mouse.primary_app().unwrap()), None);
}

#[test]
fn parse_and_decode_boot_mouse() {
    let report = HidParsedReport::parse(&boot_mouse()).ok().unwrap();
    let app = report.primary_app().unwrap();
    assert_eq!(app.usage(), HidUsage(HidUsage::MOUSE));
    assert_eq!(app.entries[0], ParsedReportEntry::Collection(HidReportCollectionType::Physical));
    assert_eq!(*app.entries.last().unwrap(), ParsedReportEntry::EndCollection(HidReportCollectionType::Physical));
    let inputs = app.input_items();
    assert_eq!(inputs.len(), 4);
    assert_eq!(inputs[2].usage_min(), HidUsage(HidUsage::X));
    assert_eq!(inputs[3].usage_min(), HidUsage(HidUsage::Y));
    assert_eq!(inputs[2].report_count(), 1);
    assert!(inputs[2].is_relative());
    assert_eq!(inputs[2].logical_min(), (-127i32) as u32);
    let m = UsbHidDriver::mouse_report(app, &[0x01, 0xFE, 0x05], 0).unwrap();
    assert_eq!(
        m,
        HidMouseReport { buttons: 1, x: -2, y: 5, wheel: 0, is_absolute: false, max_x: None, max_y: None }
    );
    // a report too short for the axes cannot be decoded
    assert_eq!(UsbHidDriver::mouse_report(app, &[0x01], 0), None);
}

#[test]
fn report_ids_select_applications() {
    let items = vec![
        it(UsagePage, 1), it(Usage, 6), it(Collection, 1), it(ReportId, 2),
        it(UsagePage, 7), it(ReportSize, 8), it(ReportCount, 1), it(UsageMinimum, 0), it(UsageMaximum, 0xFF), it(Input, 0),
        it(EndCollection, 0),
        it(UsagePage, 0x0C), it(Usage, 1), it(Collection, 1), it(ReportId, 1),
        it(ReportSize, 16), it(ReportCount, 1), it(Input, 0),
        it(EndCollection, 0),
    ];
    let report = HidParsedReport::parse(&items).ok().unwrap();
    assert!(report.has_report_id());
    assert_eq!(report.report_ids, vec![2, 1]);
    assert_eq!(report.initial_bit_position(), 8);
    let apps = report.applications();
    assert_eq!(apps.len(), 2);
    assert_eq!(apps[0].report_id(), Some(1));
    assert_eq!(apps[1].report_id(), Some(2));
    assert_eq!(report.app_by_report_id(2).unwrap().usage(), HidUsage(HidUsage::KEYBOARD));
    assert_eq!(report.app_by_report_id(1).unwrap().usage(), HidUsage(HidUsage::CONSUMER_CONTROL));
    assert!(report.app_by_report_id(3).is_none());
    assert_eq!(UsbHidDriver::report_app(&report, &[1, 0, 0]).unwrap().report_id(), Some(1));
    assert!(UsbHidDriver::report_app(&report, &[0, 0, 0]).is_none());
    assert!(UsbHidDriver::report_app(&report, &[7, 0, 0]).is_none());
}

#[test]
fn malformed_and_unsupported_descriptors() {
    assert_eq!(
        HidParsedReport::parse_items(&[it(EndCollection, 0)]).err(),
        Some(HidParseError::Malformed(0))
    );
    assert_eq!(
        HidParsedReport::parse_items(&[it(Push, 0), it(Pop, 0), it(Pop, 0)]).err(),
        Some(HidParseError::Malformed(2))
    );
    assert_eq!(
        HidParsedReport::parse_items(&[it(UsagePage, 1), it(Delimiter, 1)]).err(),
        Some(HidParseError::Unsupported(1))
    );
    assert_eq!(
        HidParsedReport::parse_items(&[it(Collection, 0x80)]).err(),
        Some(HidParseError::Unsupported(0))
    );
    assert_eq!(HidParsedReport::parse(&[it(EndCollection, 0)]).err(), Some(0));
}

#[test]
fn push_and_pop_restore_the_global_state() {
    let items = vec![
        it(UsagePage, 7), it(ReportSize, 8), it(ReportCount, 2), it(Push, 0),
        it(ReportSize, 1), it(Pop, 0), it(Input, 1),
    ];
    let report = HidParsedReport::parse(&items).ok().unwrap();
    // no application collection: the fields stay with the current application
    assert!(report.primary_app().is_none());
    let empty = HidParsedReport::parse(&[]).ok().unwrap();
    assert!(empty.primary_app().is_none());
    assert!(!empty.has_report_id());
}

#[test]
fn bit_stream_reads_fields() {
    let data = [0b1010_1100u8, 0x12, 0x34];
    let mut reader = HidBitStreamReader::new(&data, 2);
    let report = HidParsedReport::parse(&boot_mouse()).ok().unwrap();
    let app = report.primary_app().unwrap();
    let items = app.input_items();
    // three one-bit buttons from bit 2: 1, 1, 0
    assert_eq!(reader.read_bit_array(&items[0]), Ok(0b011));
    assert_eq!(reader.position(), 5);
    reader.advance_by(&items[1]);
    assert_eq!(reader.position(), 10);
    // a signed byte across the byte boundary: bits 10..18
    assert_eq!(reader.read_value_signed(&items[2]), Ok(((0x3412u32 >> 2) & 0xFF) as u8 as i8 as i32));
    assert_eq!(reader.read_value(&items[2]), Err(HidBitStreamError::InvalidParameter));
    // the next field would need a fourth byte
    assert_eq!(reader.read_value_signed(&items[3]), Err(HidBitStreamError::OutOfBounds));
    assert_eq!(reader.position(), 18);
}

#[test]
fn bit_stream_write_then_read() {
    let report = HidParsedReport::parse(&boot_keyboard()).ok().unwrap();
    let app = report.primary_app().unwrap();
    let outputs = app.output_items();
    let mut writer = HidBitStreamWriter::new(vec![0u8; 1]);
    assert_eq!(writer.write_item(&outputs[0], 1), Ok(()));
    assert_eq!(writer.write_item(&outputs[0], 0), Ok(()));
    assert_eq!(writer.write_item(&outputs[0], 1), Ok(()));
    assert_eq!(writer.current_len(), 1);
    assert_eq!(writer.data(), &[0b101]);
    // a three-bit field at bit 3
    assert_eq!(writer.write_item(&outputs[1], 0b110), Ok(()));
    assert_eq!(writer.data(), &[0b0011_0101]);
    let mut reader = HidBitStreamReader::new(writer.data(), 3);
    let inputs = app.input_items();
    assert_eq!(reader.read_bit_array(&inputs[0]), Err(HidBitStreamError::OutOfBounds));
    writer.clear();
    assert_eq!(writer.data(), &[0]);
    // beyond the buffer
    let mut small = HidBitStreamWriter::new(vec![]);
    assert_eq!(small.write_item(&outputs[0], 1), Err(HidBitStreamError::OutOfBounds));
}

#[test]
fn key_characters() {
    assert_eq!(usage_to_char_109(0x04, 0), 'a');
    assert_eq!(usage_to_char_109(0x04, 0x02), 'A');
    assert_eq!(usage_to_char_109(0x04, 0x10), '\x01');
    assert_eq!(usage_to_char_109(0x1E, 0x20), '!');
    assert_eq!(usage_to_char_109(0x2D, 0x02), '=');
    assert_eq!(usage_to_char_109(0x27, 0x02), '0');
    assert_eq!(usage_to_char_109(0x87, 0), '\\');
    assert_eq!(usage_to_char_109(0x87, 0x02), '_');
    assert_eq!(usage_to_char_109(0x89, 0), '\\');
    assert_eq!(usage_to_char_109(0x59, 0), '1');
    assert_eq!(usage_to_char_109(0x4C, 0), '\x7F');
    assert_eq!(usage_to_char_109(0xFF, 0), '\u{FEFF}');
    assert_eq!(usage_to_char_101(0x1E, 0x02), '!');
    assert_eq!(usage_to_char_101(0x05, 0x02), 'B');
    assert_eq!(usage_to_char_101(0x05, 0x01), '\x02');
    assert_eq!(usage_to_char_101(0x2F, 0), '[');
}

#[test]
fn modifiers_follow_key_events() {
    let mut hid = HidManager::new();
    let shift_down = hid.post_key_event(KeyEvent(0xE1));
    assert_eq!(hid.key_modifier, 0x02);
    assert_eq!(shift_down.modifier(), 0x02);
    let a = hid.post_key_event(KeyEvent(0x04));
    assert_eq!(a.into_char(), 'A');
    hid.post_key_event(KeyEvent(0x8000_00E1));
    assert_eq!(hid.key_modifier, 0);
    let a = hid.post_key_event(KeyEvent(0x04));
    assert_eq!(a.into_char(), 'a');
    assert_eq!(HidManager::key_event_to_char(KeyEvent(0x8000_0004)), '\0');
    assert_eq!(HidManager::key_event_to_char(KeyEvent(0)), '\0');
}

#[test]
fn mouse_state_moves() {
    let mut m = MouseState::empty();
    m.process_relative_report(MouseReport { buttons: 1, x: 5, y: -3, wheel: 0 });
    m.process_relative_report(MouseReport { buttons: 0, x: 2, y: 1, wheel: 0 });
    assert_eq!((m.x, m.y), (7, -2));
    assert_eq!((m.prev_buttons, m.current_buttons), (1, 0));
    m.process_absolute_report(MouseReport { buttons: 2, x: 100, y: 200, wheel: 0 });
    assert_eq!((m.x, m.y, m.current_buttons), (100, 200, 2));
}

const BOOT_KEYBOARD_DESCRIPTOR: [u8; 63] = [
    0x05, 0x01, 0x09, 0x06, 0xA1, 0x01, 0x05, 0x07, 0x19, 0xE0, 0x29, 0xE7, 0x15, 0x00, 0x25, 0x01,
    0x75, 0x01, 0x95, 0x08, 0x81, 0x02, 0x95, 0x01, 0x75, 0x08, 0x81, 0x01, 0x95, 0x05, 0x75, 0x01,
    0x05, 0x08, 0x19, 0x01, 0x29, 0x05, 0x91, 0x02, 0x95, 0x01, 0x75, 0x03, 0x91, 0x01, 0x95, 0x06,
    0x75, 0x08, 0x15, 0x00, 0x25, 0x65, 0x05, 0x07, 0x19, 0x00, 0x29, 0x65, 0x81, 0x00, 0xC0,
];

#[test]
fn parse_descriptor_bytes() {
    let report = HidParsedReport::parse_descriptor(&BOOT_KEYBOARD_DESCRIPTOR).ok().unwrap();
    let from_items = HidParsedReport::parse(&boot_keyboard()).ok().unwrap();
    let a = report.primary_app().unwrap();
    let b = from_items.primary_app().unwrap();
    assert_eq!(a.usage(), b.usage());
    assert_eq!(a.entries, b.entries);
    let (items, offsets, err) = kernel::io::hid_parse::read_items(&BOOT_KEYBOARD_DESCRIPTOR);
    let expected = boot_keyboard();
    assert_eq!(items.len(), expected.len());
    for (a, b) in items.iter().zip(expected.iter()) {
        assert_eq!(a.tag, b.tag);
        assert_eq!(a.value.unsigned, b.value.unsigned);
    }
    // one data byte 0xE0 is -32 when read as a signed number
    assert_eq!(items[4].value, HidReportValue { unsigned: 0xE0, signed: -32 });
    assert_eq!(offsets[..3], [0, 2, 4]);
    assert_eq!(err, None);
}

#[test]
fn descriptor_byte_errors() {
    assert_eq!(HidParsedReport::parse_descriptor(&[0xC0]).err(), Some(HidParseError::Malformed(0)));
    assert_eq!(HidParsedReport::parse_descriptor(&[0x05]).err(), Some(HidParseError::Malformed(0)));
    assert_eq!(HidParsedReport::parse_descriptor(&[0x05, 0x01, 0xF0]).err(), Some(HidParseError::Malformed(2)));
    assert_eq!(
        HidParsedReport::parse_descriptor(&[0x05, 0x01, 0xA9, 0x01]).err(),
        Some(HidParseError::Unsupported(2))
    );
    // signed data: logical minimum -127
    let (items, _, _) = kernel::io::hid_parse::read_items(&[0x15, 0x81, 0x26, 0xFF, 0x7F]);
    assert_eq!(items[0].value, HidReportValue { unsigned: 0x81, signed: -127 });
    assert_eq!(items[1].value, HidReportValue { unsigned: 0x7FFF, signed: 0x7FFF });
    // a long item stands for the item of its tag byte
    let (items, offsets, err) = kernel::io::hid_parse::read_items(&[0xFE, 0x02, 0x04, 0xAA, 0xBB, 0xC0]);
    assert_eq!(items.len(), 2);
    assert_eq!(items[0].tag, HidReportItemTag::UsagePage);
    assert_eq!(offsets, vec![0, 5]);
    assert_eq!(err, None);
}
