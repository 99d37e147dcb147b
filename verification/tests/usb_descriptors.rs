use kernel::drivers::usb::usb::{UsbDescriptor, UsbDeviceDescriptor, UsbWord};

#[test]
fn usb_word_roundtrip() {
    for v in [0u16, 1, 0x1234, 0xFFFF] {
        assert_eq!(UsbWord::from_u16(v).as_u16(), v);
    }
}

#[test]
fn device_descriptor_parses() {
    let bytes = [
        18u8, 1, 0x00, 0x02, 0x09, 0x00, 0x01, 64, 0x34, 0x12, 0x78, 0x56, 0x00, 0x01, 1, 2, 3, 1,
    ];
    let d = UsbDeviceDescriptor::from_slice(&bytes).unwrap();
    assert_eq!(d.usb_version().0, 0x0200);
    assert_eq!(d.vid().0, 0x1234);
    assert_eq!(d.pid().0, 0x5678);
    assert_eq!(d.class().0, 0x09_00_01);
    assert_eq!(d.max_packet_size(), 64);
    assert!(UsbDeviceDescriptor::from_slice(&bytes[..17]).is_none());
}
