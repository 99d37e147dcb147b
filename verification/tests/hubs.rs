use kernel::drivers::usb::drivers::usb_hub::UsbHubCommon;
use kernel::drivers::usb::usb::UsbHubPortNumber;
use kernel::num::NonZeroU8;

fn port(n: u8) -> UsbHubPortNumber {
    UsbHubPortNumber(NonZeroU8::new(n).unwrap())
}

#[test]
fn hub2_startup_powers_acknowledges_and_asks_each_port() {
    let plan = UsbHubCommon::hub2_startup(&vec![port(1), port(2), port(3)]);
    assert_eq!(plan.power.len(), 3);
    assert_eq!((plan.power[1].bmRequestType.0, plan.power[1].bRequest.0, plan.power[1].wValue, plan.power[1].wIndex), (0x23, 3, 8, 2));
    assert_eq!((plan.clear_connection[2].bRequest.0, plan.clear_connection[2].wValue, plan.clear_connection[2].wIndex), (1, 16, 3));
    assert_eq!((plan.status[0].bmRequestType.0, plan.status[0].bRequest.0, plan.status[0].wIndex), (0xA3, 0, 1));
    let empty = UsbHubCommon::hub2_startup(&vec![]);
    assert!(empty.power.is_empty() && empty.clear_connection.is_empty() && empty.status.is_empty());
}
