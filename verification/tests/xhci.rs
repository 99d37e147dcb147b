use kernel::drivers::usb::xhci::{root_port_attach, root_port_change, usb3_port_at_start, RootPortAttach, RootPortChange, RootPortStart};
use kernel::drivers::usb::xhci_r::PortSc;
use kernel::drivers::usb::usb::PSIV;
use kernel::drivers::usb::xhci::{context_entries_with, endpoint_settings, EndpointSettings};
use kernel::drivers::usb::xhci_s::{EpType, SlotContext};
use kernel::drivers::usb::usb::UsbRouteString;
use kernel::drivers::pci::PciClass;
use kernel::drivers::usb::drivers::usb_hid::{HidReportType, UsbHidDriver, UsbHidStarter};
use kernel::drivers::usb::usb::{UsbClass, UsbInterfaceNumber, UsbLength};
use kernel::drivers::usb::xhci::{
    alloc_ep_ring, ep_ring_index, find_crb, transfer_error_recovery, CommandRequestBlock,
    EpRingKey, IssueStep, RequestState, RingAllocation, ScheduledTrb, TrRing, Xhci,
    XhciRegistrar,
};
use kernel::drivers::usb::xhci_s::TrbType;
use kernel::drivers::usb::UsbError;
use kernel::hal::{NonNullPhysicalAddress, PhysicalAddress};

fn base(v: u64) -> Option<NonNullPhysicalAddress> {
    NonNullPhysicalAddress::new(PhysicalAddress::new(v))
}

#[test]
fn controller_class() {
    assert!(XhciRegistrar::accepts(PciClass::from_pci(0x0C03_3000)));
    assert!(!XhciRegistrar::accepts(PciClass::from_pci(0x0C03_2000)));
    assert_eq!(XhciRegistrar::preferred_class(), PciClass::code(0x0C).sub(0x03).interface(0x30));
}

#[test]
fn controller_helpers() {
    assert!(Xhci::port_in_range(3, 1, 4));
    assert!(!Xhci::port_in_range(5, 1, 4));
    assert!(!Xhci::port_in_range(0, 1, 4));
    assert_eq!(Xhci::doorbell_index(Some(7)), 7);
    assert_eq!(Xhci::doorbell_index(None), 0);
    assert_eq!(Xhci::command_result(Some(1)), Ok(()));
    assert_eq!(Xhci::command_result(Some(6)), Err(()));
    assert_eq!(Xhci::command_result(None), Err(()));
}

#[test]
fn command_request_block_lifecycle() {
    let mut crb = CommandRequestBlock::new();
    assert!(!crb.try_to_acquire(true));
    assert!(crb.try_to_acquire(false));
    assert_eq!(crb.state, RequestState::Acquired);
    assert!(!crb.try_to_acquire(false));
    assert!(!crb.set_response());
    crb.schedule(ScheduledTrb(0x1000));
    assert_eq!(crb.state, RequestState::Scheduled);
    assert!(crb.set_response());
    assert_eq!(crb.state, RequestState::Completed);
    crb.dispose();
    assert_eq!(crb.state, RequestState::Available);
}

#[test]
fn find_scheduled_request() {
    let mut a = CommandRequestBlock::new();
    a.try_to_acquire(false);
    a.schedule(ScheduledTrb(0x20));
    let mut b = CommandRequestBlock::new();
    b.try_to_acquire(false);
    b.schedule(ScheduledTrb(0x30));
    let idle = CommandRequestBlock::new();
    let crbs = vec![idle, a, b];
    assert_eq!(find_crb(&crbs, ScheduledTrb(0x30), None), Some(2));
    assert_eq!(find_crb(&crbs, ScheduledTrb(0x20), Some(RequestState::Scheduled)), Some(1));
    assert_eq!(find_crb(&crbs, ScheduledTrb(0x20), Some(RequestState::Completed)), None);
    assert_eq!(find_crb(&crbs, ScheduledTrb(0), None), None);
    assert_eq!(ScheduledTrb(0x20).next(), ScheduledTrb(0x30));
    assert_eq!(RequestState::from_usize(3), RequestState::Completed);
    assert_eq!(RequestState::from_usize(9), RequestState::Available);
    assert_eq!(RequestState::Aborted.code(), 4);
}

#[test]
fn endpoint_rings() {
    let rings = vec![
        EpRingKey { tr_base: base(0x1000), slot_id: 1, dci: 1 },
        EpRingKey { tr_base: None, slot_id: 0, dci: 0 },
        EpRingKey { tr_base: base(0x3000), slot_id: 2, dci: 3 },
    ];
    assert_eq!(ep_ring_index(&rings, 2, 3), Some(2));
    assert_eq!(ep_ring_index(&rings, 2, 4), None);
    assert_eq!(alloc_ep_ring(&rings, 1, 1), RingAllocation::Reuse(0));
    assert_eq!(alloc_ep_ring(&rings, 5, 1), RingAllocation::Allocate(1));
    let full = vec![EpRingKey { tr_base: base(0x1000), slot_id: 1, dci: 1 }];
    assert_eq!(alloc_ep_ring(&full, 5, 1), RingAllocation::Exhausted);
}

#[test]
fn transfer_ring_wraps_with_a_link() {
    let mut ring = TrRing::new();
    assert_eq!(ring.issue(), IssueStep { link_at: None, at: 0, cycle: true });
    assert_eq!(ring.index, 1);
    ring.index = 255;
    assert_eq!(ring.issue(), IssueStep { link_at: Some(255), at: 0, cycle: false });
    assert_eq!(ring.index, 1);
    assert_eq!(ring.issue(), IssueStep { link_at: None, at: 1, cycle: false });
    let b = NonNullPhysicalAddress::new(PhysicalAddress::new(0x8000)).unwrap();
    assert_eq!(ring.tr_value(b).unwrap().get(), PhysicalAddress::new(0x8000));
}

#[test]
fn error_recovery_skips_the_rest_of_a_transfer() {
    assert_eq!(transfer_error_recovery(Some(TrbType::NORMAL), None, None), 0);
    assert_eq!(transfer_error_recovery(Some(TrbType::DATA), Some(TrbType::STATUS), None), 2);
    assert_eq!(transfer_error_recovery(Some(TrbType::SETUP), Some(TrbType::STATUS), None), 2);
    assert_eq!(
        transfer_error_recovery(Some(TrbType::SETUP), Some(TrbType::DATA), Some(TrbType::STATUS)),
        3
    );
}

#[test]
fn hid_requests() {
    assert!(UsbHidStarter::accepts(UsbClass(0x03_01_01)));
    assert!(!UsbHidStarter::accepts(UsbClass(0x09_00_00)));
    assert!(UsbHidDriver::disables_boot_protocol(UsbClass(0x03_01_02)));
    assert_eq!(UsbHidDriver::check_endpoint(true, UsbLength(8)), Ok(()));
    assert_eq!(UsbHidDriver::check_endpoint(false, UsbLength(8)), Err(UsbError::InvalidDescriptor));
    assert_eq!(UsbHidDriver::check_endpoint(true, UsbLength(65)), Err(UsbError::InvalidDescriptor));
    let r = UsbHidDriver::set_boot_protocol_request(UsbInterfaceNumber(2), false);
    assert_eq!(r.bmRequestType.0, 0x21);
    assert_eq!(r.bRequest.0, 11);
    assert_eq!(r.wValue, 1);
    assert_eq!(r.wIndex, 2);
    assert_eq!(r.wLength.0, 0);
    let g = UsbHidDriver::get_report_request(UsbInterfaceNumber(0), HidReportType::Feature, Some(5));
    assert_eq!(g.bmRequestType.0, 0xA1);
    assert_eq!(g.bRequest.0, 1);
    assert_eq!(g.wValue, 0x0305);
    let s = UsbHidDriver::set_report_request(UsbInterfaceNumber(1), HidReportType::Output, None);
    assert_eq!(s.bRequest.0, 9);
    assert_eq!(s.wValue, 0x0200);
    assert_eq!(s.wIndex, 1);
}

#[test]
fn endpoint_settings_by_speed() {
    assert_eq!(
        endpoint_settings(PSIV::HS, EpType::BulkIn, 512, 0),
        EndpointSettings {
            ep_type: EpType::BulkIn,
            max_packet_size: 512,
            max_burst_size: Some(0),
            average_trb_len: None,
            interval: None,
            error_count: Some(3),
        }
    );
    let s = endpoint_settings(PSIV::LS, EpType::Control, 0, 0);
    assert_eq!((s.max_packet_size, s.max_burst_size, s.average_trb_len), (8, None, Some(8)));
    let s = endpoint_settings(PSIV::SS, EpType::IsochIn, 0x1400, 4);
    assert_eq!((s.max_packet_size, s.max_burst_size, s.interval, s.error_count), (0x400, Some(2), Some(3), None));
    assert_eq!(endpoint_settings(PSIV::FS, EpType::InterruptIn, 8, 10).interval, Some(7));
    assert_eq!(endpoint_settings(PSIV::FS, EpType::InterruptOut, 8, 1).interval, Some(3));
    assert_eq!(endpoint_settings(PSIV::FS, EpType::InterruptOut, 8, 128).interval, Some(10));
    assert_eq!(endpoint_settings(PSIV::FS, EpType::BulkOut, 64, 1).interval, Some(3));
    assert_eq!(endpoint_settings(PSIV::HS, EpType::InterruptIn, 64, 4).interval, Some(3));
    assert_eq!(context_entries_with(3, 1), 3);
    assert_eq!(context_entries_with(1, 5), 5);
}

#[test]
fn root_port_decisions() {
    let connected_changed = PortSc(PortSc::CCS | PortSc::CSC);
    assert_eq!(root_port_change(connected_changed, false), RootPortChange::ResetAndAttach(0x0002_0010));
    assert_eq!(root_port_change(PortSc(PortSc::CSC), false), RootPortChange::Detach(0x0002_0000));
    assert_eq!(root_port_change(PortSc(PortSc::CCS), false), RootPortChange::Ignore);
    assert_eq!(root_port_change(PortSc(PortSc::CCS), true), RootPortChange::ResetAndAttach(0x0002_0010));
    assert_eq!(usb3_port_at_start(PortSc(0)), RootPortStart::Skip);
    assert_eq!(usb3_port_at_start(PortSc(PortSc::CCS)), RootPortStart::WaitForEnable);
    assert_eq!(usb3_port_at_start(PortSc(PortSc::CCS | PortSc::PED)), RootPortStart::Attach);
    assert_eq!(root_port_attach(PortSc(PortSc::CCS | PortSc::PED)), RootPortAttach::Attach);
    assert_eq!(root_port_attach(PortSc(PortSc::CCS)), RootPortAttach::PowerCycle(0x0000_0210));
}

#[test]
fn slot_context_route_string_keeps_the_rest() {
    let words = [0xABC0_0000u32, 1, 2, 3, 4, 5, 6, 7];
    let mut slot = SlotContext::from_data(words);
    slot.set_route_string(UsbRouteString::from_raw(0x1_2345));
    let after = slot.data();
    assert_eq!(after[0], 0xABC1_2345);
    assert_eq!(&after[1..], &words[1..]);
    assert_eq!(slot.route_string().as_u32(), 0x1_2345);
    slot.set_route_string(UsbRouteString::empty());
    assert_eq!(slot.data()[0], 0xABC0_0000);
}
