use kernel::drivers::pci::{PciBar, PciBarType, PciClass, PciConfigAddress, PciDevice};
use kernel::fw::smbios::{HeaderType, SmBios, SmBiosEntryV1};
use kernel::hal::PhysicalAddress;
use kernel::mem::fixedvec::FixedVec;
use kernel::mem::mmio::MmioSlice;
use kernel::num::le::{Le16, Le32, Le64};
use kernel::num::NonZeroU8;

#[test]
fn little_endian_roundtrip() {
    let a = Le16::new(0x1234);
    assert_eq!(a.value(), 0x1234);
    let b = Le32::new(0xDEAD_BEEF);
    assert_eq!(u32::from(b), 0xDEAD_BEEF);
    let mut c = Le64::from(0x0102_0304_0506_0708u64);
    assert_eq!(c.value(), 0x0102_0304_0506_0708);
    c.store(7);
    assert_eq!(c.value(), 7);
    assert_eq!(Le16::default().value(), 0);
    assert_eq!(Le32::default().value(), 0);
}

#[test]
fn nonzero_u8() {
    assert!(NonZeroU8::new(0).is_none());
    assert_eq!(NonZeroU8::new(9).unwrap().get(), 9);
}

#[test]
fn fixed_vec_keeps_its_capacity() {
    let mut v: FixedVec<u32, 2> = FixedVec::new(0);
    assert_eq!(v.capacity(), 2);
    assert_eq!(v.push(1), Ok(()));
    assert_eq!(v.push(2), Ok(()));
    assert_eq!(v.push(3), Err(3));
    assert_eq!(v.len(), 2);
    assert_eq!(v.as_slice(), &[1, 2]);
    assert_eq!(v.pop(), Some(2));
    assert_eq!(v.pop(), Some(1));
    assert_eq!(v.pop(), None);
    assert_eq!(v.len(), 0);
}

#[test]
fn mmio_slice() {
    assert_eq!(MmioSlice::from_mapping(0, 0x1000), None);
    let s = MmioSlice::from_mapping(0xFFFF_A000_FEC0_0000, 0x1000).unwrap();
    assert_eq!(s.effective_address(0x10, 4), 0xFFFF_A000_FEC0_0010);
}

#[test]
fn pci_bars() {
    let io = PciBar::from_registers(0, 0xE001, 0, 0xFFFF_FFE1, 0).unwrap();
    assert_eq!(io.bar_type(), PciBarType::IsolatedIO);
    assert_eq!(io.base(), PhysicalAddress::new(0xE000));
    assert_eq!(io.size(), 0x20);
    assert_eq!(MmioSlice::bar_range(&io), None);
    let mem = PciBar::from_registers(1, 0xFEB0_0008, 0, 0xFFFF_F008, 0).unwrap();
    assert_eq!(mem.bar_type(), PciBarType::Mmio32);
    assert!(mem.is_prefetchable());
    assert_eq!(MmioSlice::bar_range(&mem), Some((PhysicalAddress::new(0xFEB0_0000), 0x1000)));
    let wide = PciBar::from_registers(2, 0x0000_0004, 0x1, 0xFFFF_0004, 0xFFFF_FFFF).unwrap();
    assert_eq!(wide.bar_type(), PciBarType::Mmio64);
    assert_eq!(wide.base(), PhysicalAddress::new(0x1_0000_0000));
    assert_eq!(wide.size(), 0x1_0000);
    assert!(PciBar::from_registers(3, 0, 0, 0, 0).is_none());
    assert!(PciBar::from_registers(3, 0x2, 0, 0, 0).is_none());
}

#[test]
fn pci_config_address() {
    let a = PciConfigAddress::bus(1).dev(2).fun(3).register(0x10);
    assert_eq!(a.get_bus(), 1);
    assert_eq!(a.get_dev(), 2);
    assert_eq!(a.get_fun(), 3);
    assert_eq!(a.get_register(), 0x10);
    assert_eq!(u32::from(a), 0x8001_1340);
}

#[test]
fn pci_class_matching() {
    let xhci = PciClass::code(0x0C).sub(0x03).interface(0x30);
    let device = PciClass::from_pci(0x0C03_3003);
    assert!(device.matches(xhci));
    assert!(device.matches(PciClass::code(0x0C)));
    assert!(!device.matches(PciClass::code(0x02)));
    assert!(!PciClass::code(0x0C).matches(xhci));
}

fn sample_table(manufacturer: &[u8]) -> Vec<u8> {
    let mut t = vec![0u8; 0x1B];
    t[0] = HeaderType::SYSTEM_INFO;
    t[1] = 0x1B;
    t[2] = 0x01;
    t[4] = 1;
    t[5] = 2;
    t.extend_from_slice(manufacturer);
    t.push(0);
    t.extend_from_slice(b"Rocket");
    t.push(0);
    t.push(0);
    t.extend_from_slice(&[127, 4, 0xFF, 0xFF, 0, 0]);
    t
}

#[test]
fn smbios_system_strings() {
    let table = sample_table(b"ACME");
    let smbios = SmBios::new(table, 2);
    assert_eq!(smbios.structure_offsets(), vec![0, 40]);
    assert_eq!(smbios.manufacturer_name(), Some(b"ACME".to_vec()));
    assert_eq!(smbios.model_name(), Some(b"Rocket".to_vec()));
    let h = smbios.find(HeaderType(HeaderType::SYSTEM_INFO)).unwrap();
    assert_eq!(h.handle(), 1);
    assert_eq!(h.header_size(), 0x1B);
    assert_eq!(smbios.struct_size(&h), 40);
    assert_eq!(smbios.string(&h, 0), None);
    assert_eq!(smbios.string(&h, 3), None);
    assert!(smbios.find(HeaderType(HeaderType::BIOS_INFO)).is_none());
}

#[test]
fn smbios_placeholder_is_no_name() {
    let smbios = SmBios::new(sample_table(b"To be filled by O.E.M."), 2);
    assert_eq!(smbios.manufacturer_name(), None);
    assert_eq!(smbios.model_name(), Some(b"Rocket".to_vec()));
}

#[test]
fn smbios_entry_point() {
    let mut e = [0u8; 0x20];
    e[6] = 2;
    e[7] = 8;
    e[8] = 0x40;
    e[0x18..0x1C].copy_from_slice(&[0x00, 0x00, 0x0F, 0x00]);
    e[0x1C] = 0x2A;
    let entry = SmBiosEntryV1::from_bytes(&e);
    assert_eq!(entry.ver_major, 2);
    assert_eq!(entry.ver_minor, 8);
    assert_eq!(entry.max_struct, 0x40);
    assert_eq!(entry.base, 0x000F_0000);
    assert_eq!(entry.n_structures, 0x2A);
}

#[test]
fn smbios_string_that_is_not_utf8_reads_as_question_mark() {
    let smbios = SmBios::new(sample_table(&[0x41, 0xFF, 0x42]), 2);
    assert_eq!(smbios.manufacturer_name(), Some(b"?".to_vec()));
    assert_eq!(smbios.model_name(), Some(b"Rocket".to_vec()));
}

#[test]
fn bar_scan_skips_empty_and_takes_two_registers_for_64_bit() {
    let regs = [
        (0xFEB0_0000u32, 0xFFFF_F000u32),
        (0, 0),
        (0xE000_000C, 0xFFF0_000C),
        (0x1, 0xFFFF_FFFF),
        (0xC001, 0xFFFF_FFE1),
        (0, 0),
        (0, 0),
    ];
    let bars = PciDevice::scan_bars(0, &regs);
    assert_eq!(bars.len(), 3);
    assert_eq!(bars[0].bar_type(), PciBarType::Mmio32);
    assert_eq!(bars[0].base(), PhysicalAddress::new(0xFEB0_0000));
    assert_eq!(bars[1].bar_type(), PciBarType::Mmio64);
    assert_eq!(bars[1].base(), PhysicalAddress::new(0x1_E000_0000));
    assert!(bars[1].is_prefetchable());
    assert_eq!(bars[2].bar_type(), PciBarType::IsolatedIO);
    assert_eq!(bars[2].base(), PhysicalAddress::new(0xC000));
    assert_eq!(PciDevice::scan_bars(1, &regs).len(), 1);
    assert_eq!(PciDevice::scan_bars(2, &regs).len(), 0);
}

#[test]
fn smbios_strings_are_checked_as_utf8() {
    let four_bytes = [0x46, 0xF0, 0x9F, 0x98, 0x80];
    let smbios = SmBios::new(sample_table(&four_bytes), 2);
    assert_eq!(smbios.manufacturer_name(), Some(four_bytes.to_vec()));
    let two_bytes = [0xC3, 0xA9, 0x74, 0xC3, 0xA9];
    let smbios = SmBios::new(sample_table(&two_bytes), 2);
    assert_eq!(smbios.manufacturer_name(), Some(two_bytes.to_vec()));
    for bad in [
        &[0xC0u8, 0x80][..],
        &[0xE0, 0x80, 0x80][..],
        &[0xED, 0xA0, 0x80][..],
        &[0xF4, 0x90, 0x80, 0x80][..],
        &[0xF5, 0x80, 0x80, 0x80][..],
        &[0x41, 0xE2, 0x82][..],
        &[0x80][..],
    ] {
        let smbios = SmBios::new(sample_table(bad), 2);
        assert_eq!(smbios.manufacturer_name(), Some(b"?".to_vec()));
    }
}
