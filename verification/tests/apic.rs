use kernel::arch::apic::{
    Apic, ApicDeliveryMode, ApicDestinationShorthand, ApicId, ApicTriggerMode, InterruptVector,
    IoApicIndex, IoApicRange, Irq, LocalApic, LocalApicTimerMode, Msi, MsiAllocator,
    PackedTriggerMode, RedirectWrite,
};

fn apic_with_one_ioapic() -> Apic {
    let mut apic = Apic::new();
    apic.set_isa_defaults();
    // I/O APIC version register: 24 redirection entries (max index 23)
    apic.add_ioapic(IoApicRange::new(0, 2, 0x0017_0020));
    apic
}

#[test]
fn ioapic_range_from_version() {
    let r = IoApicRange::new(0x118, 3, 0x0017_0020);
    assert_eq!(r.global_int, Irq(0x18));
    assert_eq!(r.entries, 24);
    assert_eq!(r.id, 3);
}

#[test]
fn register_then_handle() {
    let mut apic = apic_with_one_ioapic();
    let w = apic.register(Irq(Irq::LPC_PS2K), 0x1234, 7).unwrap();
    assert_eq!(
        w,
        RedirectWrite {
            ioapic: 0,
            high_index: IoApicIndex(0x13),
            high: 0,
            low_index: IoApicIndex(0x12),
            low: 0x81,
        }
    );
    assert_eq!(apic.handler_of(Irq(1)), Some((0x1234, 7)));
    assert_eq!(apic.handler_of(Irq(2)), None);
}

#[test]
fn register_twice_is_refused() {
    let mut apic = apic_with_one_ioapic();
    assert!(apic.register(Irq(Irq::LPC_PS2M), 0x10, 0).is_ok());
    assert_eq!(apic.register(Irq(Irq::LPC_PS2M), 0x20, 1), Err(()));
    assert_eq!(apic.handler_of(Irq(12)), Some((0x10, 0)));
}

#[test]
fn register_unrouted_is_refused() {
    let mut apic = apic_with_one_ioapic();
    // IRQ 3 has no route until an override gives it one
    assert_eq!(apic.register(Irq(Irq::LPC_COM2), 0x10, 0), Err(()));
    apic.apply_override(3, 5, 0x000F);
    let w = apic.register(Irq(Irq::LPC_COM2), 0x10, 0).unwrap();
    assert_eq!(w.low_index, IoApicIndex(0x1A));
    assert_eq!(w.low, 0x85 | 0xF000);
    assert_eq!(apic.handler_of(Irq(5)), Some((0x10, 0)));
}

#[test]
fn register_without_ioapic_is_refused() {
    let mut apic = Apic::new();
    apic.set_isa_defaults();
    assert_eq!(apic.register(Irq(1), 0x10, 0), Err(()));
}

#[test]
fn enable_target_register() {
    let apic = apic_with_one_ioapic();
    assert_eq!(apic.enable_target(Irq(12)), Some((0, IoApicIndex(0x10 + 12 * 4))));
    let empty = Apic::new();
    assert_eq!(empty.enable_target(Irq(12)), None);
}

#[test]
fn redirect_mask_bit() {
    assert_eq!(Apic::redirect_masked(0x0001_0081, true), 0x81);
    assert_eq!(Apic::redirect_masked(0x81, false), 0x0001_0081);
}

#[test]
fn redirect_pair() {
    let (low, high) =
        Apic::make_redirect_table_entry_pair(InterruptVector(0x81), PackedTriggerMode(0x0D), ApicId(2));
    assert_eq!(low, 0xD081);
    assert_eq!(high, 0x0200_0000);
}

#[test]
fn tlb_flush_targets() {
    assert_eq!(Apic::tlb_flush_targets(1, 0), None);
    assert_eq!(Apic::tlb_flush_targets(4, 1), Some(0b1101));
}

#[test]
fn lapic_timer_and_msi() {
    assert_eq!(Apic::lapic_timer_value(u32::MAX - 1000), 100);
    assert_eq!(Apic::msi_message(Msi(2)), (0xFEE0_0000, 0xC000 + 0x80 + 48 + 2));
    assert_eq!(Msi(1).as_irq(), Irq(49));
    assert_eq!(Irq(1).as_vec(), InterruptVector(0x81));
}

#[test]
fn msi_allocator_runs_out() {
    let mut a = MsiAllocator::new();
    for i in 0..16 {
        assert_eq!(a.allocate(), Some(Msi(i)));
    }
    assert_eq!(a.allocate(), None);
}

#[test]
fn local_apic_registers() {
    assert_eq!(LocalApic::base_register_bsp(0xFEE0_0000), 0xFEE0_0900);
    assert_eq!(LocalApic::base_register_ap(0xFEE0_0000), 0xFEE0_0800);
    assert_eq!(LocalApic::current_processor_id(0x0300_0000), ApicId(3));
    assert_eq!(LocalApic::timer_lvt(LocalApicTimerMode::Periodic, InterruptVector(0x40)), 0x2_0040);
    assert_eq!(LocalApic::cleared_timer_lvt(), 0x0001_0000);
    assert_eq!(LocalApic::command_high(ApicId(5)), 0x0500_0000);
    let (s, t, a, d, v) = LocalApic::init_ipi();
    assert_eq!(LocalApic::command_low(s, t, a, d, v), 0x4500);
    let (s, t, a, d, v) = LocalApic::startup_ipi(InterruptVector(0x08));
    assert_eq!(LocalApic::command_low(s, t, a, d, v), 0x4608);
    let (s, t, a, d, v) = LocalApic::broadcast_ipi(InterruptVector(0xEE));
    assert_eq!(s, ApicDestinationShorthand::AllExcludingSelf);
    assert_eq!(LocalApic::command_low(s, t, a, d, v), 0xC_40EE);
    assert_eq!(
        LocalApic::command_low(
            ApicDestinationShorthand::SelfOnly,
            ApicTriggerMode::Level,
            false,
            ApicDeliveryMode::NMI,
            InterruptVector(0)
        ),
        0x4_8400
    );
}

#[test]
fn routing_from_the_interrupt_controller_table() {
    let overrides = [(0u8, 2u32, 0u16), (9, 9, 0x000D), (1, 21, 5), (9, 20, 0x000F)];
    let ioapics = [IoApicRange::new(0, 2, 0x0017_0020), IoApicRange::new(24, 3, 0x0017_0020)];
    let apic = Apic::from_madt(&[4, 0, 1, 2], &overrides, &ioapics);
    assert_eq!(apic.master_apic_id, ApicId(4));
    assert_eq!(apic.gsi_table[0].global_irq, Irq(2));
    assert_eq!(apic.gsi_table[9].global_irq, Irq(20));
    assert_eq!(apic.gsi_table[9].trigger, PackedTriggerMode(0x000F));
    assert_eq!(apic.gsi_table[1].global_irq, Irq(21));
    assert_eq!(apic.gsi_table[1].trigger, PackedTriggerMode(5));
    assert_eq!(apic.gsi_table[12].global_irq, Irq(12));
    assert_eq!(apic.gsi_table[3].global_irq, Irq(0));
    assert_eq!(apic.ioapics, ioapics.to_vec());
    assert!(apic.idt.iter().all(|&h| h == 0));
    assert_eq!(Apic::ap_start_list(&[4, 0, 1, 2]), vec![0, 1, 2]);
    assert_eq!(Apic::ap_start_list(&[4]), Vec::<u8>::new());
    let many: Vec<u8> = (0..100).collect();
    assert_eq!(Apic::ap_start_list(&many).len(), 64);
}

#[test]
fn message_interrupts_are_handed_out_sixteen_times() {
    let mut apic = Apic::new();
    let mut alloc = MsiAllocator::new();
    for k in 0..16u16 {
        assert_eq!(apic.register_msi(&mut alloc, 0x1000 + k as usize, k as usize), Ok((0xFEE0_0000, 0xC000 + 0xB0 + k)));
        assert_eq!(apic.idt[48 + k as usize], 0x1000 + k as usize);
        assert_eq!(apic.idt_params[48 + k as usize], k as usize);
    }
    let before = apic.idt.clone();
    assert_eq!(apic.register_msi(&mut alloc, 0x9999, 1), Err(()));
    assert_eq!(apic.idt, before);
}
