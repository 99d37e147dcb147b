//! Advanced Programmable Interrupt Controller: interrupt numbering, the routing of
//! interrupt requests through the I/O APICs, message signaled interrupts and the
//! register values that program the local APIC.

use vstd::prelude::*;
use crate::bits::{lemma_byte_bits, lemma_dword_shifts};

verus! {

/// Maximum number of supported cpu cores.
pub const MAX_CPU: u64 = 64;

/// Maximum number of supported IOAPIC's IRQ.
pub const MAX_IOAPIC_IRQS: u8 = 48;

/// Maximum number of supported MSI IRQ.
pub const MAX_MSI: isize = 16;

/// The vector of the inter-processor interrupt that flushes the TLB.
pub const IPI_INVALIDATE_TLB: u8 = 0xEE;

/// The vector of the inter-processor interrupt that reschedules.
pub const IPI_SCHEDULE: u8 = 0xFC;

/// An interrupt vector of the processor.
#[derive(Debug, Clone, Copy, PartialEq, Eq, PartialOrd, Ord, Structural)]
pub struct InterruptVector(pub u8);

/// The id of a local APIC.
#[derive(Debug, Clone, Copy, PartialEq, Eq, PartialOrd, Ord, Default, Structural)]
pub struct ApicId(pub u8);

impl ApicId {
    /// The id that addresses every local APIC.
    pub const BROADCAST: u8 = 0xFF;

    pub fn broadcast() -> (r: Self)
        ensures
            r.0 == 0xFF,
    {
        ApicId(Self::BROADCAST)
    }

    pub fn as_u32(self) -> (r: u32)
        ensures
            r == self.0,
    {
        self.0 as u32
    }

    /// The id held in the low byte of `val`.
    pub fn from_u32(val: u32) -> (r: Self)
        ensures
            r.0 == val % 0x100,
    {
        Self((val % 0x100) as u8)
    }

    /// The id held in the low byte of `val`.
    pub fn from_usize(val: usize) -> (r: Self)
        ensures
            r.0 == val % 0x100,
    {
        Self((val % 0x100) as u8)
    }
}

impl From<u8> for ApicId {
    fn from(val: u8) -> (r: Self) {
        Self(val)
    }
}

impl vstd::std_specs::convert::FromSpecImpl<u8> for ApicId {
    open spec fn obeys_from_spec() -> bool {
        true
    }

    open spec fn from_spec(v: u8) -> Self {
        ApicId(v)
    }
}

/// Interrupt Request
#[derive(Debug, Clone, Copy, PartialEq, Eq, PartialOrd, Ord, Default, Structural)]
pub struct Irq(pub u8);

impl Irq {
    /// The vector of IRQ 0.
    pub const BASE: u8 = 0x80;
    /// The highest IRQ number.
    pub const MAX: u8 = 127;
    pub const LPC_TIMER: u8 = 0;
    pub const LPC_PS2K: u8 = 1;
    pub const LPC_COM2: u8 = 3;
    pub const LPC_COM1: u8 = 4;
    pub const LPC_FDC: u8 = 6;
    pub const LPC_LPT: u8 = 7;
    pub const LPC_RTC: u8 = 8;
    pub const LPC_PS2M: u8 = 12;
    pub const LPC_IDE1: u8 = 14;
    pub const LPC_IDE2: u8 = 15;

    /// The vector at which this IRQ arrives.
    pub fn as_vec(self) -> (r: InterruptVector)
        requires
            self.0 < 0x80,
        ensures
            r.0 == 0x80 + self.0,
    {
        InterruptVector(Self::BASE + self.0)
    }
}

/// Message Signaled Interrupts
#[derive(Debug, Clone, Copy, PartialEq, Eq, PartialOrd, Ord, Structural)]
pub struct Msi(pub isize);

impl Msi {
    /// The IRQ that stands for this message: it follows the I/O APIC's IRQs.
    pub fn as_irq(self) -> (r: Irq)
        requires
            0 <= self.0 < 0x50,
        ensures
            r.0 == 48 + self.0,
    {
        Irq((MAX_IOAPIC_IRQS as isize + self.0) as u8)
    }

    /// The vector at which this message arrives.
    pub fn as_vec(self) -> (r: InterruptVector)
        requires
            0 <= self.0 < 0x50,
        ensures
            r.0 == 0x80 + 48 + self.0,
    {
        self.as_irq().as_vec()
    }
}

/// The trigger mode and polarity of an interrupt source, as the ACPI tables give them.
#[derive(Debug, Clone, Copy, PartialEq, Eq, Default, Structural)]
pub struct PackedTriggerMode(pub u16);

impl PackedTriggerMode {
    /// The bits of a redirection entry that this mode sets.
    pub fn as_redir(self) -> (r: u32)
        ensures
            r == self.0 * 0x1000,
    {
        proof {
            lemma_dword_shifts();
            assert((self.0 as u32) << 12u32 == (self.0 as u32) * 0x1000);
        }
        (self.0 as u32) << 12u32
    }
}

/// How an interrupt source is routed: the global IRQ and the trigger mode.
#[derive(Debug, Clone, Copy, PartialEq, Eq, Default, Structural)]
pub struct GsiProps {
    pub global_irq: Irq,
    pub trigger: PackedTriggerMode,
}

impl GsiProps {
    /// An unrouted source.
    pub fn empty() -> (r: Self)
        ensures
            r.global_irq.0 == 0,
            r.trigger.0 == 0,
    {
        GsiProps { global_irq: Irq(0), trigger: PackedTriggerMode(0) }
    }
}

/// The polarity of an interrupt line.
#[derive(Debug, Clone, Copy, PartialEq, Eq, PartialOrd, Ord, Structural)]
pub enum ApicPolarity {
    ActiveHigh,
    ActiveLow,
}

impl ApicPolarity {
    /// The numeric code of each variant.
    pub open spec fn spec_code(self) -> u32 {
        match self {
            ApicPolarity::ActiveHigh => 0,
            ApicPolarity::ActiveLow => 1,
        }
    }

    /// The variant with code `v`, if there is one.
    pub open spec fn spec_from_code(v: u32) -> Option<Self> {
        if v == 0 {
            Some(ApicPolarity::ActiveHigh)
        } else if v == 1 {
            Some(ApicPolarity::ActiveLow)
        } else {
            None
        }
    }

    pub fn code(&self) -> (r: u32)
        ensures
            r == self.spec_code(),
    {
        match self {
            ApicPolarity::ActiveHigh => 0,
            ApicPolarity::ActiveLow => 1,
        }
    }

}

/// The trigger mode of an interrupt line.
#[derive(Debug, Clone, Copy, PartialEq, Eq, PartialOrd, Ord, Structural)]
pub enum ApicTriggerMode {
    Edge,
    Level,
}

impl ApicTriggerMode {
    /// The numeric code of each variant.
    pub open spec fn spec_code(self) -> u32 {
        match self {
            ApicTriggerMode::Edge => 0,
            ApicTriggerMode::Level => 1,
        }
    }

    /// The variant with code `v`, if there is one.
    pub open spec fn spec_from_code(v: u32) -> Option<Self> {
        if v == 0 {
            Some(ApicTriggerMode::Edge)
        } else if v == 1 {
            Some(ApicTriggerMode::Level)
        } else {
            None
        }
    }

    pub fn code(&self) -> (r: u32)
        ensures
            r == self.spec_code(),
    {
        match self {
            ApicTriggerMode::Edge => 0,
            ApicTriggerMode::Level => 1,
        }
    }

}

impl ApicTriggerMode {
    pub fn as_redir(&self) -> (r: u32)
        ensures
            r == self.spec_code() * 0x8000,
    {
        self.code() * 0x8000
    }
}

/// How an interrupt is delivered.
#[derive(Debug, Clone, Copy, PartialEq, Eq, PartialOrd, Ord, Structural)]
pub enum ApicDeliveryMode {
    Fixed,
    Lowest,
    SMI,
    Reserved3,
    NMI,
    Init,
    StartUp,
    Reserved7,
}

impl ApicDeliveryMode {
    /// The numeric code of each variant.
    pub open spec fn spec_code(self) -> u32 {
        match self {
            ApicDeliveryMode::Fixed => 0,
            ApicDeliveryMode::Lowest => 1,
            ApicDeliveryMode::SMI => 2,
            ApicDeliveryMode::Reserved3 => 3,
            ApicDeliveryMode::NMI => 4,
            ApicDeliveryMode::Init => 5,
            ApicDeliveryMode::StartUp => 6,
            ApicDeliveryMode::Reserved7 => 7,
        }
    }

    /// The variant with code `v`, if there is one.
    pub open spec fn spec_from_code(v: u32) -> Option<Self> {
        if v == 0 {
            Some(ApicDeliveryMode::Fixed)
        } else if v == 1 {
            Some(ApicDeliveryMode::Lowest)
        } else if v == 2 {
            Some(ApicDeliveryMode::SMI)
        } else if v == 3 {
            Some(ApicDeliveryMode::Reserved3)
        } else if v == 4 {
            Some(ApicDeliveryMode::NMI)
        } else if v == 5 {
            Some(ApicDeliveryMode::Init)
        } else if v == 6 {
            Some(ApicDeliveryMode::StartUp)
        } else if v == 7 {
            Some(ApicDeliveryMode::Reserved7)
        } else {
            None
        }
    }

    pub fn code(&self) -> (r: u32)
        ensures
            r == self.spec_code(),
    {
        match self {
            ApicDeliveryMode::Fixed => 0,
            ApicDeliveryMode::Lowest => 1,
            ApicDeliveryMode::SMI => 2,
            ApicDeliveryMode::Reserved3 => 3,
            ApicDeliveryMode::NMI => 4,
            ApicDeliveryMode::Init => 5,
            ApicDeliveryMode::StartUp => 6,
            ApicDeliveryMode::Reserved7 => 7,
        }
    }

}

impl ApicDeliveryMode {
    pub fn as_redir(&self) -> (r: u32)
        ensures
            r == self.spec_code() * 0x100,
    {
        self.code() * 0x100
    }
}

/// Which processors an inter-processor interrupt goes to.
#[derive(Debug, Clone, Copy, PartialEq, Eq, PartialOrd, Ord, Structural)]
pub enum ApicDestinationShorthand {
    NoShortHand,
    /// The sending processor itself.
    SelfOnly,
    AllIncludingSelf,
    AllExcludingSelf,
}

impl ApicDestinationShorthand {
    /// The numeric code of each variant.
    pub open spec fn spec_code(self) -> u32 {
        match self {
            ApicDestinationShorthand::NoShortHand => 0,
            ApicDestinationShorthand::SelfOnly => 1,
            ApicDestinationShorthand::AllIncludingSelf => 2,
            ApicDestinationShorthand::AllExcludingSelf => 3,
        }
    }

    /// The variant with code `v`, if there is one.
    pub open spec fn spec_from_code(v: u32) -> Option<Self> {
        if v == 0 {
            Some(ApicDestinationShorthand::NoShortHand)
        } else if v == 1 {
            Some(ApicDestinationShorthand::SelfOnly)
        } else if v == 2 {
            Some(ApicDestinationShorthand::AllIncludingSelf)
        } else if v == 3 {
            Some(ApicDestinationShorthand::AllExcludingSelf)
        } else {
            None
        }
    }

    pub fn code(&self) -> (r: u32)
        ensures
            r == self.spec_code(),
    {
        match self {
            ApicDestinationShorthand::NoShortHand => 0,
            ApicDestinationShorthand::SelfOnly => 1,
            ApicDestinationShorthand::AllIncludingSelf => 2,
            ApicDestinationShorthand::AllExcludingSelf => 3,
        }
    }

}

impl ApicDestinationShorthand {
    pub fn as_redir(&self) -> (r: u32)
        ensures
            r == self.spec_code() * 0x40000,
    {
        self.code() * 0x40000
    }
}

/// The mode of the local APIC timer.
#[derive(Debug, Clone, Copy, PartialEq, Eq, PartialOrd, Ord, Structural)]
pub enum LocalApicTimerMode {
    OneShot,
    Periodic,
    TscDeadline,
}

impl LocalApicTimerMode {
    /// The numeric code of each variant.
    pub open spec fn spec_code(self) -> u32 {
        match self {
            LocalApicTimerMode::OneShot => 0,
            LocalApicTimerMode::Periodic => 0x20000,
            LocalApicTimerMode::TscDeadline => 0x40000,
        }
    }

    /// The variant with code `v`, if there is one.
    pub open spec fn spec_from_code(v: u32) -> Option<Self> {
        if v == 0 {
            Some(LocalApicTimerMode::OneShot)
        } else if v == 0x20000 {
            Some(LocalApicTimerMode::Periodic)
        } else if v == 0x40000 {
            Some(LocalApicTimerMode::TscDeadline)
        } else {
            None
        }
    }

    pub fn code(&self) -> (r: u32)
        ensures
            r == self.spec_code(),
    {
        match self {
            LocalApicTimerMode::OneShot => 0,
            LocalApicTimerMode::Periodic => 0x20000,
            LocalApicTimerMode::TscDeadline => 0x40000,
        }
    }

}

/// The divider of the local APIC timer.
#[derive(Debug, Clone, Copy, PartialEq, Eq, Structural)]
pub enum LocalApicTimerDivide {
    By1,
}

impl LocalApicTimerDivide {
    /// The numeric code of each variant.
    pub open spec fn spec_code(self) -> u32 {
        match self {
            LocalApicTimerDivide::By1 => 0b1011,
        }
    }

    /// The variant with code `v`, if there is one.
    pub open spec fn spec_from_code(v: u32) -> Option<Self> {
        if v == 0b1011 {
            Some(LocalApicTimerDivide::By1)
        } else {
            None
        }
    }

    pub fn code(&self) -> (r: u32)
        ensures
            r == self.spec_code(),
    {
        match self {
            LocalApicTimerDivide::By1 => 0b1011,
        }
    }

}

/// The registers of the local APIC, by their offset.
#[derive(Debug, Clone, Copy, PartialEq, Eq, PartialOrd, Ord, Structural)]
pub enum LocalApic {
    Id,
    Version,
    TaskPriority,
    Eoi,
    SpuriousInterrupt,
    InterruptCommand,
    InterruptCommandHigh,
    LvtTimer,
    LvtLint0,
    LvtLint1,
    LvtError,
    TimerInitialCount,
    TimerCurrentCount,
    TimerDivideConfiguration,
}

impl LocalApic {
    /// The numeric code of each variant.
    pub open spec fn spec_code(self) -> u32 {
        match self {
            LocalApic::Id => 0x20,
            LocalApic::Version => 0x30,
            LocalApic::TaskPriority => 0x80,
            LocalApic::Eoi => 0xB0,
            LocalApic::SpuriousInterrupt => 0xF0,
            LocalApic::InterruptCommand => 0x300,
            LocalApic::InterruptCommandHigh => 0x310,
            LocalApic::LvtTimer => 0x320,
            LocalApic::LvtLint0 => 0x350,
            LocalApic::LvtLint1 => 0x360,
            LocalApic::LvtError => 0x370,
            LocalApic::TimerInitialCount => 0x380,
            LocalApic::TimerCurrentCount => 0x390,
            LocalApic::TimerDivideConfiguration => 0x3E0,
        }
    }

    /// The variant with code `v`, if there is one.
    pub open spec fn spec_from_code(v: u32) -> Option<Self> {
        if v == 0x20 {
            Some(LocalApic::Id)
        } else if v == 0x30 {
            Some(LocalApic::Version)
        } else if v == 0x80 {
            Some(LocalApic::TaskPriority)
        } else if v == 0xB0 {
            Some(LocalApic::Eoi)
        } else if v == 0xF0 {
            Some(LocalApic::SpuriousInterrupt)
        } else if v == 0x300 {
            Some(LocalApic::InterruptCommand)
        } else if v == 0x310 {
            Some(LocalApic::InterruptCommandHigh)
        } else if v == 0x320 {
            Some(LocalApic::LvtTimer)
        } else if v == 0x350 {
            Some(LocalApic::LvtLint0)
        } else if v == 0x360 {
            Some(LocalApic::LvtLint1)
        } else if v == 0x370 {
            Some(LocalApic::LvtError)
        } else if v == 0x380 {
            Some(LocalApic::TimerInitialCount)
        } else if v == 0x390 {
            Some(LocalApic::TimerCurrentCount)
        } else if v == 0x3E0 {
            Some(LocalApic::TimerDivideConfiguration)
        } else {
            None
        }
    }

    pub fn code(&self) -> (r: u32)
        ensures
            r == self.spec_code(),
    {
        match self {
            LocalApic::Id => 0x20,
            LocalApic::Version => 0x30,
            LocalApic::TaskPriority => 0x80,
            LocalApic::Eoi => 0xB0,
            LocalApic::SpuriousInterrupt => 0xF0,
            LocalApic::InterruptCommand => 0x300,
            LocalApic::InterruptCommandHigh => 0x310,
            LocalApic::LvtTimer => 0x320,
            LocalApic::LvtLint0 => 0x350,
            LocalApic::LvtLint1 => 0x360,
            LocalApic::LvtError => 0x370,
            LocalApic::TimerInitialCount => 0x380,
            LocalApic::TimerCurrentCount => 0x390,
            LocalApic::TimerDivideConfiguration => 0x3E0,
        }
    }

}

impl LocalApic {
    /// The bootstrap-processor bit of the APIC base register.
    pub const IA32_APIC_BASE_MSR_BSP: u64 = 0x100;
    /// The enable bit of the APIC base register.
    pub const IA32_APIC_BASE_MSR_EN: u64 = 0x800;

    /// The value of the APIC base register of the bootstrap processor.
    pub fn base_register_bsp(base: u64) -> (r: u64)
        ensures
            r == base | 0x800 | 0x100,
    {
        base | Self::IA32_APIC_BASE_MSR_EN | Self::IA32_APIC_BASE_MSR_BSP
    }

    /// The value of the APIC base register of an application processor.
    pub fn base_register_ap(base: u64) -> (r: u64)
        ensures
            r == base | 0x800,
    {
        base | Self::IA32_APIC_BASE_MSR_EN
    }

    /// The id of the processor, from the value of the id register.
    pub fn current_processor_id(id_register: u32) -> (r: ApicId)
        ensures
            r.0 == id_register / 0x100_0000,
    {
        proof {
            lemma_dword_shifts();
            assert(id_register >> 24u32 == id_register / 0x100_0000);
        }
        ApicId((id_register >> 24u32) as u8)
    }

    /// The value of the local vector table entry of the timer.
    pub fn timer_lvt(mode: LocalApicTimerMode, vec: InterruptVector) -> (r: u32)
        ensures
            r == vec.0 + mode.spec_code(),
    {
        let m = mode.code();
        let v = vec.0 as u32;
        proof {
            assert(v | m == v + m) by (bit_vector)
                requires
                    v < 0x100,
                    m == 0 || m == 0x20000 || m == 0x40000,
            ;
        }
        v | m
    }

    /// The value that masks the timer.
    pub fn cleared_timer_lvt() -> (r: u32)
        ensures
            r == 0x0001_0000,
    {
        Apic::REDIR_MASK
    }

    /// The high half of the interrupt command: the destination.
    pub fn command_high(apic_id: ApicId) -> (r: u32)
        ensures
            r == apic_id.0 * 0x100_0000,
    {
        (apic_id.0 as u32) * 0x100_0000
    }

    /// The low half of the interrupt command.
    pub fn command_low(
        shorthand: ApicDestinationShorthand,
        trigger_mode: ApicTriggerMode,
        asserted: bool,
        delivery: ApicDeliveryMode,
        vec: InterruptVector,
    ) -> (r: u32)
        ensures
            r == shorthand.spec_code() * 0x40000 + trigger_mode.spec_code() * 0x8000 + (if asserted {
                0x4000int
            } else {
                0
            }) + delivery.spec_code() * 0x100 + vec.0,
    {
        let s = shorthand.as_redir();
        let t = trigger_mode.as_redir();
        let a: u32 = if asserted {
            0x4000
        } else {
            0
        };
        let d = delivery.as_redir();
        let v = vec.0 as u32;
        proof {
            let sc = shorthand.spec_code();
            let tc = trigger_mode.spec_code();
            let dc = delivery.spec_code();
            assert(s | t | a | d | v == s + t + a + d + v) by (bit_vector)
                requires
                    s == sc * 0x40000,
                    sc < 4,
                    t == tc * 0x8000,
                    tc < 2,
                    a == 0 || a == 0x4000,
                    d == dc * 0x100,
                    dc < 8,
                    v < 0x100,
            ;
        }
        s | t | a | d | v
    }

    /// The command that sends an INIT to a processor.
    pub fn init_ipi() -> (r: (ApicDestinationShorthand, ApicTriggerMode, bool, ApicDeliveryMode, InterruptVector))
        ensures
            r == (ApicDestinationShorthand::NoShortHand, ApicTriggerMode::Edge, true,
                ApicDeliveryMode::Init, InterruptVector(0)),
    {
        (ApicDestinationShorthand::NoShortHand, ApicTriggerMode::Edge, true, ApicDeliveryMode::Init,
            InterruptVector(0))
    }

    /// The command that sends a STARTUP to a processor.
    pub fn startup_ipi(init_vec: InterruptVector) -> (r: (ApicDestinationShorthand, ApicTriggerMode, bool, ApicDeliveryMode, InterruptVector))
        ensures
            r == (ApicDestinationShorthand::NoShortHand, ApicTriggerMode::Edge, true,
                ApicDeliveryMode::StartUp, init_vec),
    {
        (ApicDestinationShorthand::NoShortHand, ApicTriggerMode::Edge, true,
            ApicDeliveryMode::StartUp, init_vec)
    }

    /// The command that sends an interrupt to all processors but the sender.
    pub fn broadcast_ipi(vec: InterruptVector) -> (r: (ApicDestinationShorthand, ApicTriggerMode, bool, ApicDeliveryMode, InterruptVector))
        ensures
            r == (ApicDestinationShorthand::AllExcludingSelf, ApicTriggerMode::Edge, true,
                ApicDeliveryMode::Fixed, vec),
    {
        (ApicDestinationShorthand::AllExcludingSelf, ApicTriggerMode::Edge, true,
            ApicDeliveryMode::Fixed, vec)
    }
}

/// The index of a register of an I/O APIC.
#[derive(Debug, Clone, Copy, PartialEq, Eq, PartialOrd, Structural)]
pub struct IoApicIndex(pub u8);

impl IoApicIndex {
    pub const ID: u8 = 0x00;
    pub const VER: u8 = 0x01;
    pub const REDIR_BASE: u8 = 0x10;

    /// The low half of redirection entry `index`.
    pub fn redir_table_low(index: u8) -> (r: Self)
        requires
            index < 0x78,
        ensures
            r.0 == 0x10 + index * 2,
    {
        Self(Self::REDIR_BASE + index * 2)
    }

    /// The high half of redirection entry `index`.
    pub fn redir_table_high(index: u8) -> (r: Self)
        requires
            index < 0x78,
        ensures
            r.0 == 0x10 + index * 2 + 1,
    {
        Self(Self::REDIR_BASE + index * 2 + 1)
    }
}

/// The IRQs that an I/O APIC serves: `entries` of them from `global_int` on.
#[derive(Debug, Clone, Copy, PartialEq, Eq, Structural)]
pub struct IoApicRange {
    pub global_int: Irq,
    pub entries: u8,
    pub id: u8,
}

impl IoApicRange {
    /// An I/O APIC as the ACPI tables and its version register describe it.
    pub fn new(gsi_base: u32, id: u8, version_register: u32) -> (r: Self)
        requires
            (version_register / 0x10000) % 0x100 < 0xFF,
        ensures
            r.global_int.0 == gsi_base % 0x100,
            r.entries == 1 + (version_register / 0x10000) % 0x100,
            r.id == id,
    {
        proof {
            lemma_dword_shifts();
            assert(version_register >> 16u32 == version_register / 0x10000);
        }
        IoApicRange {
            global_int: Irq((gsi_base % 0x100) as u8),
            entries: 1 + ((version_register >> 16u32) % 0x100) as u8,
            id,
        }
    }

    /// Whether this I/O APIC serves `global_irq`.
    pub open spec fn serves(self, global_irq: Irq) -> bool {
        self.global_int.0 <= global_irq.0 && global_irq.0 - self.global_int.0 < self.entries
    }
}

/// The registers of an I/O APIC to write, and their values.
#[derive(Debug, Clone, Copy, PartialEq, Eq, Structural)]
pub struct RedirectWrite {
    /// Which I/O APIC.
    pub ioapic: usize,
    pub high_index: IoApicIndex,
    pub high: u32,
    pub low_index: IoApicIndex,
    pub low: u32,
}

/// The routing of interrupt requests: the source overrides, the I/O APICs and the
/// handlers that are registered.
pub struct Apic {
    pub master_apic_id: ApicId,
    /// For each interrupt source, where it is routed.
    pub gsi_table: Vec<GsiProps>,
    pub ioapics: Vec<IoApicRange>,
    /// For each global IRQ, its handler (0: none).
    pub idt: Vec<usize>,
    /// For each global IRQ, the argument of its handler.
    pub idt_params: Vec<usize>,
}

impl Apic {
    pub const REDIR_MASK: u32 = 0x0001_0000;
    pub const MSI_DATA: u16 = 0xC000;
    pub const MSI_BASE: u64 = 0xFEE0_0000;

    /// The shape that every routing table has.
    pub open spec fn wf(&self) -> bool {
        &&& self.gsi_table.len() == 256
        &&& self.idt.len() == 127
        &&& self.idt_params.len() == 127
    }

    /// The global IRQ that an interrupt source is routed to.
    pub open spec fn routed(&self, irq: Irq) -> Irq {
        self.gsi_table@[irq.0 as int].global_irq
    }

    /// Whether registering a handler for `irq` is refused: the source is not routed, no
    /// I/O APIC serves it, or its global IRQ already has a handler.
    pub open spec fn register_refused(&self, irq: Irq) -> bool {
        let g = self.routed(irq);
        g.0 == 0 || Self::spec_find_ioapic(self.ioapics@, g) is None || self.idt@[g.0 as int] != 0
    }

    /// Whether registering for `irq` stays within the tables: its global IRQ has a
    /// handler slot, and its line on the I/O APIC that serves it has its
    /// redirection entry in the register range.
    pub open spec fn register_in_range(&self, irq: Irq) -> bool {
        &&& self.routed(irq).0 < 127
        &&& Self::spec_find_ioapic(self.ioapics@, self.routed(irq)) matches Some(i) ==> self.routed(irq).0
            - self.ioapics@[i].global_int.0 <= 0x77
    }

    /// No routes, no I/O APIC, no handler.
    pub fn new() -> (r: Self)
        ensures
            r.wf(),
            r.master_apic_id.0 == 0,
            r.ioapics@.len() == 0,
            forall|i: int| 0 <= i < 256 ==> #[trigger] r.gsi_table[i] == GsiProps::spec_empty(),
            forall|i: int| 0 <= i < 127 ==> #[trigger] r.idt[i] == 0,
            forall|i: int| 0 <= i < 127 ==> #[trigger] r.idt_params[i] == 0,
    {
        let mut gsi_table: Vec<GsiProps> = Vec::new();
        let mut i: usize = 0;
        while i < 256
            invariant
                i <= 256,
                gsi_table.len() == i,
                forall|j: int| 0 <= j < i ==> #[trigger] gsi_table[j] == GsiProps::spec_empty(),
            decreases 256 - i,
        {
            gsi_table.push(GsiProps::empty());
            i += 1;
        }
        let mut idt: Vec<usize> = Vec::new();
        let mut idt_params: Vec<usize> = Vec::new();
        let mut i: usize = 0;
        while i < 127
            invariant
                i <= 127,
                idt.len() == i,
                idt_params.len() == i,
                forall|j: int| 0 <= j < i ==> #[trigger] idt[j] == 0,
                forall|j: int| 0 <= j < i ==> #[trigger] idt_params[j] == 0,
            decreases 127 - i,
        {
            idt.push(0);
            idt_params.push(0);
            i += 1;
        }
        Apic { master_apic_id: ApicId(0), gsi_table, ioapics: Vec::new(), idt, idt_params }
    }

    /// Routes the ISA keyboard and mouse to their own IRQs, as the default.
    pub fn set_isa_defaults(&mut self)
        requires
            old(self).wf(),
        ensures
            final(self).wf(),
            final(self).gsi_table@ == old(self).gsi_table@.update(1, GsiProps { global_irq: Irq(1), trigger: PackedTriggerMode(0) }).update(12, GsiProps { global_irq: Irq(12), trigger: PackedTriggerMode(0) }),
            final(self).ioapics@ == old(self).ioapics@,
            final(self).idt@ == old(self).idt@,
            final(self).idt_params@ == old(self).idt_params@,
            final(self).master_apic_id == old(self).master_apic_id,
    {
        self.gsi_table.set(1, GsiProps { global_irq: Irq(1), trigger: PackedTriggerMode(0) });
        self.gsi_table.set(12, GsiProps { global_irq: Irq(12), trigger: PackedTriggerMode(0) });
    }

    /// Routes an interrupt source as an override of the ACPI tables says.
    pub fn apply_override(&mut self, source: u8, global_system_interrupt: u32, flags: u16)
        requires
            old(self).wf(),
        ensures
            final(self).wf(),
            final(self).gsi_table@ == old(self).gsi_table@.update(source as int, GsiProps {
                global_irq: Irq((global_system_interrupt % 0x100) as u8),
                trigger: PackedTriggerMode(flags),
            }),
            final(self).ioapics@ == old(self).ioapics@,
            final(self).idt@ == old(self).idt@,
            final(self).idt_params@ == old(self).idt_params@,
            final(self).master_apic_id == old(self).master_apic_id,
    {
        let global_irq = (global_system_interrupt % 0x100) as u8;
        self.gsi_table.set(
            source as usize,
            GsiProps { global_irq: Irq(global_irq), trigger: PackedTriggerMode(flags) },
        );
    }

    /// Adds an I/O APIC.
    pub fn add_ioapic(&mut self, ioapic: IoApicRange)
        requires
            old(self).wf(),
        ensures
            final(self).wf(),
            final(self).ioapics@ == old(self).ioapics@.push(ioapic),
            final(self).gsi_table@ == old(self).gsi_table@,
            final(self).idt@ == old(self).idt@,
            final(self).idt_params@ == old(self).idt_params@,
            final(self).master_apic_id == old(self).master_apic_id,
    {
        self.ioapics.push(ioapic);
    }

    /// The first I/O APIC that serves `global_irq`.
    pub open spec fn spec_find_ioapic(ioapics: Seq<IoApicRange>, global_irq: Irq) -> Option<int> {
        if exists|i: int| 0 <= i < ioapics.len() && #[trigger] ioapics[i].serves(global_irq) {
            Some(choose|i: int| 0 <= i < ioapics.len() && #[trigger] ioapics[i].serves(global_irq)
                && forall|j: int| 0 <= j < i ==> !(#[trigger] ioapics[j].serves(global_irq)))
        } else {
            None
        }
    }

    /// The first I/O APIC that serves `global_irq`, and the IRQ's line on it.
    pub fn find_ioapic(&self, global_irq: Irq) -> (r: Option<(usize, u8)>)
        ensures
            match r {
                Some((i, line)) => {
                    &&& i < self.ioapics@.len()
                    &&& self.ioapics@[i as int].serves(global_irq)
                    &&& line == global_irq.0 - self.ioapics@[i as int].global_int.0
                    &&& forall|j: int| 0 <= j < i ==> !(#[trigger] self.ioapics@[j].serves(global_irq))
                },
                None => forall|j: int| 0 <= j < self.ioapics@.len() ==> !(#[trigger] self.ioapics@[j].serves(global_irq)),
            },
    {
        let mut i: usize = 0;
        while i < self.ioapics.len()
            invariant
                i <= self.ioapics@.len(),
                forall|j: int| 0 <= j < i ==> !(#[trigger] self.ioapics@[j].serves(global_irq)),
            decreases self.ioapics@.len() - i,
        {
            let ioapic = self.ioapics[i];
            if ioapic.global_int.0 <= global_irq.0 && global_irq.0 - ioapic.global_int.0 < ioapic.entries {
                return Some((i, global_irq.0 - ioapic.global_int.0));
            }
            i += 1;
        }
        None
    }

    /// The two halves of the redirection entry that sends `vec` to `apic_id`.
    pub fn make_redirect_table_entry_pair(
        vec: InterruptVector,
        trigger: PackedTriggerMode,
        apic_id: ApicId,
    ) -> (r: (u32, u32))
        ensures
            r.0 == (vec.0 as u32) | ((trigger.0 * 0x1000) as u32),
            r.1 == apic_id.0 * 0x100_0000,
    {
        let v = vec.0 as u32;
        let t = trigger.as_redir();
        (v | t, apic_id.as_u32() * 0x100_0000)
    }

    /// Registers `handler` with `val` for `irq` and gives the redirection entry to write.
    /// Refused when the source is not routed, when no I/O APIC serves it, or when its
    /// global IRQ already has a handler.
    pub fn register(&mut self, irq: Irq, handler: usize, val: usize) -> (r: Result<RedirectWrite, ()>)
        requires
            old(self).wf(),
            old(self).register_in_range(irq),
            handler != 0,
        ensures
            final(self).wf(),
            final(self).gsi_table@ == old(self).gsi_table@,
            final(self).ioapics@ == old(self).ioapics@,
            final(self).master_apic_id == old(self).master_apic_id,
            old(self).register_refused(irq) ==> {
                &&& r is Err
                &&& final(self).idt@ == old(self).idt@
                &&& final(self).idt_params@ == old(self).idt_params@
            },
            !old(self).register_refused(irq) ==> {
                let g = old(self).routed(irq);
                let i = Self::spec_find_ioapic(old(self).ioapics@, g)->0;
                let line = (g.0 - old(self).ioapics@[i].global_int.0) as u8;
                let props = old(self).gsi_table@[irq.0 as int];
                &&& final(self).idt@ == old(self).idt@.update(g.0 as int, handler)
                &&& final(self).idt_params@ == old(self).idt_params@.update(g.0 as int, val)
                &&& r == Ok::<RedirectWrite, ()>(RedirectWrite {
                    ioapic: i as usize,
                    high_index: IoApicIndex((0x10 + line * 2 + 1) as u8),
                    high: (old(self).master_apic_id.0 * 0x100_0000) as u32,
                    low_index: IoApicIndex((0x10 + line * 2) as u8),
                    low: ((0x80 + g.0) as u32) | ((props.trigger.0 * 0x1000) as u32),
                })
            },
    {
        let props = self.gsi_table[irq.0 as usize];
        let global_irq = props.global_irq;
        if global_irq.0 == 0 {
            return Err(());
        }
        let found = self.find_ioapic(global_irq);
        proof {
            let s = self.ioapics@;
            match found {
                Some((i, _)) => {
                    assert(exists|k: int| 0 <= k < s.len() && #[trigger] s[k].serves(global_irq));
                    let c = choose|k: int| 0 <= k < s.len() && #[trigger] s[k].serves(global_irq)
                        && forall|j: int| 0 <= j < k ==> !(#[trigger] s[j].serves(global_irq));
                    assert(0 <= c < s.len() && s[c].serves(global_irq) && forall|j: int| 0 <= j < c ==> !(#[trigger] s[j].serves(global_irq)));
                    if c < i {
                    } else if i < c {
                        assert(!s[i as int].serves(global_irq));
                    }
                    assert(Self::spec_find_ioapic(s, global_irq) == Some(i as int));
                },
                None => {},
            }
        }
        match found {
            None => Err(()),
            Some((index, local_irq)) => {
                let g = global_irq.0 as usize;
                if self.idt[g] != 0 {
                    return Err(());
                }
                self.idt.set(g, handler);
                self.idt_params.set(g, val);
                let pair = Self::make_redirect_table_entry_pair(
                    global_irq.as_vec(),
                    props.trigger,
                    self.master_apic_id,
                );
                let high_index = IoApicIndex::redir_table_high(local_irq);
                let low_index = IoApicIndex::redir_table_low(local_irq);
                Ok(RedirectWrite { ioapic: index, high_index, high: pair.1, low_index, low: pair.0 })
            },
        }
    }

    /// The I/O APIC and the register that enabling or disabling `irq` reads and writes:
    /// the low half of the entry at twice the IRQ's line. `None` when no I/O APIC
    /// serves the IRQ.
    pub fn enable_target(&self, irq: Irq) -> (r: Option<(usize, IoApicIndex)>)
        requires
            self.wf(),
            Self::spec_find_ioapic(self.ioapics@, self.routed(irq)) matches Some(i) ==> self.routed(irq).0
                - self.ioapics@[i].global_int.0 <= 0x3B,
        ensures
            match Self::spec_find_ioapic(self.ioapics@, self.routed(irq)) {
                Some(i) => r == Some((i as usize, IoApicIndex((0x10 + (self.routed(irq).0
                    - self.ioapics@[i].global_int.0) * 4) as u8))),
                None => r is None,
            },
    {
        let global_irq = self.gsi_table[irq.0 as usize].global_irq;
        let found = self.find_ioapic(global_irq);
        proof {
            let s = self.ioapics@;
            match found {
                Some((i, _)) => {
                    let c = choose|k: int| 0 <= k < s.len() && #[trigger] s[k].serves(global_irq)
                        && forall|j: int| 0 <= j < k ==> !(#[trigger] s[j].serves(global_irq));
                    assert(s[i as int].serves(global_irq));
                    if c < i {
                    } else if i < c {
                        assert(!s[i as int].serves(global_irq));
                    }
                },
                None => {},
            }
        }
        match found {
            Some((index, local_irq)) => Some((index, IoApicIndex::redir_table_low(local_irq * 2))),
            None => None,
        }
    }

    /// The redirection entry after an IRQ is enabled or disabled.
    pub fn redirect_masked(value: u32, enabled: bool) -> (r: u32)
        ensures
            r == if enabled { value & !0x0001_0000u32 } else { value | 0x0001_0000u32 },
    {
        if enabled {
            value & !Self::REDIR_MASK
        } else {
            value | Self::REDIR_MASK
        }
    }

    /// The handler of a global IRQ and its argument; `None` when none is registered,
    /// which makes the interrupt a fatal error.
    pub fn handler_of(&self, irq: Irq) -> (r: Option<(usize, usize)>)
        requires
            self.wf(),
            irq.0 < 127,
        ensures
            r == if self.idt@[irq.0 as int] == 0 {
                None::<(usize, usize)>
            } else {
                Some((self.idt@[irq.0 as int], self.idt_params@[irq.0 as int]))
            },
    {
        let entry = self.idt[irq.0 as usize];
        if entry == 0 {
            None
        } else {
            Some((entry, self.idt_params[irq.0 as usize]))
        }
    }

    /// The processors that must flush their TLB: all but the current one. With fewer
    /// than two processors there is nobody to ask.
    pub fn tlb_flush_targets(max_cpu: u64, current: u64) -> (r: Option<u64>)
        requires
            max_cpu < 64,
            current < 64,
        ensures
            max_cpu < 2 ==> r is None,
            max_cpu >= 2 ==> r == Some((((1u64 << max_cpu) - 1) as u64) & !(1u64 << current)),
    {
        if max_cpu < 2 {
            return None;
        }
        proof {
            assert(1u64 << max_cpu >= 1) by (bit_vector)
                requires
                    max_cpu < 64,
            ;
        }
        Some(((1u64 << max_cpu) - 1) & !(1u64 << current))
    }

    /// The initial count of the local APIC timer, from what it counted down during a
    /// hundredth of a second: a tick of one millisecond.
    pub fn lapic_timer_value(count: u32) -> (r: u32)
        ensures
            r == (u32::MAX - count) * 100 / 1000,
    {
        ((u32::MAX as u64 - count as u64) * 100 / 1000) as u32
    }

    /// The address and data of the message of `msi`.
    pub fn msi_message(msi: Msi) -> (r: (u64, u16))
        requires
            0 <= msi.0 < 16,
        ensures
            r.0 == 0xFEE0_0000,
            r.1 == 0xC000 + 0x80 + 48 + msi.0,
    {
        let vec = msi.as_vec();
        let v = vec.0 as u16;
        proof {
            lemma_byte_bits();
            assert(v | 0xC000u16 == 0xC000 + v);
        }
        (Self::MSI_BASE, v | Self::MSI_DATA)
    }
}

impl GsiProps {
    pub open spec fn spec_empty() -> Self {
        GsiProps { global_irq: Irq(0), trigger: PackedTriggerMode(0) }
    }
}

/// Hands out the message signaled interrupts, at most `MAX_MSI` of them.
pub struct MsiAllocator {
    pub next: isize,
}

impl MsiAllocator {
    pub fn new() -> (r: Self)
        ensures
            r.next == 0,
    {
        MsiAllocator { next: 0 }
    }

    /// The next free message; `None` once all are taken.
    pub fn allocate(&mut self) -> (r: Option<Msi>)
        requires
            0 <= old(self).next <= 16,
        ensures
            old(self).next < 16 ==> r == Some(Msi(old(self).next)) && final(self).next == old(self).next + 1,
            old(self).next >= 16 ==> r is None && final(self).next == old(self).next,
    {
        if self.next < MAX_MSI {
            let msi = Msi(self.next);
            self.next = self.next + 1;
            Some(msi)
        } else {
            None
        }
    }
}

/// A handler that was registered for an IRQ is the one that its interrupt calls, with
/// its argument; registering a second one for the same IRQ is refused.
pub proof fn lemma_register_then_handle(before: Apic, after: Apic, irq: Irq, handler: usize, val: usize)
    requires
        before.wf(),
        before.register_in_range(irq),
        handler != 0,
        !before.register_refused(irq),
        after.gsi_table@ == before.gsi_table@,
        after.ioapics@ == before.ioapics@,
        after.idt@ == before.idt@.update(before.routed(irq).0 as int, handler),
        after.idt_params@ == before.idt_params@.update(before.routed(irq).0 as int, val),
    ensures
        after.routed(irq) == before.routed(irq),
        after.idt@[after.routed(irq).0 as int] == handler,
        after.idt_params@[after.routed(irq).0 as int] == val,
        after.register_refused(irq),
        after.register_in_range(irq),
{
}


/// The route of interrupt source `s` before the overrides of the ACPI tables:
/// the ISA keyboard (1) and mouse (12) on their own IRQs, nothing else routed.
pub open spec fn isa_default_route(s: int) -> GsiProps {
    if s == 1 || s == 12 {
        GsiProps { global_irq: Irq(s as u8), trigger: PackedTriggerMode(0) }
    } else {
        GsiProps::spec_empty()
    }
}

/// The route of an override `(source, global system interrupt, flags)`.
pub open spec fn override_route(o: (u8, u32, u16)) -> GsiProps {
    GsiProps { global_irq: Irq((o.1 % 0x100) as u8), trigger: PackedTriggerMode(o.2) }
}

/// The route of interrupt source `s` after the overrides: the last override of
/// `s`, else the ISA default.
pub open spec fn madt_route(overrides: Seq<(u8, u32, u16)>, s: int) -> GsiProps
    decreases overrides.len(),
{
    if overrides.len() == 0 {
        isa_default_route(s)
    } else if overrides.last().0 == s {
        override_route(overrides.last())
    } else {
        madt_route(overrides.drop_last(), s)
    }
}

impl Apic {
    /// The routing that the interrupt controller table describes: the first
    /// local APIC is the bootstrap processor's, the ISA defaults are overridden
    /// by the source overrides in their order, and the I/O APICs are kept in
    /// their order. No handler is registered yet.
    pub fn from_madt(lapic_ids: &[u8], overrides: &[(u8, u32, u16)], ioapics: &[IoApicRange]) -> (r: Self)
        requires
            lapic_ids@.len() > 0,
        ensures
            r.wf(),
            r.master_apic_id == ApicId(lapic_ids@[0]),
            forall|s: int| 0 <= s < 256 ==> #[trigger] r.gsi_table@[s] == madt_route(overrides@, s),
            r.ioapics@ == ioapics@,
            forall|i: int| 0 <= i < 127 ==> #[trigger] r.idt@[i] == 0,
            forall|i: int| 0 <= i < 127 ==> #[trigger] r.idt_params@[i] == 0,
    {
        let mut apic = Apic::new();
        apic.master_apic_id = ApicId(lapic_ids[0]);
        apic.set_isa_defaults();
        proof {
            assert(overrides@.take(0) =~= Seq::<(u8, u32, u16)>::empty());
        }
        let mut i: usize = 0;
        while i < overrides.len()
            invariant
                apic.wf(),
                i <= overrides@.len(),
                apic.master_apic_id == ApicId(lapic_ids@[0]),
                apic.ioapics@.len() == 0,
                forall|j: int| 0 <= j < 127 ==> #[trigger] apic.idt@[j] == 0,
                forall|j: int| 0 <= j < 127 ==> #[trigger] apic.idt_params@[j] == 0,
                forall|s: int| 0 <= s < 256 ==> #[trigger] apic.gsi_table@[s] == madt_route(overrides@.take(i as int), s),
            decreases overrides@.len() - i,
        {
            let (source, gsi, flags) = overrides[i];
            apic.apply_override(source, gsi, flags);
            proof {
                let t = overrides@.take(i + 1);
                assert(t.drop_last() =~= overrides@.take(i as int));
                assert(t.last() == overrides@[i as int]);
            }
            i += 1;
        }
        proof {
            assert(overrides@.take(overrides@.len() as int) =~= overrides@);
        }
        let mut k: usize = 0;
        while k < ioapics.len()
            invariant
                apic.wf(),
                k <= ioapics@.len(),
                apic.master_apic_id == ApicId(lapic_ids@[0]),
                apic.ioapics@ == ioapics@.take(k as int),
                forall|j: int| 0 <= j < 127 ==> #[trigger] apic.idt@[j] == 0,
                forall|j: int| 0 <= j < 127 ==> #[trigger] apic.idt_params@[j] == 0,
                forall|s: int| 0 <= s < 256 ==> #[trigger] apic.gsi_table@[s] == madt_route(overrides@, s),
            decreases ioapics@.len() - k,
        {
            apic.add_ioapic(ioapics[k]);
            proof {
                assert(ioapics@.take(k + 1) =~= ioapics@.take(k as int).push(ioapics@[k as int]));
            }
            k += 1;
        }
        proof {
            assert(ioapics@.take(ioapics@.len() as int) =~= ioapics@);
        }
        apic
    }

    /// The application processors to start: the local APICs after the first,
    /// at most `MAX_CPU` of them.
    pub fn ap_start_list(lapic_ids: &[u8]) -> (r: Vec<u8>)
        requires
            lapic_ids@.len() > 0,
        ensures
            r@ == lapic_ids@.subrange(1, 1 + if lapic_ids@.len() - 1 < MAX_CPU { lapic_ids@.len() - 1 } else { MAX_CPU as int }),
    {
        let n = lapic_ids.len() - 1;
        let count: usize = if (n as u64) < MAX_CPU { n } else { MAX_CPU as usize };
        let mut r: Vec<u8> = Vec::new();
        let mut i: usize = 0;
        while i < count
            invariant
                count <= n,
                n + 1 == lapic_ids@.len(),
                count == if n < MAX_CPU { n as int } else { MAX_CPU as int },
                i <= count,
                r@ == lapic_ids@.subrange(1, 1 + i as int),
            decreases count - i,
        {
            r.push(lapic_ids[i + 1]);
            proof {
                assert(lapic_ids@.subrange(1, 2 + i as int) =~= lapic_ids@.subrange(1, 1 + i as int).push(lapic_ids@[i + 1]));
            }
            i += 1;
        }
        r
    }
}


impl Apic {
    /// Hands out the next message signaled interrupt and registers `handler`
    /// with `arg` for its IRQ; the message's address and data are returned.
    /// After the sixteenth message every request is refused and changes nothing.
    pub fn register_msi(&mut self, alloc: &mut MsiAllocator, handler: usize, arg: usize) -> (r: Result<(u64, u16), ()>)
        requires
            old(self).wf(),
            0 <= old(alloc).next <= 16,
        ensures
            final(self).wf(),
            final(self).gsi_table@ == old(self).gsi_table@,
            final(self).ioapics@ == old(self).ioapics@,
            final(self).master_apic_id == old(self).master_apic_id,
            ({
                let k = old(alloc).next;
                if k < 16 {
                    &&& r == Ok::<(u64, u16), ()>((0xFEE0_0000u64, (0xC000 + 0xB0 + k) as u16))
                    &&& final(self).idt@ == old(self).idt@.update(48 + k, handler)
                    &&& final(self).idt_params@ == old(self).idt_params@.update(48 + k, arg)
                    &&& final(alloc).next == k + 1
                } else {
                    &&& r == Err::<(u64, u16), ()>(())
                    &&& final(self).idt@ == old(self).idt@
                    &&& final(self).idt_params@ == old(self).idt_params@
                    &&& final(alloc).next == k
                }
            }),
    {
        match alloc.allocate() {
            Some(msi) => {
                let irq = msi.as_irq();
                self.idt.set(irq.0 as usize, handler);
                self.idt_params.set(irq.0 as usize, arg);
                Ok(Self::msi_message(msi))
            },
            None => Err(()),
        }
    }
}

} // verus!
