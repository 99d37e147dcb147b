//! The report of a processor exception that nothing handled: which exception,
//! and the registers, masked to the width of the code that was running.
//!
//! The platform reads the saved context and prints the report; then it ends
//! the user process or stops the kernel.

use vstd::prelude::*;

verus! {

/// The exceptions of the x86 architecture, by vector.
#[derive(Debug, Clone, Copy, PartialEq, Eq, Structural)]
pub enum ExceptionType {
    DivideError,
    Debug,
    NonMaskableInterrupt,
    Breakpoint,
    Overflow,
    BoundRangeExceeded,
    InvalidOpcode,
    DeviceNotAvailable,
    DoubleFault,
    CoprocessorSegmentOverrun,
    InvalidTss,
    SegmentNotPresent,
    StackSegmentFault,
    GeneralProtection,
    PageFault,
    FloatingPointError,
    AlignmentCheck,
    MachineCheck,
    SimdException,
    Virtualization,
    ControlProtection,
    HypervisorInjection,
    VmmCommunication,
    SecurityException,
    /// A vector with no architectural exception.
    Reserved(u8),
}

pub open spec fn spec_exception_from_vec(vec: u8) -> ExceptionType {
    if vec == 0 { ExceptionType::DivideError }
    else if vec == 1 { ExceptionType::Debug }
    else if vec == 2 { ExceptionType::NonMaskableInterrupt }
    else if vec == 3 { ExceptionType::Breakpoint }
    else if vec == 4 { ExceptionType::Overflow }
    else if vec == 5 { ExceptionType::BoundRangeExceeded }
    else if vec == 6 { ExceptionType::InvalidOpcode }
    else if vec == 7 { ExceptionType::DeviceNotAvailable }
    else if vec == 8 { ExceptionType::DoubleFault }
    else if vec == 9 { ExceptionType::CoprocessorSegmentOverrun }
    else if vec == 10 { ExceptionType::InvalidTss }
    else if vec == 11 { ExceptionType::SegmentNotPresent }
    else if vec == 12 { ExceptionType::StackSegmentFault }
    else if vec == 13 { ExceptionType::GeneralProtection }
    else if vec == 14 { ExceptionType::PageFault }
    else if vec == 16 { ExceptionType::FloatingPointError }
    else if vec == 17 { ExceptionType::AlignmentCheck }
    else if vec == 18 { ExceptionType::MachineCheck }
    else if vec == 19 { ExceptionType::SimdException }
    else if vec == 20 { ExceptionType::Virtualization }
    else if vec == 21 { ExceptionType::ControlProtection }
    else if vec == 28 { ExceptionType::HypervisorInjection }
    else if vec == 29 { ExceptionType::VmmCommunication }
    else if vec == 30 { ExceptionType::SecurityException }
    else { ExceptionType::Reserved(vec) }
}

impl ExceptionType {
    /// The exception of a vector.
    pub fn from_vec(vec: u8) -> (r: Self)
        ensures
            r == spec_exception_from_vec(vec),
    {
        match vec {
            0 => ExceptionType::DivideError,
            1 => ExceptionType::Debug,
            2 => ExceptionType::NonMaskableInterrupt,
            3 => ExceptionType::Breakpoint,
            4 => ExceptionType::Overflow,
            5 => ExceptionType::BoundRangeExceeded,
            6 => ExceptionType::InvalidOpcode,
            7 => ExceptionType::DeviceNotAvailable,
            8 => ExceptionType::DoubleFault,
            9 => ExceptionType::CoprocessorSegmentOverrun,
            10 => ExceptionType::InvalidTss,
            11 => ExceptionType::SegmentNotPresent,
            12 => ExceptionType::StackSegmentFault,
            13 => ExceptionType::GeneralProtection,
            14 => ExceptionType::PageFault,
            16 => ExceptionType::FloatingPointError,
            17 => ExceptionType::AlignmentCheck,
            18 => ExceptionType::MachineCheck,
            19 => ExceptionType::SimdException,
            20 => ExceptionType::Virtualization,
            21 => ExceptionType::ControlProtection,
            28 => ExceptionType::HypervisorInjection,
            29 => ExceptionType::VmmCommunication,
            30 => ExceptionType::SecurityException,
            _ => ExceptionType::Reserved(vec),
        }
    }

    /// Whether the processor pushes an error code for this exception.
    pub open spec fn spec_has_error_code(self) -> bool {
        match self {
            ExceptionType::DoubleFault | ExceptionType::InvalidTss | ExceptionType::SegmentNotPresent
            | ExceptionType::StackSegmentFault | ExceptionType::GeneralProtection | ExceptionType::PageFault
            | ExceptionType::AlignmentCheck | ExceptionType::ControlProtection
            | ExceptionType::VmmCommunication | ExceptionType::SecurityException => true,
            _ => false,
        }
    }

    pub fn has_error_code(&self) -> (r: bool)
        ensures
            r == self.spec_has_error_code(),
    {
        match self {
            ExceptionType::DoubleFault | ExceptionType::InvalidTss | ExceptionType::SegmentNotPresent
            | ExceptionType::StackSegmentFault | ExceptionType::GeneralProtection | ExceptionType::PageFault
            | ExceptionType::AlignmentCheck | ExceptionType::ControlProtection
            | ExceptionType::VmmCommunication | ExceptionType::SecurityException => true,
            _ => false,
        }
    }

    /// The short name of the exception, as the manuals write it.
    pub open spec fn spec_mnemonic(self) -> Seq<char> {
        match self {
            ExceptionType::DivideError => "#DE"@,
            ExceptionType::Debug => "#DB"@,
            ExceptionType::NonMaskableInterrupt => "NMI"@,
            ExceptionType::Breakpoint => "#BP"@,
            ExceptionType::Overflow => "#OF"@,
            ExceptionType::BoundRangeExceeded => "#BR"@,
            ExceptionType::InvalidOpcode => "#UD"@,
            ExceptionType::DeviceNotAvailable => "#NM"@,
            ExceptionType::DoubleFault => "#DF"@,
            ExceptionType::CoprocessorSegmentOverrun => "#CSO"@,
            ExceptionType::InvalidTss => "#TS"@,
            ExceptionType::SegmentNotPresent => "#NP"@,
            ExceptionType::StackSegmentFault => "#SS"@,
            ExceptionType::GeneralProtection => "#GP"@,
            ExceptionType::PageFault => "#PF"@,
            ExceptionType::FloatingPointError => "#MF"@,
            ExceptionType::AlignmentCheck => "#AC"@,
            ExceptionType::MachineCheck => "#MC"@,
            ExceptionType::SimdException => "#XM"@,
            ExceptionType::Virtualization => "#VE"@,
            ExceptionType::ControlProtection => "#CP"@,
            ExceptionType::HypervisorInjection => "#HV"@,
            ExceptionType::VmmCommunication => "#VC"@,
            ExceptionType::SecurityException => "#SX"@,
            ExceptionType::Reserved(_) => "-"@,
        }
    }

    pub fn mnemonic(&self) -> (r: &'static str)
        ensures
            r@ == self.spec_mnemonic(),
    {
        match self {
            ExceptionType::DivideError => "#DE",
            ExceptionType::Debug => "#DB",
            ExceptionType::NonMaskableInterrupt => "NMI",
            ExceptionType::Breakpoint => "#BP",
            ExceptionType::Overflow => "#OF",
            ExceptionType::BoundRangeExceeded => "#BR",
            ExceptionType::InvalidOpcode => "#UD",
            ExceptionType::DeviceNotAvailable => "#NM",
            ExceptionType::DoubleFault => "#DF",
            ExceptionType::CoprocessorSegmentOverrun => "#CSO",
            ExceptionType::InvalidTss => "#TS",
            ExceptionType::SegmentNotPresent => "#NP",
            ExceptionType::StackSegmentFault => "#SS",
            ExceptionType::GeneralProtection => "#GP",
            ExceptionType::PageFault => "#PF",
            ExceptionType::FloatingPointError => "#MF",
            ExceptionType::AlignmentCheck => "#AC",
            ExceptionType::MachineCheck => "#MC",
            ExceptionType::SimdException => "#XM",
            ExceptionType::Virtualization => "#VE",
            ExceptionType::ControlProtection => "#CP",
            ExceptionType::HypervisorInjection => "#HV",
            ExceptionType::VmmCommunication => "#VC",
            ExceptionType::SecurityException => "#SX",
            ExceptionType::Reserved(_) => "-",
        }
    }
}

/// The registers that an exception saved.
#[derive(Debug, Clone, Copy, PartialEq, Eq, Structural)]
pub struct ExceptionRegs {
    pub rax: u64,
    pub rbx: u64,
    pub rcx: u64,
    pub rdx: u64,
    pub rbp: u64,
    pub rsi: u64,
    pub rdi: u64,
    pub r8: u64,
    pub r9: u64,
    pub r10: u64,
    pub r11: u64,
    pub r12: u64,
    pub r13: u64,
    pub r14: u64,
    pub r15: u64,
    pub rip: u64,
    pub rsp: u64,
    pub rflags: u64,
    pub cr2: u64,
    pub cs: u16,
    pub ss: u16,
    pub ds: u16,
    pub es: u16,
    pub fs: u16,
    pub gs: u16,
    pub error_code: u64,
    pub mxcsr: u32,
}

/// The first line of the report.
#[derive(Debug, Clone, Copy, PartialEq, Eq, Structural)]
pub enum ExceptionHeadline {
    /// A page fault: its error code, the faulting address printed in `digits`
    /// hexadecimal digits, and where code and stack stood.
    PageFault { error_code: u64, address: u64, digits: u8, ip: u64, sp: u64 },
    /// A SIMD floating-point exception, with the SIMD status register.
    Simd { mxcsr: u32, ip: u64, sp: u64 },
    /// Any other exception, with its error code where one is shown.
    Exception { kind: ExceptionType, error_code: Option<u64>, ip: u64, sp: u64 },
}

/// What is printed of an exception: the headline, and the registers masked to
/// the width of the code (32 bits for 16- and 32-bit code segments).
#[derive(Debug, Clone, Copy, PartialEq, Eq, Structural)]
pub struct ExceptionReport {
    pub wide: bool,
    pub headline: ExceptionHeadline,
    pub regs: ExceptionRegs,
}

/// Bits 0-31.
pub const MASK32: u64 = 0xFFFF_FFFF;
/// The 48 bits of a virtual address.
pub const VA_MASK: u64 = 0xFFFF_FFFF_FFFF;

/// The headline: in 64-bit code a page fault shows a canonical address in 12
/// digits and any other in 16, a SIMD exception shows its status, and other
/// exceptions show their error code only where the processor pushes one;
/// in narrower code every address is cut to 32 bits, a page fault shows 8
/// digits, and every other exception shows its error code.
pub open spec fn spec_headline(kind: ExceptionType, wide: bool, regs: ExceptionRegs) -> ExceptionHeadline {
    if wide {
        let ip = regs.rip & VA_MASK;
        let sp = regs.rsp & VA_MASK;
        match kind {
            ExceptionType::PageFault => if regs.cr2 >> 47u64 == 0 || regs.cr2 >> 47u64 == 0x1_FFFF {
                ExceptionHeadline::PageFault { error_code: regs.error_code, address: regs.cr2 & VA_MASK, digits: 12, ip, sp }
            } else {
                ExceptionHeadline::PageFault { error_code: regs.error_code, address: regs.cr2, digits: 16, ip, sp }
            },
            ExceptionType::SimdException => ExceptionHeadline::Simd { mxcsr: regs.mxcsr, ip, sp },
            _ => ExceptionHeadline::Exception {
                kind,
                error_code: if kind.spec_has_error_code() { Some(regs.error_code) } else { None },
                ip,
                sp,
            },
        }
    } else {
        let ip = regs.rip & MASK32;
        let sp = regs.rsp & MASK32;
        match kind {
            ExceptionType::PageFault => ExceptionHeadline::PageFault {
                error_code: regs.error_code,
                address: regs.cr2 & MASK32,
                digits: 8,
                ip,
                sp,
            },
            _ => ExceptionHeadline::Exception { kind, error_code: Some(regs.error_code), ip, sp },
        }
    }
}

/// The registers as printed: in narrower code the general registers that are
/// shown are cut to 32 bits.
pub open spec fn spec_shown_regs(wide: bool, regs: ExceptionRegs) -> ExceptionRegs {
    if wide {
        regs
    } else {
        ExceptionRegs {
            rax: regs.rax & MASK32,
            rbx: regs.rbx & MASK32,
            rcx: regs.rcx & MASK32,
            rdx: regs.rdx & MASK32,
            rbp: regs.rbp & MASK32,
            rsi: regs.rsi & MASK32,
            rdi: regs.rdi & MASK32,
            rip: regs.rip & MASK32,
            rsp: regs.rsp & MASK32,
            ..regs
        }
    }
}

/// The report of an exception at `vector` in code whose segment is 64-bit
/// (`wide`) or narrower.
pub fn exception_report(vector: u8, wide: bool, regs: ExceptionRegs) -> (r: ExceptionReport)
    ensures
        r.wide == wide,
        r.headline == spec_headline(spec_exception_from_vec(vector), wide, regs),
        r.regs == spec_shown_regs(wide, regs),
{
    let kind = ExceptionType::from_vec(vector);
    let headline = if wide {
        let ip = regs.rip & VA_MASK;
        let sp = regs.rsp & VA_MASK;
        match kind {
            ExceptionType::PageFault => {
                let high = regs.cr2 >> 47u64;
                if high == 0 || high == 0x1_FFFF {
                    ExceptionHeadline::PageFault { error_code: regs.error_code, address: regs.cr2 & VA_MASK, digits: 12, ip, sp }
                } else {
                    ExceptionHeadline::PageFault { error_code: regs.error_code, address: regs.cr2, digits: 16, ip, sp }
                }
            },
            ExceptionType::SimdException => ExceptionHeadline::Simd { mxcsr: regs.mxcsr, ip, sp },
            _ => {
                let error_code = if kind.has_error_code() {
                    Some(regs.error_code)
                } else {
                    None
                };
                ExceptionHeadline::Exception { kind, error_code, ip, sp }
            },
        }
    } else {
        let ip = regs.rip & MASK32;
        let sp = regs.rsp & MASK32;
        match kind {
            ExceptionType::PageFault => ExceptionHeadline::PageFault {
                error_code: regs.error_code,
                address: regs.cr2 & MASK32,
                digits: 8,
                ip,
                sp,
            },
            _ => ExceptionHeadline::Exception { kind, error_code: Some(regs.error_code), ip, sp },
        }
    };
    let shown = if wide {
        regs
    } else {
        ExceptionRegs {
            rax: regs.rax & MASK32,
            rbx: regs.rbx & MASK32,
            rcx: regs.rcx & MASK32,
            rdx: regs.rdx & MASK32,
            rbp: regs.rbp & MASK32,
            rsi: regs.rsi & MASK32,
            rdi: regs.rdi & MASK32,
            rip: regs.rip & MASK32,
            rsp: regs.rsp & MASK32,
            ..regs
        }
    };
    ExceptionReport { wide, headline, regs: shown }
}

} // verus!
