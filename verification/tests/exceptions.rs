use kernel::arch::exception::{exception_report, ExceptionHeadline, ExceptionRegs, ExceptionType};

fn regs() -> ExceptionRegs {
    ExceptionRegs {
        rax: 0x1111_2222_3333_4444,
        rbx: 2,
        rcx: 3,
        rdx: 4,
        rbp: 5,
        rsi: 6,
        rdi: 7,
        r8: 8,
        r9: 9,
        r10: 10,
        r11: 11,
        r12: 12,
        r13: 13,
        r14: 14,
        r15: 15,
        rip: 0xFFFF_8000_0000_1234,
        rsp: 0x0000_7FFF_FFFF_F000,
        rflags: 0x246,
        cr2: 0x0000_0000_DEAD_B000,
        cs: 0x08,
        ss: 0x10,
        ds: 0,
        es: 0,
        fs: 0,
        gs: 0,
        error_code: 2,
        mxcsr: 0x1F80,
    }
}

#[test]
fn exception_types_and_names() {
    assert_eq!(ExceptionType::from_vec(0), ExceptionType::DivideError);
    assert_eq!(ExceptionType::from_vec(14), ExceptionType::PageFault);
    assert_eq!(ExceptionType::from_vec(15), ExceptionType::Reserved(15));
    assert_eq!(ExceptionType::from_vec(13).mnemonic(), "#GP");
    assert_eq!(ExceptionType::from_vec(6).mnemonic(), "#UD");
    assert!(ExceptionType::GeneralProtection.has_error_code());
    assert!(!ExceptionType::InvalidOpcode.has_error_code());
}

#[test]
fn page_fault_report_in_64_bit_code() {
    let r = exception_report(14, true, regs());
    assert_eq!(
        r.headline,
        ExceptionHeadline::PageFault { error_code: 2, address: 0xDEAD_B000, digits: 12, ip: 0x8000_0000_1234, sp: 0x7FFF_FFFF_F000 }
    );
    assert_eq!(r.regs, regs());
    let mut odd = regs();
    odd.cr2 = 0x1234_5678_9ABC_DEF0;
    match exception_report(14, true, odd).headline {
        ExceptionHeadline::PageFault { address, digits, .. } => assert_eq!((address, digits), (0x1234_5678_9ABC_DEF0, 16)),
        h => panic!("{:?}", h),
    }
}

#[test]
fn other_reports() {
    assert_eq!(
        exception_report(6, true, regs()).headline,
        ExceptionHeadline::Exception { kind: ExceptionType::InvalidOpcode, error_code: None, ip: 0x8000_0000_1234, sp: 0x7FFF_FFFF_F000 }
    );
    assert_eq!(
        exception_report(19, true, regs()).headline,
        ExceptionHeadline::Simd { mxcsr: 0x1F80, ip: 0x8000_0000_1234, sp: 0x7FFF_FFFF_F000 }
    );
    let r = exception_report(6, false, regs());
    assert_eq!(
        r.headline,
        ExceptionHeadline::Exception { kind: ExceptionType::InvalidOpcode, error_code: Some(2), ip: 0x1234, sp: 0xFFFF_F000 }
    );
    assert_eq!(r.regs.rax, 0x3333_4444);
    assert_eq!(r.regs.r8, 8);
    match exception_report(14, false, regs()).headline {
        ExceptionHeadline::PageFault { address, digits, .. } => assert_eq!((address, digits), (0xDEAD_B000, 8)),
        h => panic!("{:?}", h),
    }
}
