use kernel::drivers::pci::PciClass;
use kernel::shell::{binary_size, monitor_size, parse_cmd, pci_class_string, si_size, ParsedCmdLine, SizeFigure, SizeUnit};

fn words(line: &str) -> Vec<String> {
    let (cmd, args) = parse_cmd(line).unwrap();
    assert_eq!(cmd, args[0]);
    args
}

#[test]
fn parse_cmd_splits_on_blanks() {
    assert_eq!(words("ls -l /"), vec!["ls", "-l", "/"]);
    assert_eq!(words("  x\t\ty\n"), vec!["x", "y"]);
}

#[test]
fn parse_cmd_quotes() {
    assert_eq!(words("echo 'a b' \"c d\""), vec!["echo", "a b", "c d"]);
    assert_eq!(words("a'' b\"c"), vec!["a''", "b\"c"]);
    assert_eq!(words("'' x"), vec!["", "x"]);
    assert_eq!(words("\"it's\""), vec!["it's"]);
}

#[test]
fn parse_cmd_errors() {
    assert_eq!(parse_cmd(""), Err(ParsedCmdLine::Empty));
    assert_eq!(parse_cmd(" \t\r\n"), Err(ParsedCmdLine::Empty));
    assert_eq!(parse_cmd("echo 'abc"), Err(ParsedCmdLine::InvalidQuote));
    assert_eq!(parse_cmd("\"x"), Err(ParsedCmdLine::InvalidQuote));
}

#[test]
fn si_sizes() {
    assert_eq!(si_size(500), SizeFigure::Plain(500));
    assert_eq!(si_size(12_345), SizeFigure::OneDecimal(12, 0, SizeUnit::Kilo));
    assert_eq!(si_size(250_000), SizeFigure::Whole(250, SizeUnit::Kilo));
    assert_eq!(si_size(5_500_000), SizeFigure::TwoDecimals(5, 48, SizeUnit::Mega));
    assert_eq!(si_size(42_000_000), SizeFigure::OneDecimal(42, 0, SizeUnit::Mega));
    assert_eq!(si_size(420_000_000), SizeFigure::Whole(420, SizeUnit::Mega));
    assert_eq!(si_size(3_000_000_000), SizeFigure::TwoDecimals(3, 0, SizeUnit::Giga));
    assert_eq!(si_size(12_000_000_000), SizeFigure::Whole(12, SizeUnit::Giga));
}

#[test]
fn binary_sizes() {
    assert_eq!(binary_size(1536), SizeFigure::Plain(1536));
    assert_eq!(binary_size(3 * 0x10_0000 + 0x8_0000), SizeFigure::TwoDecimals(3, 50, SizeUnit::Mega));
    assert_eq!(binary_size(20 * 1024 + 512), SizeFigure::OneDecimal(20, 5, SizeUnit::Kilo));
    assert_eq!(binary_size(11 << 30), SizeFigure::Whole(11, SizeUnit::Giga));
}

#[test]
fn pci_class_names() {
    assert_eq!(pci_class_string(PciClass::from_pci(0x0C03_3000)), "XHCI Controller");
    assert_eq!(pci_class_string(PciClass::from_pci(0x0C03_FE00)), "USB Controller");
    assert_eq!(pci_class_string(PciClass::from_pci(0x0106_0100)), "AHCI 1.0");
    assert_eq!(pci_class_string(PciClass::from_pci(0x0106_0200)), "Serial ATA");
    assert_eq!(pci_class_string(PciClass::from_pci(0x0300_0000)), "VGA Compatible Controller");
    assert_eq!(pci_class_string(PciClass::from_pci(0x0280_0000)), "Network Controller");
    assert_eq!(pci_class_string(PciClass::from_pci(0x0B40_0000)), "Processor");
    assert_eq!(pci_class_string(PciClass::from_pci(0x9900_0000)), "(Unknown Device)");
}

#[test]
fn monitor_sizes() {
    assert_eq!(monitor_size(150 << 30), SizeFigure::Whole(150, SizeUnit::Giga));
    assert_eq!(monitor_size((12 << 30) + (512 << 20)), SizeFigure::OneDecimal(12, 5, SizeUnit::Giga));
    assert_eq!(monitor_size(3 << 30), SizeFigure::TwoDecimals(3, 0, SizeUnit::Giga));
    assert_eq!(monitor_size(700), SizeFigure::Plain(700));
}
