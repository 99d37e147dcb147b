//! The logic of the system shell: splitting a command line into words, and
//! the figures that it prints for sizes.

use vstd::prelude::*;
use crate::fs::path::string_views;
use crate::drivers::pci::PciClass;

verus! {

/// Why a command line gave no command.
#[derive(Debug, Clone, Copy, PartialEq, Eq, Structural)]
pub enum ParsedCmdLine {
    /// Nothing but blanks.
    Empty,
    /// A quotation that is never closed.
    InvalidQuote,
}

/// Where the splitter stands.
#[derive(Debug, Clone, Copy, PartialEq, Eq, Structural)]
pub enum CmdLinePhase {
    SkippingSpace,
    Token,
    SingleQuote,
    DoubleQuote,
}

pub open spec fn is_blank(c: char) -> bool {
    c == ' ' || c == '\t' || c == '\r' || c == '\n'
}

/// One character read by the splitter: blanks end a bare word; a quote that
/// opens a word runs to the same quote, blanks included; a quote inside a bare
/// word is kept as it is.
pub open spec fn spec_cmd_step(
    state: (CmdLinePhase, Seq<Seq<char>>, Seq<char>),
    c: char,
) -> (CmdLinePhase, Seq<Seq<char>>, Seq<char>) {
    let (phase, words, cur) = state;
    match phase {
        CmdLinePhase::SkippingSpace => if is_blank(c) {
            state
        } else if c == '\'' {
            (CmdLinePhase::SingleQuote, words, cur)
        } else if c == '"' {
            (CmdLinePhase::DoubleQuote, words, cur)
        } else {
            (CmdLinePhase::Token, words, cur.push(c))
        },
        CmdLinePhase::Token => if is_blank(c) {
            (CmdLinePhase::SkippingSpace, words.push(cur), Seq::empty())
        } else {
            (CmdLinePhase::Token, words, cur.push(c))
        },
        CmdLinePhase::SingleQuote => if c == '\'' {
            (CmdLinePhase::SkippingSpace, words.push(cur), Seq::empty())
        } else {
            (CmdLinePhase::SingleQuote, words, cur.push(c))
        },
        CmdLinePhase::DoubleQuote => if c == '"' {
            (CmdLinePhase::SkippingSpace, words.push(cur), Seq::empty())
        } else {
            (CmdLinePhase::DoubleQuote, words, cur.push(c))
        },
    }
}

/// The splitter after reading `s`: its phase, the finished words and the word
/// being read.
pub open spec fn spec_cmd_scan(s: Seq<char>) -> (CmdLinePhase, Seq<Seq<char>>, Seq<char>)
    decreases s.len(),
{
    if s.len() == 0 {
        (CmdLinePhase::SkippingSpace, Seq::empty(), Seq::empty())
    } else {
        spec_cmd_step(spec_cmd_scan(s.drop_last()), s.last())
    }
}

/// The words of a command line, or why there are none.
pub open spec fn spec_parse_cmd(s: Seq<char>) -> Result<Seq<Seq<char>>, ParsedCmdLine> {
    let (phase, words, cur) = spec_cmd_scan(s);
    if s.len() == 0 {
        Err(ParsedCmdLine::Empty)
    } else if phase == CmdLinePhase::SingleQuote || phase == CmdLinePhase::DoubleQuote {
        Err(ParsedCmdLine::InvalidQuote)
    } else {
        let all = if cur.len() > 0 { words.push(cur) } else { words };
        if all.len() == 0 {
            Err(ParsedCmdLine::Empty)
        } else {
            Ok(all)
        }
    }
}

/// Splits a command line into the command and all words, the command included.
pub fn parse_cmd(cmdline: &str) -> (r: Result<(String, Vec<String>), ParsedCmdLine>)
    ensures
        match spec_parse_cmd(cmdline@) {
            Ok(words) => r matches Ok((cmd, args)) && string_views(args@) == words && cmd@ == words[0],
            Err(e) => r == Err::<(String, Vec<String>), ParsedCmdLine>(e),
        },
{
    let n = cmdline.unicode_len();
    if n == 0 {
        return Err(ParsedCmdLine::Empty);
    }
    let mut args: Vec<String> = Vec::new();
    let mut phase = CmdLinePhase::SkippingSpace;
    let mut start: usize = 0;
    let mut i: usize = 0;
    while i < n
        invariant
            n == cmdline@.len(),
            start <= i <= n,
            ({
                let (p, w, cur) = spec_cmd_scan(cmdline@.subrange(0, i as int));
                &&& p == phase
                &&& string_views(args@) == w
                &&& cur == cmdline@.subrange(start as int, i as int)
                &&& (phase == CmdLinePhase::SkippingSpace ==> start == i)
                &&& (phase == CmdLinePhase::Token ==> start < i)
            }),
        decreases n - i,
    {
        let c = cmdline.get_char(i);
        proof {
            assert(cmdline@.subrange(0, i + 1).drop_last() =~= cmdline@.subrange(0, i as int));
            assert(cmdline@.subrange(start as int, i + 1) =~= cmdline@.subrange(start as int, i as int).push(c));
        }
        let ghost old_views = string_views(args@);
        match phase {
            CmdLinePhase::SkippingSpace => {
                if c == ' ' || c == '\t' || c == '\r' || c == '\n' {
                    start = i + 1;
                } else if c == '\'' {
                    phase = CmdLinePhase::SingleQuote;
                    start = i + 1;
                } else if c == '"' {
                    phase = CmdLinePhase::DoubleQuote;
                    start = i + 1;
                } else {
                    phase = CmdLinePhase::Token;
                }
            },
            CmdLinePhase::Token => {
                if c == ' ' || c == '\t' || c == '\r' || c == '\n' {
                    args.push(cmdline.substring_char(start, i).to_owned());
                    assert(string_views(args@) =~= old_views.push(cmdline@.subrange(start as int, i as int)));
                    phase = CmdLinePhase::SkippingSpace;
                    start = i + 1;
                }
            },
            CmdLinePhase::SingleQuote => {
                if c == '\'' {
                    args.push(cmdline.substring_char(start, i).to_owned());
                    assert(string_views(args@) =~= old_views.push(cmdline@.subrange(start as int, i as int)));
                    phase = CmdLinePhase::SkippingSpace;
                    start = i + 1;
                }
            },
            CmdLinePhase::DoubleQuote => {
                if c == '"' {
                    args.push(cmdline.substring_char(start, i).to_owned());
                    assert(string_views(args@) =~= old_views.push(cmdline@.subrange(start as int, i as int)));
                    phase = CmdLinePhase::SkippingSpace;
                    start = i + 1;
                }
            },
        }
        proof {
            assert(cmdline@.subrange(i + 1, i + 1) =~= Seq::<char>::empty());
        }
        i = i + 1;
    }
    proof {
        assert(cmdline@.subrange(0, n as int) =~= cmdline@);
    }
    match phase {
        CmdLinePhase::SingleQuote | CmdLinePhase::DoubleQuote => {
            return Err(ParsedCmdLine::InvalidQuote);
        },
        CmdLinePhase::Token => {
            let ghost old_views = string_views(args@);
            args.push(cmdline.substring_char(start, n).to_owned());
            assert(string_views(args@) =~= old_views.push(cmdline@.subrange(start as int, n as int)));
        },
        CmdLinePhase::SkippingSpace => {
            assert(cmdline@.subrange(start as int, n as int).len() == 0);
        },
    }
    if args.len() > 0 {
        let cmd = args[0].as_str().to_owned();
        Ok((cmd, args))
    } else {
        Err(ParsedCmdLine::Empty)
    }
}

/// The name that the shell shows for a device class: that of the first entry of
/// its table that the class falls within, from the most specific entries of each
/// class code to the class code itself.
pub open spec fn spec_pci_class_string(cc: PciClass) -> Seq<char> {
    if cc.spec_matches(PciClass(0x00000002)) {
        "Non-VGA-Compatible devices"@
    } else if cc.spec_matches(PciClass(0x00010002)) {
        "VGA-Compatible Device"@
    } else if cc.spec_matches(PciClass(0x01000002)) {
        "SCSI Bus Controller"@
    } else if cc.spec_matches(PciClass(0x01010002)) {
        "IDE Controller"@
    } else if cc.spec_matches(PciClass(0x01040002)) {
        "Raid Controller"@
    } else if cc.spec_matches(PciClass(0x01050002)) {
        "ATA Controller"@
    } else if cc.spec_matches(PciClass(0x01060103)) {
        "AHCI 1.0"@
    } else if cc.spec_matches(PciClass(0x01060002)) {
        "Serial ATA"@
    } else if cc.spec_matches(PciClass(0x01070003)) {
        "SAS"@
    } else if cc.spec_matches(PciClass(0x01070002)) {
        "Serial Attached SCSI"@
    } else if cc.spec_matches(PciClass(0x01080103)) {
        "NVMHCI"@
    } else if cc.spec_matches(PciClass(0x01080203)) {
        "NVM Express"@
    } else if cc.spec_matches(PciClass(0x01080002)) {
        "Non-Volatile Memory Controller"@
    } else if cc.spec_matches(PciClass(0x01000001)) {
        "Mass Storage Controller"@
    } else if cc.spec_matches(PciClass(0x02000002)) {
        "Ethernet Controller"@
    } else if cc.spec_matches(PciClass(0x02000001)) {
        "Network Controller"@
    } else if cc.spec_matches(PciClass(0x03000002)) {
        "VGA Compatible Controller"@
    } else if cc.spec_matches(PciClass(0x03000001)) {
        "Display Controller"@
    } else if cc.spec_matches(PciClass(0x04000002)) {
        "Multimedia Video Controller"@
    } else if cc.spec_matches(PciClass(0x04010002)) {
        "Multimedia Audio Controller"@
    } else if cc.spec_matches(PciClass(0x04020002)) {
        "Computer Telephony Device"@
    } else if cc.spec_matches(PciClass(0x04030002)) {
        "HD Audio Controller"@
    } else if cc.spec_matches(PciClass(0x04000001)) {
        "Multimedia Controller"@
    } else if cc.spec_matches(PciClass(0x05000002)) {
        "RAM Controller"@
    } else if cc.spec_matches(PciClass(0x05010002)) {
        "Flash Controller"@
    } else if cc.spec_matches(PciClass(0x05000001)) {
        "Memory Controller"@
    } else if cc.spec_matches(PciClass(0x06000002)) {
        "Host Bridge"@
    } else if cc.spec_matches(PciClass(0x06010002)) {
        "ISA Bridge"@
    } else if cc.spec_matches(PciClass(0x06020002)) {
        "EISA Bridge"@
    } else if cc.spec_matches(PciClass(0x06030002)) {
        "MCA Bridge"@
    } else if cc.spec_matches(PciClass(0x06040003)) {
        "PCI-to-PCI Bridge (Normal Decode)"@
    } else if cc.spec_matches(PciClass(0x06040103)) {
        "PCI-to-PCI Bridge (Subtractive Decode)"@
    } else if cc.spec_matches(PciClass(0x06050002)) {
        "PCMCIA Bridge"@
    } else if cc.spec_matches(PciClass(0x06060002)) {
        "NuBus Bridge"@
    } else if cc.spec_matches(PciClass(0x06070002)) {
        "CardBus Bridge"@
    } else if cc.spec_matches(PciClass(0x06080002)) {
        "RACEway Bridge"@
    } else if cc.spec_matches(PciClass(0x06090002)) {
        "PCI-to-PCI Bridge"@
    } else if cc.spec_matches(PciClass(0x060A0002)) {
        "InfiniBand-to-PCI Host Bridge"@
    } else if cc.spec_matches(PciClass(0x06000001)) {
        "Bridge Device"@
    } else if cc.spec_matches(PciClass(0x07000002)) {
        "Serial Controller"@
    } else if cc.spec_matches(PciClass(0x07010002)) {
        "Parallel Controller"@
    } else if cc.spec_matches(PciClass(0x07030002)) {
        "Modem"@
    } else if cc.spec_matches(PciClass(0x07040002)) {
        "IEEE 488.1/2 (GPIB) Controller"@
    } else if cc.spec_matches(PciClass(0x07050002)) {
        "Smart Card"@
    } else if cc.spec_matches(PciClass(0x07000001)) {
        "Simple Communication Controller"@
    } else if cc.spec_matches(PciClass(0x08050002)) {
        "SD Host controller"@
    } else if cc.spec_matches(PciClass(0x08060002)) {
        "IOMMU"@
    } else if cc.spec_matches(PciClass(0x08000001)) {
        "Base System Peripheral"@
    } else if cc.spec_matches(PciClass(0x09000001)) {
        "Input Device Controller"@
    } else if cc.spec_matches(PciClass(0x0A000001)) {
        "Docking Station"@
    } else if cc.spec_matches(PciClass(0x0B000001)) {
        "Processor"@
    } else if cc.spec_matches(PciClass(0x0C030003)) {
        "UHCI Controller"@
    } else if cc.spec_matches(PciClass(0x0C031003)) {
        "OHCI Controller"@
    } else if cc.spec_matches(PciClass(0x0C032003)) {
        "EHCI Controller"@
    } else if cc.spec_matches(PciClass(0x0C033003)) {
        "XHCI Controller"@
    } else if cc.spec_matches(PciClass(0x0C034003)) {
        "USB4 Host Controller"@
    } else if cc.spec_matches(PciClass(0x0C030002)) {
        "USB Controller"@
    } else if cc.spec_matches(PciClass(0x0C040002)) {
        "Fibre Channel"@
    } else if cc.spec_matches(PciClass(0x0C050002)) {
        "SMBus"@
    } else if cc.spec_matches(PciClass(0x0C060002)) {
        "InfiniBand"@
    } else if cc.spec_matches(PciClass(0x0C030002)) {
        "USB Controller"@
    } else if cc.spec_matches(PciClass(0x0C000001)) {
        "Serial Bus Controller"@
    } else if cc.spec_matches(PciClass(0x0D110002)) {
        "Bluetooth Controller"@
    } else if cc.spec_matches(PciClass(0x0D000001)) {
        "Wireless Controller"@
    } else if cc.spec_matches(PciClass(0x0E000001)) {
        "Intelligent Controller"@
    } else if cc.spec_matches(PciClass(0x0F000001)) {
        "Satellite Communication Controller"@
    } else if cc.spec_matches(PciClass(0x10000001)) {
        "Encryption Controller"@
    } else if cc.spec_matches(PciClass(0x11000001)) {
        "Signal Processing Controller"@
    } else if cc.spec_matches(PciClass(0x12000001)) {
        "Processing Accelerator"@
    } else if cc.spec_matches(PciClass(0x13000001)) {
        "Encryption Controller"@
    } else if cc.spec_matches(PciClass(0x14000001)) {
        "Non-Essential Instrumentation"@
    } else if cc.spec_matches(PciClass(0x40000001)) {
        "Co-Processor"@
    } else if cc.spec_matches(PciClass(0xFF000001)) {
        "(Vendor specific)"@
    } else {
        "(Unknown Device)"@
    }
}

/// The name of a device class, as the shell lists PCI devices.
pub fn pci_class_string(cc: PciClass) -> (r: &'static str)
    ensures
        r@ == spec_pci_class_string(cc),
{
    if cc.matches(PciClass(0x00000002)) {
        "Non-VGA-Compatible devices"
    } else if cc.matches(PciClass(0x00010002)) {
        "VGA-Compatible Device"
    } else if cc.matches(PciClass(0x01000002)) {
        "SCSI Bus Controller"
    } else if cc.matches(PciClass(0x01010002)) {
        "IDE Controller"
    } else if cc.matches(PciClass(0x01040002)) {
        "Raid Controller"
    } else if cc.matches(PciClass(0x01050002)) {
        "ATA Controller"
    } else if cc.matches(PciClass(0x01060103)) {
        "AHCI 1.0"
    } else if cc.matches(PciClass(0x01060002)) {
        "Serial ATA"
    } else if cc.matches(PciClass(0x01070003)) {
        "SAS"
    } else if cc.matches(PciClass(0x01070002)) {
        "Serial Attached SCSI"
    } else if cc.matches(PciClass(0x01080103)) {
        "NVMHCI"
    } else if cc.matches(PciClass(0x01080203)) {
        "NVM Express"
    } else if cc.matches(PciClass(0x01080002)) {
        "Non-Volatile Memory Controller"
    } else if cc.matches(PciClass(0x01000001)) {
        "Mass Storage Controller"
    } else if cc.matches(PciClass(0x02000002)) {
        "Ethernet Controller"
    } else if cc.matches(PciClass(0x02000001)) {
        "Network Controller"
    } else if cc.matches(PciClass(0x03000002)) {
        "VGA Compatible Controller"
    } else if cc.matches(PciClass(0x03000001)) {
        "Display Controller"
    } else if cc.matches(PciClass(0x04000002)) {
        "Multimedia Video Controller"
    } else if cc.matches(PciClass(0x04010002)) {
        "Multimedia Audio Controller"
    } else if cc.matches(PciClass(0x04020002)) {
        "Computer Telephony Device"
    } else if cc.matches(PciClass(0x04030002)) {
        "HD Audio Controller"
    } else if cc.matches(PciClass(0x04000001)) {
        "Multimedia Controller"
    } else if cc.matches(PciClass(0x05000002)) {
        "RAM Controller"
    } else if cc.matches(PciClass(0x05010002)) {
        "Flash Controller"
    } else if cc.matches(PciClass(0x05000001)) {
        "Memory Controller"
    } else if cc.matches(PciClass(0x06000002)) {
        "Host Bridge"
    } else if cc.matches(PciClass(0x06010002)) {
        "ISA Bridge"
    } else if cc.matches(PciClass(0x06020002)) {
        "EISA Bridge"
    } else if cc.matches(PciClass(0x06030002)) {
        "MCA Bridge"
    } else if cc.matches(PciClass(0x06040003)) {
        "PCI-to-PCI Bridge (Normal Decode)"
    } else if cc.matches(PciClass(0x06040103)) {
        "PCI-to-PCI Bridge (Subtractive Decode)"
    } else if cc.matches(PciClass(0x06050002)) {
        "PCMCIA Bridge"
    } else if cc.matches(PciClass(0x06060002)) {
        "NuBus Bridge"
    } else if cc.matches(PciClass(0x06070002)) {
        "CardBus Bridge"
    } else if cc.matches(PciClass(0x06080002)) {
        "RACEway Bridge"
    } else if cc.matches(PciClass(0x06090002)) {
        "PCI-to-PCI Bridge"
    } else if cc.matches(PciClass(0x060A0002)) {
        "InfiniBand-to-PCI Host Bridge"
    } else if cc.matches(PciClass(0x06000001)) {
        "Bridge Device"
    } else if cc.matches(PciClass(0x07000002)) {
        "Serial Controller"
    } else if cc.matches(PciClass(0x07010002)) {
        "Parallel Controller"
    } else if cc.matches(PciClass(0x07030002)) {
        "Modem"
    } else if cc.matches(PciClass(0x07040002)) {
        "IEEE 488.1/2 (GPIB) Controller"
    } else if cc.matches(PciClass(0x07050002)) {
        "Smart Card"
    } else if cc.matches(PciClass(0x07000001)) {
        "Simple Communication Controller"
    } else if cc.matches(PciClass(0x08050002)) {
        "SD Host controller"
    } else if cc.matches(PciClass(0x08060002)) {
        "IOMMU"
    } else if cc.matches(PciClass(0x08000001)) {
        "Base System Peripheral"
    } else if cc.matches(PciClass(0x09000001)) {
        "Input Device Controller"
    } else if cc.matches(PciClass(0x0A000001)) {
        "Docking Station"
    } else if cc.matches(PciClass(0x0B000001)) {
        "Processor"
    } else if cc.matches(PciClass(0x0C030003)) {
        "UHCI Controller"
    } else if cc.matches(PciClass(0x0C031003)) {
        "OHCI Controller"
    } else if cc.matches(PciClass(0x0C032003)) {
        "EHCI Controller"
    } else if cc.matches(PciClass(0x0C033003)) {
        "XHCI Controller"
    } else if cc.matches(PciClass(0x0C034003)) {
        "USB4 Host Controller"
    } else if cc.matches(PciClass(0x0C030002)) {
        "USB Controller"
    } else if cc.matches(PciClass(0x0C040002)) {
        "Fibre Channel"
    } else if cc.matches(PciClass(0x0C050002)) {
        "SMBus"
    } else if cc.matches(PciClass(0x0C060002)) {
        "InfiniBand"
    } else if cc.matches(PciClass(0x0C030002)) {
        "USB Controller"
    } else if cc.matches(PciClass(0x0C000001)) {
        "Serial Bus Controller"
    } else if cc.matches(PciClass(0x0D110002)) {
        "Bluetooth Controller"
    } else if cc.matches(PciClass(0x0D000001)) {
        "Wireless Controller"
    } else if cc.matches(PciClass(0x0E000001)) {
        "Intelligent Controller"
    } else if cc.matches(PciClass(0x0F000001)) {
        "Satellite Communication Controller"
    } else if cc.matches(PciClass(0x10000001)) {
        "Encryption Controller"
    } else if cc.matches(PciClass(0x11000001)) {
        "Signal Processing Controller"
    } else if cc.matches(PciClass(0x12000001)) {
        "Processing Accelerator"
    } else if cc.matches(PciClass(0x13000001)) {
        "Encryption Controller"
    } else if cc.matches(PciClass(0x14000001)) {
        "Non-Essential Instrumentation"
    } else if cc.matches(PciClass(0x40000001)) {
        "Co-Processor"
    } else if cc.matches(PciClass(0xFF000001)) {
        "(Vendor specific)"
    } else {
        "(Unknown Device)"
    }
}

/// The unit of a size figure.
#[derive(Debug, Clone, Copy, PartialEq, Eq, Structural)]
pub enum SizeUnit {
    Kilo,
    Mega,
    Giga,
}

/// A size as the shell prints it, in five columns.
#[derive(Debug, Clone, Copy, PartialEq, Eq, Structural)]
pub enum SizeFigure {
    /// A whole number right-aligned in four columns, then the unit.
    Whole(u64, SizeUnit),
    /// A number, a point, two digits, and the unit.
    TwoDecimals(u64, u64, SizeUnit),
    /// A number in two columns, a point, one digit, and the unit.
    OneDecimal(u64, u64, SizeUnit),
    /// The plain number in five columns.
    Plain(u64),
}

/// The figure of a size from its parts: thousands (or 1024s) `kb`, millions `mb`,
/// billions `gb` and the low bits that the fraction of a kilo is taken from.
/// The fractions come from shifting by ten bits, as the shell does for both scales.
pub open spec fn spec_size_figure(val: u64, kb: u64, mb: u64, gb: u64) -> SizeFigure {
    if gb >= 10 {
        SizeFigure::Whole(gb, SizeUnit::Giga)
    } else if gb >= 1 {
        SizeFigure::TwoDecimals(gb, ((mb * 100) / 1024) as u64, SizeUnit::Giga)
    } else if mb >= 100 {
        SizeFigure::Whole(mb, SizeUnit::Mega)
    } else if mb >= 10 {
        SizeFigure::OneDecimal(mb, ((kb * 10) / 1024) as u64, SizeUnit::Mega)
    } else if mb >= 1 {
        SizeFigure::TwoDecimals(mb, ((kb * 100) / 1024) as u64, SizeUnit::Mega)
    } else if kb >= 100 {
        SizeFigure::Whole(kb, SizeUnit::Kilo)
    } else if kb >= 10 {
        SizeFigure::OneDecimal(kb, (((val % 1024) * 10) / 1024) as u64, SizeUnit::Kilo)
    } else {
        SizeFigure::Plain(val)
    }
}

/// Shifting out or masking the low ten bits.
proof fn lemma_low_bits(t: u64)
    by (bit_vector)
    ensures
        t >> 10u64 == t / 1024,
        t & 0x3FF == t % 1024,
{
}

fn size_figure(val: u64, kb: u64, mb: u64, gb: u64) -> (r: SizeFigure)
    requires
        kb < 1024,
        mb < 1024,
    ensures
        r == spec_size_figure(val, kb, mb, gb),
{
    if gb >= 10 {
        SizeFigure::Whole(gb, SizeUnit::Giga)
    } else if gb >= 1 {
        let t: u64 = mb * 100;
        let mb0: u64 = t >> 10u64;
        proof {
            lemma_low_bits(t);
        }
        SizeFigure::TwoDecimals(gb, mb0, SizeUnit::Giga)
    } else if mb >= 100 {
        SizeFigure::Whole(mb, SizeUnit::Mega)
    } else if mb >= 10 {
        let t: u64 = kb * 10;
        let kb00: u64 = t >> 10u64;
        proof {
            lemma_low_bits(t);
        }
        SizeFigure::OneDecimal(mb, kb00, SizeUnit::Mega)
    } else if mb >= 1 {
        let t: u64 = kb * 100;
        let kb0: u64 = t >> 10u64;
        proof {
            lemma_low_bits(t);
        }
        SizeFigure::TwoDecimals(mb, kb0, SizeUnit::Mega)
    } else if kb >= 100 {
        SizeFigure::Whole(kb, SizeUnit::Kilo)
    } else if kb >= 10 {
        let low: u64 = val & 0x3FF;
        proof {
            lemma_low_bits(val);
        }
        let t: u64 = low * 10;
        let b00: u64 = t >> 10u64;
        proof {
            lemma_low_bits(t);
        }
        SizeFigure::OneDecimal(kb, b00, SizeUnit::Kilo)
    } else {
        SizeFigure::Plain(val)
    }
}

/// A size in decimal units: thousands, millions and billions.
pub fn si_size(val: u64) -> (r: SizeFigure)
    ensures
        r == spec_size_figure(
            val,
            ((val / 1000) % 1000) as u64,
            ((val / 1_000_000) % 1000) as u64,
            (val / 1_000_000_000) as u64,
        ),
{
    let kb = (val / 1000) % 1000;
    let mb = (val / 1000_000) % 1000;
    let gb = val / 1000_000_000;
    size_figure(val, kb, mb, gb)
}

/// A size in binary units: 1024, 1024 squared and 1024 cubed.
pub fn binary_size(val: u64) -> (r: SizeFigure)
    ensures
        r == spec_size_figure(
            val,
            ((val / 1024) % 1024) as u64,
            ((val / 0x10_0000) % 1024) as u64,
            (val / 0x4000_0000) as u64,
        ),
{
    let kb = (val >> 10u64) & 0x3FF;
    let mb = (val >> 20u64) & 0x3FF;
    let gb = val >> 30u64;
    assert(kb == (val / 1024) % 1024 && mb == (val / 0x10_0000) % 1024 && gb == val / 0x4000_0000)
        by (bit_vector)
        requires
            kb == (val >> 10u64) & 0x3FF,
            mb == (val >> 20u64) & 0x3FF,
            gb == val >> 30u64,
    ;
    size_figure(val, kb, mb, gb)
}

/// A size in binary units as the activity monitor shows it: one more step for
/// tens of gigabytes, which get one decimal.
pub fn monitor_size(val: u64) -> (r: SizeFigure)
    ensures
        ({
            let kb = ((val / 1024) % 1024) as u64;
            let mb = ((val / 0x10_0000) % 1024) as u64;
            let gb = (val / 0x4000_0000) as u64;
            r == if gb >= 100 {
                SizeFigure::Whole(gb, SizeUnit::Giga)
            } else if gb >= 10 {
                SizeFigure::OneDecimal(gb, ((mb * 10) / 1024) as u64, SizeUnit::Giga)
            } else {
                spec_size_figure(val, kb, mb, gb)
            }
        }),
{
    let gb = val >> 30u64;
    let mb = (val >> 20u64) & 0x3FF;
    assert(mb == (val / 0x10_0000) % 1024 && gb == val / 0x4000_0000) by (bit_vector)
        requires
            mb == (val >> 20u64) & 0x3FF,
            gb == val >> 30u64,
    ;
    if gb >= 100 {
        SizeFigure::Whole(gb, SizeUnit::Giga)
    } else if gb >= 10 {
        let t: u64 = mb * 10;
        let mb00: u64 = t >> 10u64;
        proof {
            lemma_low_bits(t);
        }
        SizeFigure::OneDecimal(gb, mb00, SizeUnit::Giga)
    } else {
        binary_size(val)
    }
}

} // verus!
