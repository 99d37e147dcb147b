//! HID report descriptors: the items of a descriptor folded into the
//! applications that a device reports, and their input, output and feature
//! fields.

use vstd::prelude::*;

verus! {

/// A usage page of the HID usage tables.
#[derive(Debug, Clone, Copy, PartialEq, Eq, PartialOrd, Ord, Default, Structural)]
pub struct UsagePage(pub u16);

impl UsagePage {
    pub const GENERIC_DESKTOP: u16 = 0x01;
    pub const KEYBOARD: u16 = 0x07;
    pub const LED: u16 = 0x08;
    pub const BUTTON: u16 = 0x09;
    pub const CONSUMER: u16 = 0x0C;
}

/// A usage: its page in the upper 16 bits, its number within the page in the
/// lower ones.
#[derive(Debug, Clone, Copy, PartialEq, Eq, PartialOrd, Ord, Default, Structural)]
pub struct HidUsage(pub u32);

impl HidUsage {
    pub const NONE: u32 = 0;
    pub const MOUSE: u32 = 0x0001_0002;
    pub const KEYBOARD: u32 = 0x0001_0006;
    pub const X: u32 = 0x0001_0030;
    pub const Y: u32 = 0x0001_0031;
    pub const WHEEL: u32 = 0x0001_0038;
    pub const BUTTON_1: u32 = 0x0009_0001;
    pub const CONSUMER_CONTROL: u32 = 0x000C_0001;
    /// The first modifier key (left control) on the keyboard page.
    pub const MOD_MIN: u32 = 0x0007_00E0;
    /// The last modifier key (right GUI) on the keyboard page.
    pub const MOD_MAX: u32 = 0x0007_00E7;

    /// The usage `usage` of `page`.
    pub fn new(page: UsagePage, usage: u16) -> (r: Self)
        ensures
            r.0 == page.0 * 0x1_0000 + usage,
    {
        HidUsage((page.0 as u32) * 0x1_0000 + usage as u32)
    }

    /// The page of the usage.
    pub fn usage_page(&self) -> (r: UsagePage)
        ensures
            r.0 == self.0 / 0x1_0000,
    {
        UsagePage((self.0 / 0x1_0000) as u16)
    }
}

/// The flags of an input, output or feature item.
#[derive(Debug, Clone, Copy, PartialEq, Eq, Default, Structural)]
pub struct HidReportMainFlag(pub u32);

impl HidReportMainFlag {
    /// The field holds constant data (padding).
    pub const CONSTANT: u32 = 0x01;
    /// Each field stands for one usage (else the fields form an array of usages).
    pub const VARIABLE: u32 = 0x02;
    /// The value is relative to the previous report.
    pub const RELATIVE: u32 = 0x04;

    pub fn bits(&self) -> (r: u32)
        ensures
            r == self.0,
    {
        self.0
    }

    pub fn from_bits_retain(bits: u32) -> (r: Self)
        ensures
            r.0 == bits,
    {
        HidReportMainFlag(bits)
    }

    pub fn empty() -> (r: Self)
        ensures
            r.0 == 0,
    {
        HidReportMainFlag(0)
    }

    pub fn contains(&self, other: u32) -> (r: bool)
        ensures
            r == (self.0 & other == other),
    {
        self.0 & other == other
    }

    pub fn is_const(&self) -> (r: bool)
        ensures
            r == (self.0 & 1 == 1),
    {
        self.contains(Self::CONSTANT)
    }

    pub fn is_variable(&self) -> (r: bool)
        ensures
            r == (self.0 & 2 == 2),
    {
        self.contains(Self::VARIABLE)
    }

    pub fn is_array(&self) -> (r: bool)
        ensures
            r == (self.0 & 2 != 2),
    {
        !self.is_variable()
    }

    pub fn is_relative(&self) -> (r: bool)
        ensures
            r == (self.0 & 4 == 4),
    {
        self.contains(Self::RELATIVE)
    }
}

/// The kinds of collection.
#[derive(Debug, Clone, Copy, PartialEq, Eq, Structural)]
pub enum HidReportCollectionType {
    Physical,
    Application,
    Logical,
    Report,
    NamedArray,
    UsageSwitch,
    UsageModifier,
}

impl HidReportCollectionType {
    /// The collection type with number `v`, for the seven that are defined.
    pub open spec fn spec_from_value(v: u32) -> Option<Self> {
        if v == 0 {
            Some(HidReportCollectionType::Physical)
        } else if v == 1 {
            Some(HidReportCollectionType::Application)
        } else if v == 2 {
            Some(HidReportCollectionType::Logical)
        } else if v == 3 {
            Some(HidReportCollectionType::Report)
        } else if v == 4 {
            Some(HidReportCollectionType::NamedArray)
        } else if v == 5 {
            Some(HidReportCollectionType::UsageSwitch)
        } else if v == 6 {
            Some(HidReportCollectionType::UsageModifier)
        } else {
            None
        }
    }

    pub fn from_value(v: u32) -> (r: Option<Self>)
        ensures
            r == Self::spec_from_value(v),
    {
        match v {
            0 => Some(HidReportCollectionType::Physical),
            1 => Some(HidReportCollectionType::Application),
            2 => Some(HidReportCollectionType::Logical),
            3 => Some(HidReportCollectionType::Report),
            4 => Some(HidReportCollectionType::NamedArray),
            5 => Some(HidReportCollectionType::UsageSwitch),
            6 => Some(HidReportCollectionType::UsageModifier),
            _ => None,
        }
    }
}

/// The tags of the short items of a report descriptor.
#[derive(Debug, Clone, Copy, PartialEq, Eq, Structural)]
pub enum HidReportItemTag {
    Input,
    Output,
    Feature,
    Collection,
    EndCollection,
    UsagePage,
    LogicalMinimum,
    LogicalMaximum,
    PhysicalMinimum,
    PhysicalMaximum,
    UnitExponent,
    Unit,
    ReportSize,
    ReportId,
    ReportCount,
    Push,
    Pop,
    Usage,
    UsageMinimum,
    UsageMaximum,
    DesignatorIndex,
    DesignatorMinimum,
    DesignatorMaximum,
    StringIndex,
    StringMinimum,
    StringMaximum,
    Delimiter,
}

/// The data of an item, read both as an unsigned and as a sign-extended number.
#[derive(Debug, Clone, Copy, PartialEq, Eq, Default, Structural)]
pub struct HidReportValue {
    pub unsigned: u32,
    pub signed: i32,
}

impl HidReportValue {
    pub fn as_u32(&self) -> (r: u32)
        ensures
            r == self.unsigned,
    {
        self.unsigned
    }

    pub fn as_i32(&self) -> (r: i32)
        ensures
            r == self.signed,
    {
        self.signed
    }
}

/// One item of a report descriptor: its tag and its data.
#[derive(Debug, Clone, Copy, PartialEq, Eq, Structural)]
pub struct HidReportItem {
    pub tag: HidReportItemTag,
    pub value: HidReportValue,
}

/// The global state of the parser: what stays in force until an item changes it.
#[derive(Debug, Clone, Copy, PartialEq, Eq, Default, Structural)]
pub struct HidReportGlobalState {
    pub usage_page: UsagePage,
    pub logical_minimum: HidReportValue,
    pub logical_maximum: HidReportValue,
    pub physical_minimum: HidReportValue,
    pub physical_maximum: HidReportValue,
    pub unit_exponent: u32,
    pub unit: u32,
    pub report_size: u32,
    /// 0 when no report id is in force.
    pub report_id: u8,
    pub report_count: u32,
}

impl HidReportGlobalState {
    pub open spec fn spec_new() -> Self {
        HidReportGlobalState {
            usage_page: UsagePage(0),
            logical_minimum: HidReportValue { unsigned: 0, signed: 0 },
            logical_maximum: HidReportValue { unsigned: 0, signed: 0 },
            physical_minimum: HidReportValue { unsigned: 0, signed: 0 },
            physical_maximum: HidReportValue { unsigned: 0, signed: 0 },
            unit_exponent: 0,
            unit: 0,
            report_size: 0,
            report_id: 0,
            report_count: 0,
        }
    }

    pub fn new() -> (r: Self)
        ensures
            r == Self::spec_new(),
    {
        HidReportGlobalState {
            usage_page: UsagePage(0),
            logical_minimum: HidReportValue { unsigned: 0, signed: 0 },
            logical_maximum: HidReportValue { unsigned: 0, signed: 0 },
            physical_minimum: HidReportValue { unsigned: 0, signed: 0 },
            physical_maximum: HidReportValue { unsigned: 0, signed: 0 },
            unit_exponent: 0,
            unit: 0,
            report_size: 0,
            report_id: 0,
            report_count: 0,
        }
    }
}

/// The local state of the parser: the usages that the next main item takes.
pub struct HidReportLocalState {
    pub usage: Vec<u32>,
    pub usage_minimum: u32,
    pub usage_maximum: u32,
}

/// What the local state holds.
pub struct SpecLocalState {
    pub usage: Seq<u32>,
    pub usage_minimum: u32,
    pub usage_maximum: u32,
}

impl View for HidReportLocalState {
    type V = SpecLocalState;

    open spec fn view(&self) -> SpecLocalState {
        SpecLocalState { usage: self.usage@, usage_minimum: self.usage_minimum, usage_maximum: self.usage_maximum }
    }
}

impl HidReportLocalState {
    pub open spec fn spec_new() -> SpecLocalState {
        SpecLocalState { usage: Seq::empty(), usage_minimum: 0, usage_maximum: 0 }
    }

    pub fn new() -> (r: Self)
        ensures
            r@ == Self::spec_new(),
    {
        HidReportLocalState { usage: Vec::new(), usage_minimum: 0, usage_maximum: 0 }
    }

    /// Forgets the usages: a main item or a collection consumed them.
    pub fn reset(&mut self)
        ensures
            final(self)@ == Self::spec_new(),
    {
        self.usage = Vec::new();
        self.usage_minimum = 0;
        self.usage_maximum = 0;
    }
}

/// One field of a report, as an input, output or feature item describes it.
#[derive(Debug, Clone, Copy, PartialEq, Eq, Structural)]
pub struct ParsedReportMainItem {
    pub flags: HidReportMainFlag,
    pub report_size: u8,
    pub report_count: u8,
    pub usage_min: HidUsage,
    pub usage_max: HidUsage,
    pub logical_min: u32,
    pub logical_max: u32,
    pub physical_min: u32,
    pub physical_max: u32,
}

/// A usage number made full: numbers below 0x10000 are taken on the current page.
pub open spec fn full_usage(page: UsagePage, min: u32, v: u32) -> HidUsage {
    if min < 0x1_0000 {
        HidUsage((page.0 * 0x1_0000 + (v % 0x1_0000)) as u32)
    } else {
        HidUsage(v)
    }
}

/// A bound of a field: sign-extended for relative fields, else as it stands.
pub open spec fn bound_value(v: HidReportValue, relative: bool) -> u32 {
    if relative {
        v.signed as u32
    } else {
        v.unsigned
    }
}

impl ParsedReportMainItem {
    pub fn empty() -> (r: Self)
        ensures
            r.flags.0 == 0,
            r.report_size == 0,
            r.report_count == 0,
            r.usage_min.0 == 0,
            r.usage_max.0 == 0,
            r.logical_min == 0,
            r.logical_max == 0,
            r.physical_min == 0,
            r.physical_max == 0,
    {
        ParsedReportMainItem {
            flags: HidReportMainFlag(0),
            report_size: 0,
            report_count: 0,
            usage_min: HidUsage(0),
            usage_max: HidUsage(0),
            logical_min: 0,
            logical_max: 0,
            physical_min: 0,
            physical_max: 0,
        }
    }

    /// The field that a main item with `flag` makes from the parser's state, for
    /// the single usage `usage` when there is one (else the usage range), and
    /// `report_count` fields when that is not 0 (else the global count).
    pub open spec fn spec_new(
        flag: HidReportMainFlag,
        global: HidReportGlobalState,
        local: SpecLocalState,
        usage: Option<u32>,
        report_count: usize,
    ) -> Self {
        let (umin, umax) = match usage {
            Some(u) => (u, 0u32),
            None => (local.usage_minimum, local.usage_maximum),
        };
        let relative = flag.0 & 4 == 4;
        ParsedReportMainItem {
            flags: flag,
            report_size: global.report_size as u8,
            report_count: (if report_count > 0 { report_count } else { global.report_count as usize }) as u8,
            usage_min: if flag.0 & 1 == 1 { HidUsage(0) } else { full_usage(global.usage_page, umin, umin) },
            usage_max: if flag.0 & 1 == 1 { HidUsage(0) } else { full_usage(global.usage_page, umin, umax) },
            logical_min: bound_value(global.logical_minimum, relative),
            logical_max: bound_value(global.logical_maximum, relative),
            physical_min: bound_value(global.physical_minimum, relative),
            physical_max: bound_value(global.physical_maximum, relative),
        }
    }

    fn full(page: UsagePage, min: u32, v: u32) -> (r: HidUsage)
        ensures
            r == full_usage(page, min, v),
    {
        if min < 0x1_0000 {
            HidUsage::new(page, (v % 0x1_0000) as u16)
        } else {
            HidUsage(v)
        }
    }

    fn bound(v: HidReportValue, relative: bool) -> (r: u32)
        ensures
            r == bound_value(v, relative),
    {
        if relative {
            v.as_i32() as u32
        } else {
            v.as_u32()
        }
    }

    pub fn new(
        flag: HidReportMainFlag,
        global: &HidReportGlobalState,
        local: &HidReportLocalState,
        usage: Option<u32>,
        report_count: usize,
    ) -> (r: Self)
        ensures
            r == Self::spec_new(flag, *global, local@, usage, report_count),
    {
        let (usage_min, usage_max) = if flag.is_const() {
            (HidUsage(0), HidUsage(0))
        } else {
            let (umin, umax) = match usage {
                Some(u) => (u, 0u32),
                None => (local.usage_minimum, local.usage_maximum),
            };
            (Self::full(global.usage_page, umin, umin), Self::full(global.usage_page, umin, umax))
        };
        let report_count = if report_count > 0 {
            report_count
        } else {
            global.report_count as usize
        } as u8;
        let relative = flag.is_relative();
        ParsedReportMainItem {
            flags: flag,
            report_size: global.report_size as u8,
            report_count,
            usage_min,
            usage_max,
            logical_min: Self::bound(global.logical_minimum, relative),
            logical_max: Self::bound(global.logical_maximum, relative),
            physical_min: Self::bound(global.physical_minimum, relative),
            physical_max: Self::bound(global.physical_maximum, relative),
        }
    }

    pub fn flags(&self) -> (r: HidReportMainFlag)
        ensures
            r == self.flags,
    {
        self.flags
    }

    pub fn is_const(&self) -> (r: bool)
        ensures
            r == (self.flags.0 & 1 == 1),
    {
        self.flags.is_const()
    }

    pub fn is_array(&self) -> (r: bool)
        ensures
            r == (self.flags.0 & 2 != 2),
    {
        self.flags.is_array()
    }

    pub fn is_variable(&self) -> (r: bool)
        ensures
            r == (self.flags.0 & 2 == 2),
    {
        self.flags.is_variable()
    }

    pub fn is_relative(&self) -> (r: bool)
        ensures
            r == (self.flags.0 & 4 == 4),
    {
        self.flags.is_relative()
    }

    pub fn usage_min(&self) -> (r: HidUsage)
        ensures
            r == self.usage_min,
    {
        self.usage_min
    }

    pub fn usage_max(&self) -> (r: HidUsage)
        ensures
            r == self.usage_max,
    {
        self.usage_max
    }

    pub fn logical_min(&self) -> (r: u32)
        ensures
            r == self.logical_min,
    {
        self.logical_min
    }

    pub fn logical_max(&self) -> (r: u32)
        ensures
            r == self.logical_max,
    {
        self.logical_max
    }

    pub fn report_size(&self) -> (r: usize)
        ensures
            r == self.report_size,
    {
        self.report_size as usize
    }

    pub fn report_count(&self) -> (r: usize)
        ensures
            r == self.report_count,
    {
        self.report_count as usize
    }

    /// How many bits the fields take.
    pub fn bit_count(&self) -> (r: usize)
        ensures
            r == self.report_size * self.report_count,
    {
        proof {
            assert(self.report_size * self.report_count <= 255 * 255) by (nonlinear_arith)
                requires
                    self.report_size <= 255,
                    self.report_count <= 255,
            ;
        }
        self.report_size() * self.report_count()
    }
}

/// An entry of an application: a field of a report, or the start or end of a
/// collection inside it.
#[derive(Debug, Clone, Copy, PartialEq, Eq, Structural)]
pub enum ParsedReportEntry {
    Input(ParsedReportMainItem),
    Output(ParsedReportMainItem),
    Feature(ParsedReportMainItem),
    Collection(HidReportCollectionType),
    EndCollection(HidReportCollectionType),
}

/// The three kinds of field.
#[derive(Debug, Clone, Copy, PartialEq, Eq, Structural)]
pub enum ReportKind {
    Input,
    Output,
    Feature,
}

impl ParsedReportEntry {
    /// The entry that a main item with `tag` makes; none for other tags.
    pub open spec fn spec_from_item(item: ParsedReportMainItem, tag: HidReportItemTag) -> Option<Self> {
        match tag {
            HidReportItemTag::Input => Some(ParsedReportEntry::Input(item)),
            HidReportItemTag::Output => Some(ParsedReportEntry::Output(item)),
            HidReportItemTag::Feature => Some(ParsedReportEntry::Feature(item)),
            _ => None,
        }
    }

    pub fn from_item(item: ParsedReportMainItem, tag: HidReportItemTag) -> (r: Option<Self>)
        ensures
            r == Self::spec_from_item(item, tag),
    {
        match tag {
            HidReportItemTag::Input => Some(ParsedReportEntry::Input(item)),
            HidReportItemTag::Output => Some(ParsedReportEntry::Output(item)),
            HidReportItemTag::Feature => Some(ParsedReportEntry::Feature(item)),
            _ => None,
        }
    }

    /// The bits that the entry takes in a report of `kind`.
    pub open spec fn spec_bits(self, kind: ReportKind) -> nat {
        match self {
            ParsedReportEntry::Input(v) => if kind == ReportKind::Input { (v.report_size * v.report_count) as nat } else { 0 },
            ParsedReportEntry::Output(v) => if kind == ReportKind::Output { (v.report_size * v.report_count) as nat } else { 0 },
            ParsedReportEntry::Feature(v) => if kind == ReportKind::Feature { (v.report_size * v.report_count) as nat } else { 0 },
            _ => 0,
        }
    }

    /// The bits that the entry takes, whatever its kind.
    pub fn bit_count(&self) -> (r: usize)
        ensures
            r == match *self {
                ParsedReportEntry::Input(v) => v.report_size * v.report_count,
                ParsedReportEntry::Output(v) => v.report_size * v.report_count,
                ParsedReportEntry::Feature(v) => v.report_size * v.report_count,
                _ => 0,
            },
    {
        match self {
            ParsedReportEntry::Input(v) => v.bit_count(),
            ParsedReportEntry::Output(v) => v.bit_count(),
            ParsedReportEntry::Feature(v) => v.bit_count(),
            ParsedReportEntry::Collection(_) => 0,
            ParsedReportEntry::EndCollection(_) => 0,
        }
    }
}

/// The bits that the entries of `kind` take together.
pub open spec fn spec_bits_of(entries: Seq<ParsedReportEntry>, kind: ReportKind) -> nat
    decreases entries.len(),
{
    if entries.len() == 0 {
        0
    } else {
        spec_bits_of(entries.drop_last(), kind) + entries.last().spec_bits(kind)
    }
}

/// The fields of `kind` among the entries, in order.
pub open spec fn spec_items_of(entries: Seq<ParsedReportEntry>, kind: ReportKind) -> Seq<ParsedReportMainItem>
    decreases entries.len(),
{
    if entries.len() == 0 {
        Seq::empty()
    } else {
        let head = spec_items_of(entries.drop_last(), kind);
        match entries.last() {
            ParsedReportEntry::Input(v) => if kind == ReportKind::Input { head.push(v) } else { head },
            ParsedReportEntry::Output(v) => if kind == ReportKind::Output { head.push(v) } else { head },
            ParsedReportEntry::Feature(v) => if kind == ReportKind::Feature { head.push(v) } else { head },
            _ => head,
        }
    }
}

/// The items of a report that one application describes.
pub struct ParsedReportApplication {
    pub report_id: Option<u8>,
    pub usage: HidUsage,
    pub entries: Vec<ParsedReportEntry>,
}

/// What an application holds.
pub struct SpecApplication {
    pub report_id: Option<u8>,
    pub usage: HidUsage,
    pub entries: Seq<ParsedReportEntry>,
}

impl View for ParsedReportApplication {
    type V = SpecApplication;

    open spec fn view(&self) -> SpecApplication {
        SpecApplication { report_id: self.report_id, usage: self.usage, entries: self.entries@ }
    }
}

impl ParsedReportApplication {
    pub open spec fn spec_empty() -> SpecApplication {
        SpecApplication { report_id: None, usage: HidUsage(0), entries: Seq::empty() }
    }

    pub fn empty() -> (r: Self)
        ensures
            r@ == Self::spec_empty(),
    {
        ParsedReportApplication { report_id: None, usage: HidUsage(0), entries: Vec::new() }
    }

    pub fn report_id(&self) -> (r: Option<u8>)
        ensures
            r == self.report_id,
    {
        self.report_id
    }

    pub fn usage(&self) -> (r: HidUsage)
        ensures
            r == self.usage,
    {
        self.usage
    }

    /// A copy of the application.
    pub fn duplicate(&self) -> (r: Self)
        ensures
            r@ == self@,
    {
        let mut entries: Vec<ParsedReportEntry> = Vec::new();
        let mut i: usize = 0;
        while i < self.entries.len()
            invariant
                i <= self.entries@.len(),
                entries@ == self.entries@.subrange(0, i as int),
            decreases self.entries@.len() - i,
        {
            entries.push(self.entries[i]);
            i += 1;
        }
        assert(self.entries@.subrange(0, i as int) == self.entries@);
        ParsedReportApplication { report_id: self.report_id, usage: self.usage, entries }
    }

    /// Forgets the entries.
    pub fn clear_stream(&mut self)
        ensures
            final(self)@ == (SpecApplication { entries: Seq::empty(), ..old(self)@ }),
    {
        self.entries = Vec::new();
    }

    /// Forgets the entries, the report id and the usage.
    pub fn clear(&mut self)
        ensures
            final(self)@ == Self::spec_empty(),
    {
        self.report_id = None;
        self.usage = HidUsage(0);
        self.clear_stream();
    }

    /// The fields of `kind`, in order.
    pub fn items(&self, kind: ReportKind) -> (r: Vec<ParsedReportMainItem>)
        ensures
            r@ == spec_items_of(self.entries@, kind),
    {
        let mut r: Vec<ParsedReportMainItem> = Vec::new();
        let mut i: usize = 0;
        while i < self.entries.len()
            invariant
                i <= self.entries@.len(),
                r@ == spec_items_of(self.entries@.subrange(0, i as int), kind),
            decreases self.entries@.len() - i,
        {
            proof {
                assert(self.entries@.subrange(0, i + 1).drop_last() == self.entries@.subrange(0, i as int));
            }
            match self.entries[i] {
                ParsedReportEntry::Input(v) => if kind == ReportKind::Input {
                    r.push(v);
                },
                ParsedReportEntry::Output(v) => if kind == ReportKind::Output {
                    r.push(v);
                },
                ParsedReportEntry::Feature(v) => if kind == ReportKind::Feature {
                    r.push(v);
                },
                _ => {},
            }
            i += 1;
        }
        assert(self.entries@.subrange(0, i as int) == self.entries@);
        r
    }

    /// The input fields, in order.
    pub fn input_items(&self) -> (r: Vec<ParsedReportMainItem>)
        ensures
            r@ == spec_items_of(self.entries@, ReportKind::Input),
    {
        self.items(ReportKind::Input)
    }

    /// The output fields, in order.
    pub fn output_items(&self) -> (r: Vec<ParsedReportMainItem>)
        ensures
            r@ == spec_items_of(self.entries@, ReportKind::Output),
    {
        self.items(ReportKind::Output)
    }

    /// The feature fields, in order.
    pub fn feature_items(&self) -> (r: Vec<ParsedReportMainItem>)
        ensures
            r@ == spec_items_of(self.entries@, ReportKind::Feature),
    {
        self.items(ReportKind::Feature)
    }

    /// The bits that the fields of `kind` take in a report.
    pub fn bit_count(&self, kind: ReportKind) -> (r: usize)
        requires
            spec_bits_of(self.entries@, kind) <= usize::MAX,
        ensures
            r == spec_bits_of(self.entries@, kind),
    {
        let mut acc: usize = 0;
        let mut i: usize = 0;
        while i < self.entries.len()
            invariant
                i <= self.entries@.len(),
                spec_bits_of(self.entries@, kind) <= usize::MAX,
                acc == spec_bits_of(self.entries@.subrange(0, i as int), kind),
            decreases self.entries@.len() - i,
        {
            proof {
                assert(self.entries@.subrange(0, i + 1).drop_last() == self.entries@.subrange(0, i as int));
                lemma_bits_of_prefix(self.entries@, kind, i + 1);
            }
            let e = self.entries[i];
            let n = match e {
                ParsedReportEntry::Input(v) => if kind == ReportKind::Input { v.bit_count() } else { 0 },
                ParsedReportEntry::Output(v) => if kind == ReportKind::Output { v.bit_count() } else { 0 },
                ParsedReportEntry::Feature(v) => if kind == ReportKind::Feature { v.bit_count() } else { 0 },
                _ => 0,
            };
            acc = acc + n;
            i += 1;
        }
        assert(self.entries@.subrange(0, i as int) == self.entries@);
        acc
    }

    pub fn bit_count_for_input(&self) -> (r: usize)
        requires
            spec_bits_of(self.entries@, ReportKind::Input) <= usize::MAX,
        ensures
            r == spec_bits_of(self.entries@, ReportKind::Input),
    {
        self.bit_count(ReportKind::Input)
    }

    pub fn bit_count_for_output(&self) -> (r: usize)
        requires
            spec_bits_of(self.entries@, ReportKind::Output) <= usize::MAX,
        ensures
            r == spec_bits_of(self.entries@, ReportKind::Output),
    {
        self.bit_count(ReportKind::Output)
    }

    pub fn bit_count_for_feature(&self) -> (r: usize)
        requires
            spec_bits_of(self.entries@, ReportKind::Feature) <= usize::MAX,
        ensures
            r == spec_bits_of(self.entries@, ReportKind::Feature),
    {
        self.bit_count(ReportKind::Feature)
    }
}

/// The bits of a prefix are at most those of the whole.
pub proof fn lemma_bits_of_prefix(entries: Seq<ParsedReportEntry>, kind: ReportKind, n: int)
    requires
        0 <= n <= entries.len(),
    ensures
        spec_bits_of(entries.subrange(0, n), kind) <= spec_bits_of(entries, kind),
    decreases entries.len() - n,
{
    if n < entries.len() {
        lemma_bits_of_prefix(entries, kind, n + 1);
        assert(entries.subrange(0, n + 1).drop_last() == entries.subrange(0, n));
    } else {
        assert(entries.subrange(0, n) == entries);
    }
}

/// Whether a tag is that of an input, output or feature item.
pub open spec fn is_main_tag(tag: HidReportItemTag) -> bool {
    tag == HidReportItemTag::Input || tag == HidReportItemTag::Output || tag == HidReportItemTag::Feature
}

/// The entry of a main item with `tag`.
pub open spec fn main_entry(tag: HidReportItemTag, item: ParsedReportMainItem) -> ParsedReportEntry {
    match tag {
        HidReportItemTag::Output => ParsedReportEntry::Output(item),
        HidReportItemTag::Feature => ParsedReportEntry::Feature(item),
        _ => ParsedReportEntry::Input(item),
    }
}

/// The entries that a main item makes: one per usage given one by one, the
/// global count shared among them; else one for the usage range.
pub open spec fn spec_main_entries(
    tag: HidReportItemTag,
    flag: HidReportMainFlag,
    global: HidReportGlobalState,
    local: SpecLocalState,
) -> Seq<ParsedReportEntry> {
    if local.usage.len() > 0 {
        let rc = (global.report_count as int / local.usage.len() as int) as usize;
        Seq::new(
            local.usage.len(),
            |i: int| main_entry(tag, ParsedReportMainItem::spec_new(flag, global, local, Some(local.usage[i]), rc)),
        )
    } else {
        seq![main_entry(tag, ParsedReportMainItem::spec_new(flag, global, local, None, 0))]
    }
}

impl ParsedReportMainItem {
    /// Appends the entries of a main item with `tag` and `flag` to `vec`.
    pub fn parse(
        vec: &mut Vec<ParsedReportEntry>,
        tag: HidReportItemTag,
        flag: HidReportMainFlag,
        global: &HidReportGlobalState,
        local: &HidReportLocalState,
    )
        requires
            is_main_tag(tag),
        ensures
            final(vec)@ == old(vec)@ + spec_main_entries(tag, flag, *global, local@),
    {
        let ghost start = vec@;
        let n = local.usage.len();
        if n > 0 {
            let report_count = (global.report_count as usize) / n;
            let mut i: usize = 0;
            while i < n
                invariant
                    is_main_tag(tag),
                    n == local.usage@.len(),
                    n > 0,
                    report_count == (global.report_count as int / n as int) as usize,
                    i <= n,
                    vec@ == start + spec_main_entries(tag, flag, *global, local@).subrange(0, i as int),
                decreases n - i,
            {
                let item = Self::new(flag, global, local, Some(local.usage[i]), report_count);
                match ParsedReportEntry::from_item(item, tag) {
                    Some(e) => vec.push(e),
                    None => {},
                }
                proof {
                    let all = spec_main_entries(tag, flag, *global, local@);
                    assert(all.subrange(0, i + 1) == all.subrange(0, i as int).push(all[i as int]));
                }
                i += 1;
            }
            assert(spec_main_entries(tag, flag, *global, local@).subrange(0, n as int) == spec_main_entries(tag, flag, *global, local@));
        } else {
            let item = Self::new(flag, global, local, None, 0);
            match ParsedReportEntry::from_item(item, tag) {
                Some(e) => vec.push(e),
                None => {},
            }
        }
    }
}

/// What a parsed report descriptor holds: the report ids in the order they
/// first appeared, the application without a report id (if any), and the
/// applications by report id.
pub struct SpecParsedReport {
    pub report_ids: Seq<u8>,
    pub primary: Option<SpecApplication>,
    pub tagged: Map<u8, SpecApplication>,
}

/// The applications by report id that a table sorted by report id holds.
pub open spec fn tagged_map(tagged: Seq<SpecApplication>) -> Map<u8, SpecApplication> {
    Map::new(
        |k: u8| exists|i: int| 0 <= i < tagged.len() && tagged[i].report_id == Some(k),
        |k: u8| tagged[choose|i: int| 0 <= i < tagged.len() && tagged[i].report_id == Some(k)],
    )
}

/// Every entry of the table has a report id, and they increase strictly.
pub open spec fn tagged_sorted(tagged: Seq<SpecApplication>) -> bool {
    &&& forall|i: int| 0 <= i < tagged.len() ==> (#[trigger] tagged[i]).report_id is Some
    &&& forall|i: int, j: int|
        0 <= i < j < tagged.len() ==> (#[trigger] tagged[i]).report_id->0 < (#[trigger] tagged[j]).report_id->0
}

/// The views of a table of applications.
pub open spec fn app_views(v: Seq<ParsedReportApplication>) -> Seq<SpecApplication> {
    v.map_values(|a: ParsedReportApplication| a@)
}

/// A report descriptor, parsed.
pub struct HidParsedReport {
    pub report_ids: Vec<u8>,
    primary: Option<ParsedReportApplication>,
    tagged: Vec<ParsedReportApplication>,
}

impl View for HidParsedReport {
    type V = SpecParsedReport;

    closed spec fn view(&self) -> SpecParsedReport {
        SpecParsedReport {
            report_ids: self.report_ids@,
            primary: match self.primary {
                Some(a) => Some(a@),
                None => None,
            },
            tagged: tagged_map(app_views(self.tagged@)),
        }
    }
}

/// A sorted table maps the report id of each entry to that entry.
proof fn lemma_tagged_map_at(tagged: Seq<SpecApplication>, i: int)
    requires
        tagged_sorted(tagged),
        0 <= i < tagged.len(),
    ensures
        tagged_map(tagged).dom().contains(tagged[i].report_id->0),
        tagged_map(tagged)[tagged[i].report_id->0] == tagged[i],
{
    let k = tagged[i].report_id->0;
    assert(tagged[i].report_id == Some(k));
    let j = choose|j: int| 0 <= j < tagged.len() && tagged[j].report_id == Some(k);
    if j < i {
        assert(tagged[j].report_id->0 < tagged[i].report_id->0);
    } else if i < j {
        assert(tagged[i].report_id->0 < tagged[j].report_id->0);
    }
}

impl HidParsedReport {
    /// Whether the table of applications is sorted by report id, and the
    /// report ids are told apart.
    pub closed spec fn wf(&self) -> bool {
        &&& tagged_sorted(app_views(self.tagged@))
        &&& forall|i: int, j: int|
            0 <= i < j < self.report_ids@.len() ==> #[trigger] self.report_ids@[i] != #[trigger] self.report_ids@[j]
    }

    pub open spec fn spec_new() -> SpecParsedReport {
        SpecParsedReport { report_ids: Seq::empty(), primary: None, tagged: Map::empty() }
    }

    pub fn new() -> (r: Self)
        ensures
            r.wf(),
            r@ == Self::spec_new(),
    {
        let r = HidParsedReport { report_ids: Vec::new(), primary: None, tagged: Vec::new() };
        assert(r@.tagged == Map::<u8, SpecApplication>::empty());
        r
    }

    pub fn has_report_id(&self) -> (r: bool)
        ensures
            r == (self@.report_ids.len() > 0),
    {
        self.report_ids.len() > 0
    }

    /// Where the first field of a report starts: after the report id, when the
    /// device sends one.
    pub fn initial_bit_position(&self) -> (r: usize)
        ensures
            r == if self@.report_ids.len() > 0 { 8usize } else { 0usize },
    {
        if self.has_report_id() {
            8
        } else {
            0
        }
    }

    pub fn primary_app(&self) -> (r: Option<&ParsedReportApplication>)
        ensures
            match r {
                Some(a) => self@.primary == Some(a@),
                None => self@.primary is None,
            },
    {
        match &self.primary {
            Some(a) => Some(a),
            None => None,
        }
    }

    /// The application that reports with `report_id`.
    pub fn app_by_report_id(&self, report_id: u8) -> (r: Option<&ParsedReportApplication>)
        requires
            self.wf(),
        ensures
            match r {
                Some(a) => self@.tagged.dom().contains(report_id) && self@.tagged[report_id] == a@,
                None => !self@.tagged.dom().contains(report_id),
            },
    {
        let mut i: usize = 0;
        while i < self.tagged.len()
            invariant
                i <= self.tagged@.len(),
                tagged_sorted(app_views(self.tagged@)),
                forall|j: int| 0 <= j < i ==> self.tagged@[j].report_id != Some(report_id),
            decreases self.tagged@.len() - i,
        {
            assert(app_views(self.tagged@)[i as int] == self.tagged@[i as int]@);
            if self.tagged[i].report_id == Some(report_id) {
                proof {
                    lemma_tagged_map_at(app_views(self.tagged@), i as int);
                }
                return Some(&self.tagged[i]);
            }
            i += 1;
        }
        proof {
            let t = app_views(self.tagged@);
            if tagged_map(t).dom().contains(report_id) {
                let j = choose|j: int| 0 <= j < t.len() && t[j].report_id == Some(report_id);
                assert(t[j] == self.tagged@[j]@);
            }
        }
        None
    }

    /// The applications with a report id, in the order of their report ids.
    pub closed spec fn spec_applications(&self) -> Seq<SpecApplication> {
        app_views(self.tagged@)
    }

    /// The applications with a report id are those of the map, sorted by
    /// report id, and no report id is recorded twice.
    pub proof fn lemma_applications(&self)
        requires
            self.wf(),
        ensures
            tagged_sorted(self.spec_applications()),
            tagged_map(self.spec_applications()) == self@.tagged,
            forall|i: int, j: int|
                0 <= i < j < self@.report_ids.len() ==> #[trigger] self@.report_ids[i] != #[trigger] self@.report_ids[j],
    {
    }

    /// The applications with a report id, in the order of their report ids.
    pub fn applications(&self) -> (r: &[ParsedReportApplication])
        ensures
            app_views(r@) == self.spec_applications(),
    {
        self.tagged.as_slice()
    }
}

/// The state of the parser between two items.
#[verifier::ext_equal]
pub struct SpecParser {
    pub report: SpecParsedReport,
    pub app: SpecApplication,
    pub ctx: Seq<HidReportCollectionType>,
    pub stack: Seq<HidReportGlobalState>,
    pub global: HidReportGlobalState,
    pub local: SpecLocalState,
}

/// What one item does to the parser: the next state, a malformed descriptor,
/// or an item that the parser does not handle.
pub enum SpecStep {
    Next(SpecParser),
    Malformed,
    Unsupported,
}

/// Where the parser stands after some items: still going, or stopped at the
/// item with the given index.
pub enum SpecRun {
    Running(SpecParser),
    Malformed(nat),
    Unsupported(nat),
}

/// The report with `app` stored: under its report id, or as the primary one.
pub open spec fn store_app(report: SpecParsedReport, app: SpecApplication) -> SpecParsedReport {
    match app.report_id {
        Some(k) => SpecParsedReport { tagged: report.tagged.insert(k, app), ..report },
        None => SpecParsedReport { primary: Some(app), ..report },
    }
}

/// The usage of an application: its first usage, on the current page when it
/// is below 0x10000.
pub open spec fn app_usage(page: UsagePage, local: SpecLocalState) -> HidUsage {
    let u: u32 = if local.usage.len() > 0 { local.usage[0] } else { 0 };
    if u < 0x1_0000 {
        HidUsage((page.0 * 0x1_0000 + u) as u32)
    } else {
        HidUsage(u)
    }
}

/// The parser's state after `item`.
pub open spec fn spec_step(s: SpecParser, item: HidReportItem) -> SpecStep {
    let v = item.value;
    let fresh = HidReportLocalState::spec_new();
    match item.tag {
        HidReportItemTag::Input | HidReportItemTag::Output | HidReportItemTag::Feature => {
            let entries = s.app.entries + spec_main_entries(item.tag, HidReportMainFlag(v.unsigned), s.global, s.local);
            SpecStep::Next(SpecParser { app: SpecApplication { entries, ..s.app }, local: fresh, ..s })
        },
        HidReportItemTag::Collection => match HidReportCollectionType::spec_from_value(v.unsigned) {
            None => SpecStep::Unsupported,
            Some(ct) => if ct == HidReportCollectionType::Application {
                SpecStep::Next(SpecParser {
                    report: store_app(s.report, s.app),
                    app: SpecApplication {
                        report_id: s.app.report_id,
                        usage: app_usage(s.global.usage_page, s.local),
                        entries: Seq::empty(),
                    },
                    ctx: s.ctx.push(ct),
                    local: fresh,
                    ..s
                })
            } else {
                SpecStep::Next(SpecParser {
                    app: SpecApplication { entries: s.app.entries.push(ParsedReportEntry::Collection(ct)), ..s.app },
                    ctx: s.ctx.push(ct),
                    local: fresh,
                    ..s
                })
            },
        },
        HidReportItemTag::EndCollection => if s.ctx.len() == 0 {
            SpecStep::Malformed
        } else {
            let ct = s.ctx.last();
            if ct == HidReportCollectionType::Application {
                SpecStep::Next(SpecParser {
                    report: store_app(s.report, s.app),
                    app: ParsedReportApplication::spec_empty(),
                    ctx: s.ctx.drop_last(),
                    local: fresh,
                    ..s
                })
            } else {
                SpecStep::Next(SpecParser {
                    app: SpecApplication { entries: s.app.entries.push(ParsedReportEntry::EndCollection(ct)), ..s.app },
                    ctx: s.ctx.drop_last(),
                    local: fresh,
                    ..s
                })
            }
        },
        HidReportItemTag::UsagePage => SpecStep::Next(SpecParser {
            global: HidReportGlobalState { usage_page: UsagePage((v.unsigned % 0x1_0000) as u16), ..s.global },
            ..s
        }),
        HidReportItemTag::LogicalMinimum => SpecStep::Next(SpecParser {
            global: HidReportGlobalState { logical_minimum: v, ..s.global },
            ..s
        }),
        HidReportItemTag::LogicalMaximum => SpecStep::Next(SpecParser {
            global: HidReportGlobalState { logical_maximum: v, ..s.global },
            ..s
        }),
        HidReportItemTag::PhysicalMinimum => SpecStep::Next(SpecParser {
            global: HidReportGlobalState { physical_minimum: v, ..s.global },
            ..s
        }),
        HidReportItemTag::PhysicalMaximum => SpecStep::Next(SpecParser {
            global: HidReportGlobalState { physical_maximum: v, ..s.global },
            ..s
        }),
        HidReportItemTag::UnitExponent => SpecStep::Next(SpecParser {
            global: HidReportGlobalState { unit_exponent: v.unsigned, ..s.global },
            ..s
        }),
        HidReportItemTag::Unit => SpecStep::Next(SpecParser {
            global: HidReportGlobalState { unit: v.unsigned, ..s.global },
            ..s
        }),
        HidReportItemTag::ReportSize => SpecStep::Next(SpecParser {
            global: HidReportGlobalState { report_size: v.unsigned, ..s.global },
            ..s
        }),
        HidReportItemTag::ReportId => {
            let id = (v.unsigned % 0x100) as u8;
            if id == 0 {
                SpecStep::Next(s)
            } else {
                SpecStep::Next(SpecParser {
                    report: SpecParsedReport {
                        report_ids: if s.report.report_ids.contains(id) {
                            s.report.report_ids
                        } else {
                            s.report.report_ids.push(id)
                        },
                        ..s.report
                    },
                    app: SpecApplication { report_id: Some(id), ..s.app },
                    global: HidReportGlobalState { report_id: id, ..s.global },
                    ..s
                })
            }
        },
        HidReportItemTag::ReportCount => SpecStep::Next(SpecParser {
            global: HidReportGlobalState { report_count: v.unsigned, ..s.global },
            ..s
        }),
        HidReportItemTag::Push => SpecStep::Next(SpecParser { stack: s.stack.push(s.global), ..s }),
        HidReportItemTag::Pop => if s.stack.len() == 0 {
            SpecStep::Malformed
        } else {
            SpecStep::Next(SpecParser { global: s.stack.last(), stack: s.stack.drop_last(), ..s })
        },
        HidReportItemTag::Usage => SpecStep::Next(SpecParser {
            local: SpecLocalState { usage: s.local.usage.push(v.unsigned), ..s.local },
            ..s
        }),
        HidReportItemTag::UsageMinimum => SpecStep::Next(SpecParser {
            local: SpecLocalState { usage_minimum: v.unsigned, ..s.local },
            ..s
        }),
        HidReportItemTag::UsageMaximum => SpecStep::Next(SpecParser {
            local: SpecLocalState { usage_maximum: v.unsigned, ..s.local },
            ..s
        }),
        _ => SpecStep::Unsupported,
    }
}

/// The parser before the first item.
pub open spec fn spec_parser_new() -> SpecParser {
    SpecParser {
        report: HidParsedReport::spec_new(),
        app: ParsedReportApplication::spec_empty(),
        ctx: Seq::empty(),
        stack: Seq::empty(),
        global: HidReportGlobalState::spec_new(),
        local: HidReportLocalState::spec_new(),
    }
}

/// The parser after the first `n` items.
pub open spec fn spec_run(items: Seq<HidReportItem>, n: nat) -> SpecRun
    decreases n,
{
    if n == 0 {
        SpecRun::Running(spec_parser_new())
    } else {
        match spec_run(items, (n - 1) as nat) {
            SpecRun::Running(s) => match spec_step(s, items[n - 1]) {
                SpecStep::Next(t) => SpecRun::Running(t),
                SpecStep::Malformed => SpecRun::Malformed((n - 1) as nat),
                SpecStep::Unsupported => SpecRun::Unsupported((n - 1) as nat),
            },
            other => other,
        }
    }
}

/// Why a descriptor was not parsed, and at which item.
#[derive(Debug, Clone, Copy, PartialEq, Eq, Structural)]
pub enum HidParseError {
    /// An end of collection without a collection, or a pop without a push.
    Malformed(usize),
    /// A designator, string or delimiter item, or a collection of an unknown type.
    Unsupported(usize),
}

/// What one step of the parser did.
#[derive(Debug, Clone, Copy, PartialEq, Eq, Structural)]
enum StepResult {
    Next,
    Malformed,
    Unsupported,
}

/// The parser's state between items.
struct HidReportParser {
    report: HidParsedReport,
    app: ParsedReportApplication,
    ctx: Vec<HidReportCollectionType>,
    stack: Vec<HidReportGlobalState>,
    global: HidReportGlobalState,
    local: HidReportLocalState,
}

impl View for HidReportParser {
    type V = SpecParser;

    closed spec fn view(&self) -> SpecParser {
        SpecParser {
            report: self.report@,
            app: self.app@,
            ctx: self.ctx@,
            stack: self.stack@,
            global: self.global,
            local: self.local@,
        }
    }
}

/// Puts `app` into the table under its report id, in order, in place of an
/// application with the same id.
fn insert_tagged(tagged: &mut Vec<ParsedReportApplication>, app: ParsedReportApplication)
    requires
        app.report_id is Some,
        tagged_sorted(app_views(old(tagged)@)),
    ensures
        tagged_sorted(app_views(final(tagged)@)),
        tagged_map(app_views(final(tagged)@)) == tagged_map(app_views(old(tagged)@)).insert(app.report_id->0, app@),
{
    let k = match app.report_id {
        Some(k) => k,
        None => 0,
    };
    let ghost old_v = app_views(tagged@);
    let ghost a = app@;
    let mut i: usize = 0;
    while i < tagged.len()
        invariant
            i <= tagged@.len(),
            old_v == app_views(tagged@),
            tagged_sorted(old_v),
            forall|j: int| 0 <= j < i ==> old_v[j].report_id->0 < k,
        ensures
            i <= tagged@.len(),
            old_v == app_views(tagged@),
            forall|j: int| 0 <= j < i ==> old_v[j].report_id->0 < k,
            i < tagged@.len() ==> old_v[i as int].report_id->0 >= k,
        decreases tagged@.len() - i,
    {
        let key = match tagged[i].report_id {
            Some(x) => x,
            None => 0,
        };
        assert(old_v[i as int] == tagged@[i as int]@);
        if key >= k {
            break;
        }
        i += 1;
    }
    let replace = i < tagged.len() && match tagged[i].report_id {
        Some(x) => x == k,
        None => false,
    };
    if replace {
        tagged.set(i, app);
    } else {
        tagged.insert(i, app);
    }
    proof {
        let new_v = app_views(tagged@);
        if replace {
            assert(new_v == old_v.update(i as int, a));
        } else {
            assert(new_v == old_v.insert(i as int, a));
        }
        assert(tagged_sorted(new_v)) by {
            assert forall|x: int, y: int| 0 <= x < y < new_v.len() implies (#[trigger] new_v[x]).report_id->0
                < (#[trigger] new_v[y]).report_id->0 by {
                if !replace && i < old_v.len() {
                    assert(old_v[i as int].report_id->0 >= k);
                }
                if replace {
                    assert(old_v[i as int].report_id->0 == k);
                }
            }
        }
        let m_old = tagged_map(old_v);
        let m_new = tagged_map(new_v);
        assert forall|key: u8| m_new.dom().contains(key) <==> m_old.insert(k, a).dom().contains(key) by {
            if m_new.dom().contains(key) {
                let j = choose|j: int| 0 <= j < new_v.len() && new_v[j].report_id == Some(key);
                if key != k {
                    if replace {
                        assert(old_v[j].report_id == Some(key));
                    } else if j < i {
                        assert(old_v[j].report_id == Some(key));
                    } else {
                        assert(old_v[j - 1].report_id == Some(key));
                    }
                }
            }
            if m_old.dom().contains(key) && key != k {
                let j = choose|j: int| 0 <= j < old_v.len() && old_v[j].report_id == Some(key);
                if replace {
                    assert(new_v[j].report_id == Some(key));
                } else if j < i {
                    assert(new_v[j].report_id == Some(key));
                } else {
                    assert(new_v[j + 1].report_id == Some(key));
                }
            }
            if key == k {
                assert(new_v[i as int].report_id == Some(k));
            }
        }
        assert forall|key: u8| #[trigger] m_new.dom().contains(key) implies m_new[key] == m_old.insert(k, a)[key] by {
            let j = choose|j: int| 0 <= j < new_v.len() && new_v[j].report_id == Some(key);
            lemma_tagged_map_at(new_v, j);
            if key != k {
                let oj = if replace || j < i { j } else { j - 1 };
                assert(old_v[oj] == new_v[j]);
                lemma_tagged_map_at(old_v, oj);
            } else {
                assert(new_v[i as int].report_id == Some(k));
                lemma_tagged_map_at(new_v, i as int);
            }
        }
        assert(m_new =~= m_old.insert(k, a));
    }
}

impl HidParsedReport {
    /// Stores `app`: under its report id, or as the primary application.
    fn store(&mut self, app: &ParsedReportApplication)
        requires
            old(self).wf(),
        ensures
            final(self).wf(),
            final(self)@ == store_app(old(self)@, app@),
    {
        let copy = app.duplicate();
        match app.report_id {
            Some(_) => insert_tagged(&mut self.tagged, copy),
            None => self.primary = Some(copy),
        }
    }

    /// Records a report id, once.
    fn add_report_id(&mut self, id: u8)
        requires
            old(self).wf(),
        ensures
            final(self).wf(),
            final(self)@ == (SpecParsedReport {
                report_ids: if old(self)@.report_ids.contains(id) {
                    old(self)@.report_ids
                } else {
                    old(self)@.report_ids.push(id)
                },
                ..old(self)@
            }),
    {
        let mut i: usize = 0;
        while i < self.report_ids.len()
            invariant
                i <= self.report_ids@.len(),
                self.wf(),
                self@ == old(self)@,
                forall|j: int| 0 <= j < i ==> self.report_ids@[j] != id,
            decreases self.report_ids@.len() - i,
        {
            if self.report_ids[i] == id {
                return;
            }
            i += 1;
        }
        let ghost before = self.report_ids@;
        self.report_ids.push(id);
        assert(!before.contains(id));
        assert(self.report_ids@ == before.push(id));
    }
}

impl HidReportParser {
    closed spec fn wf(&self) -> bool {
        self.report.wf()
    }

    fn new() -> (r: Self)
        ensures
            r.wf(),
            r@ == spec_parser_new(),
    {
        HidReportParser {
            report: HidParsedReport::new(),
            app: ParsedReportApplication::empty(),
            ctx: Vec::new(),
            stack: Vec::new(),
            global: HidReportGlobalState::new(),
            local: HidReportLocalState::new(),
        }
    }

    fn step(&mut self, item: HidReportItem) -> (r: StepResult)
        requires
            old(self).wf(),
        ensures
            final(self).wf(),
            match spec_step(old(self)@, item) {
                SpecStep::Next(t) => r == StepResult::Next && final(self)@ == t,
                SpecStep::Malformed => r == StepResult::Malformed,
                SpecStep::Unsupported => r == StepResult::Unsupported,
            },
    {
        let v = item.value;
        match item.tag {
            HidReportItemTag::Input | HidReportItemTag::Output | HidReportItemTag::Feature => {
                let flag = HidReportMainFlag::from_bits_retain(v.as_u32());
                ParsedReportMainItem::parse(&mut self.app.entries, item.tag, flag, &self.global, &self.local);
                self.local.reset();
                StepResult::Next
            },
            HidReportItemTag::Collection => match HidReportCollectionType::from_value(v.as_u32()) {
                None => StepResult::Unsupported,
                Some(ct) => {
                    self.ctx.push(ct);
                    if ct == HidReportCollectionType::Application {
                        self.report.store(&self.app);
                        self.app.clear_stream();
                        let u: u32 = if self.local.usage.len() > 0 {
                            self.local.usage[0]
                        } else {
                            0
                        };
                        self.app.usage = if u < 0x1_0000 {
                            HidUsage::new(self.global.usage_page, u as u16)
                        } else {
                            HidUsage(u)
                        };
                    } else {
                        self.app.entries.push(ParsedReportEntry::Collection(ct));
                    }
                    self.local.reset();
                    StepResult::Next
                },
            },
            HidReportItemTag::EndCollection => match self.ctx.pop() {
                None => StepResult::Malformed,
                Some(ct) => {
                    if ct == HidReportCollectionType::Application {
                        self.report.store(&self.app);
                        self.app.clear();
                    } else {
                        self.app.entries.push(ParsedReportEntry::EndCollection(ct));
                    }
                    self.local.reset();
                    StepResult::Next
                },
            },
            HidReportItemTag::UsagePage => {
                self.global.usage_page = UsagePage((v.as_u32() % 0x1_0000) as u16);
                StepResult::Next
            },
            HidReportItemTag::LogicalMinimum => {
                self.global.logical_minimum = v;
                StepResult::Next
            },
            HidReportItemTag::LogicalMaximum => {
                self.global.logical_maximum = v;
                StepResult::Next
            },
            HidReportItemTag::PhysicalMinimum => {
                self.global.physical_minimum = v;
                StepResult::Next
            },
            HidReportItemTag::PhysicalMaximum => {
                self.global.physical_maximum = v;
                StepResult::Next
            },
            HidReportItemTag::UnitExponent => {
                self.global.unit_exponent = v.as_u32();
                StepResult::Next
            },
            HidReportItemTag::Unit => {
                self.global.unit = v.as_u32();
                StepResult::Next
            },
            HidReportItemTag::ReportSize => {
                self.global.report_size = v.as_u32();
                StepResult::Next
            },
            HidReportItemTag::ReportId => {
                let id = (v.as_u32() % 0x100) as u8;
                if id != 0 {
                    self.report.add_report_id(id);
                    self.app.report_id = Some(id);
                    self.global.report_id = id;
                }
                StepResult::Next
            },
            HidReportItemTag::ReportCount => {
                self.global.report_count = v.as_u32();
                StepResult::Next
            },
            HidReportItemTag::Push => {
                self.stack.push(self.global);
                StepResult::Next
            },
            HidReportItemTag::Pop => match self.stack.pop() {
                None => StepResult::Malformed,
                Some(g) => {
                    self.global = g;
                    StepResult::Next
                },
            },
            HidReportItemTag::Usage => {
                self.local.usage.push(v.as_u32());
                StepResult::Next
            },
            HidReportItemTag::UsageMinimum => {
                self.local.usage_minimum = v.as_u32();
                StepResult::Next
            },
            HidReportItemTag::UsageMaximum => {
                self.local.usage_maximum = v.as_u32();
                StepResult::Next
            },
            _ => StepResult::Unsupported,
        }
    }
}

impl HidParsedReport {
    /// Parses the items of a report descriptor: the applications with their
    /// fields, or the index of the item that stopped the parser.
    pub fn parse_items(items: &[HidReportItem]) -> (r: Result<HidParsedReport, HidParseError>)
        ensures
            match spec_run(items@, items@.len()) {
                SpecRun::Running(s) => r matches Ok(p) && p.wf() && p@ == s.report,
                SpecRun::Malformed(i) => r == Err::<HidParsedReport, HidParseError>(HidParseError::Malformed(i as usize)),
                SpecRun::Unsupported(i) => r == Err::<HidParsedReport, HidParseError>(HidParseError::Unsupported(i as usize)),
            },
    {
        let mut parser = HidReportParser::new();
        let mut i: usize = 0;
        while i < items.len()
            invariant
                i <= items@.len(),
                parser.wf(),
                spec_run(items@, i as nat) == SpecRun::Running(parser@),
            decreases items@.len() - i,
        {
            let ghost before = parser@;
            let r = parser.step(items[i]);
            match r {
                StepResult::Next => {},
                StepResult::Malformed => {
                    proof {
                        lemma_run_stops(items@, (i + 1) as nat, items@.len());
                    }
                    return Err(HidParseError::Malformed(i));
                },
                StepResult::Unsupported => {
                    proof {
                        lemma_run_stops(items@, (i + 1) as nat, items@.len());
                    }
                    return Err(HidParseError::Unsupported(i));
                },
            }
            i += 1;
        }
        Ok(parser.report)
    }

    /// Parses the items of a report descriptor that holds only items the
    /// parser handles: the applications with their fields, or the index of the
    /// item at which the descriptor is malformed.
    pub fn parse(items: &[HidReportItem]) -> (r: Result<HidParsedReport, usize>)
        requires
            !(spec_run(items@, items@.len()) is Unsupported),
        ensures
            match spec_run(items@, items@.len()) {
                SpecRun::Running(s) => r matches Ok(p) && p.wf() && p@ == s.report,
                SpecRun::Malformed(i) => r == Err::<HidParsedReport, usize>(i as usize),
                SpecRun::Unsupported(_) => false,
            },
    {
        match Self::parse_items(items) {
            Ok(p) => Ok(p),
            Err(HidParseError::Malformed(i)) => Err(i),
            Err(HidParseError::Unsupported(i)) => Err(i),
        }
    }
}

/// Once the parser stopped, later items change nothing.
pub proof fn lemma_run_stops(items: Seq<HidReportItem>, n: nat, m: nat)
    requires
        n <= m,
        !(spec_run(items, n) is Running),
    ensures
        spec_run(items, m) == spec_run(items, n),
    decreases m - n,
{
    if n < m {
        lemma_run_stops(items, n, (m - 1) as nat);
    }
}

/// Each application stands where its report id says: the primary one has
/// none, and the others are found under their own.
pub open spec fn report_keys_ok(r: SpecParsedReport) -> bool {
    &&& (r.primary matches Some(a) ==> a.report_id is None)
    &&& forall|k: u8| #[trigger] r.tagged.dom().contains(k) ==> r.tagged[k].report_id == Some(k)
}

/// Whatever the items, the report that the parser builds keeps every
/// application where its report id says.
pub proof fn lemma_parse_keys(items: Seq<HidReportItem>, n: nat)
    ensures
        spec_run(items, n) matches SpecRun::Running(s) ==> report_keys_ok(s.report),
    decreases n,
{
    if n > 0 {
        lemma_parse_keys(items, (n - 1) as nat);
        match spec_run(items, (n - 1) as nat) {
            SpecRun::Running(s) => {
                let item = items[n - 1];
                match spec_step(s, item) {
                    SpecStep::Next(t) => {
                        assert forall|k: u8| #[trigger] t.report.tagged.dom().contains(k) implies t.report.tagged[k].report_id
                            == Some(k) by {
                            if s.report.tagged.dom().contains(k) {
                            }
                        }
                    },
                    _ => {},
                }
            },
            _ => {},
        }
    }
}

/// The tag of a short item by its lead byte (the low two bits, its size,
/// aside), as the HID specification numbers them.
pub open spec fn spec_item_tag(lead: u8) -> Option<HidReportItemTag> {
    let t = lead & 0xFC;
    if t == 0x80 { Some(HidReportItemTag::Input) }
    else if t == 0x90 { Some(HidReportItemTag::Output) }
    else if t == 0xB0 { Some(HidReportItemTag::Feature) }
    else if t == 0xA0 { Some(HidReportItemTag::Collection) }
    else if t == 0xC0 { Some(HidReportItemTag::EndCollection) }
    else if t == 0x04 { Some(HidReportItemTag::UsagePage) }
    else if t == 0x14 { Some(HidReportItemTag::LogicalMinimum) }
    else if t == 0x24 { Some(HidReportItemTag::LogicalMaximum) }
    else if t == 0x34 { Some(HidReportItemTag::PhysicalMinimum) }
    else if t == 0x44 { Some(HidReportItemTag::PhysicalMaximum) }
    else if t == 0x54 { Some(HidReportItemTag::UnitExponent) }
    else if t == 0x64 { Some(HidReportItemTag::Unit) }
    else if t == 0x74 { Some(HidReportItemTag::ReportSize) }
    else if t == 0x84 { Some(HidReportItemTag::ReportId) }
    else if t == 0x94 { Some(HidReportItemTag::ReportCount) }
    else if t == 0xA4 { Some(HidReportItemTag::Push) }
    else if t == 0xB4 { Some(HidReportItemTag::Pop) }
    else if t == 0x08 { Some(HidReportItemTag::Usage) }
    else if t == 0x18 { Some(HidReportItemTag::UsageMinimum) }
    else if t == 0x28 { Some(HidReportItemTag::UsageMaximum) }
    else if t == 0x38 { Some(HidReportItemTag::DesignatorIndex) }
    else if t == 0x48 { Some(HidReportItemTag::DesignatorMinimum) }
    else if t == 0x58 { Some(HidReportItemTag::DesignatorMaximum) }
    else if t == 0x78 { Some(HidReportItemTag::StringIndex) }
    else if t == 0x88 { Some(HidReportItemTag::StringMinimum) }
    else if t == 0x98 { Some(HidReportItemTag::StringMaximum) }
    else if t == 0xA8 { Some(HidReportItemTag::Delimiter) }
    else { None }
}

/// The tag of a short item by its lead byte.
pub fn item_tag(lead: u8) -> (r: Option<HidReportItemTag>)
    ensures
        r == spec_item_tag(lead),
{
    let t = lead & 0xFC;
    match t {
        0x80 => Some(HidReportItemTag::Input),
        0x90 => Some(HidReportItemTag::Output),
        0xB0 => Some(HidReportItemTag::Feature),
        0xA0 => Some(HidReportItemTag::Collection),
        0xC0 => Some(HidReportItemTag::EndCollection),
        0x04 => Some(HidReportItemTag::UsagePage),
        0x14 => Some(HidReportItemTag::LogicalMinimum),
        0x24 => Some(HidReportItemTag::LogicalMaximum),
        0x34 => Some(HidReportItemTag::PhysicalMinimum),
        0x44 => Some(HidReportItemTag::PhysicalMaximum),
        0x54 => Some(HidReportItemTag::UnitExponent),
        0x64 => Some(HidReportItemTag::Unit),
        0x74 => Some(HidReportItemTag::ReportSize),
        0x84 => Some(HidReportItemTag::ReportId),
        0x94 => Some(HidReportItemTag::ReportCount),
        0xA4 => Some(HidReportItemTag::Push),
        0xB4 => Some(HidReportItemTag::Pop),
        0x08 => Some(HidReportItemTag::Usage),
        0x18 => Some(HidReportItemTag::UsageMinimum),
        0x28 => Some(HidReportItemTag::UsageMaximum),
        0x38 => Some(HidReportItemTag::DesignatorIndex),
        0x48 => Some(HidReportItemTag::DesignatorMinimum),
        0x58 => Some(HidReportItemTag::DesignatorMaximum),
        0x78 => Some(HidReportItemTag::StringIndex),
        0x88 => Some(HidReportItemTag::StringMinimum),
        0x98 => Some(HidReportItemTag::StringMaximum),
        0xA8 => Some(HidReportItemTag::Delimiter),
        _ => None,
    }
}

/// How many data bytes a short item with `lead` carries: 0, 1, 2 or 4.
pub open spec fn data_size(lead: u8) -> nat {
    let s = lead & 3;
    if s == 3 { 4 } else { s as nat }
}

/// The data of a short item: its bytes as a little-endian number, and that
/// number sign-extended from its size.
pub open spec fn spec_item_value(desc: Seq<u8>, at: int, size: nat) -> HidReportValue {
    if size == 0 {
        HidReportValue { unsigned: 0, signed: 0 }
    } else if size == 1 {
        let v = desc[at];
        HidReportValue { unsigned: v as u32, signed: if v >= 0x80 { (v - 0x100) as i32 } else { v as i32 } }
    } else if size == 2 {
        let v = desc[at] + desc[at + 1] * 0x100;
        HidReportValue { unsigned: v as u32, signed: if v >= 0x8000 { (v - 0x1_0000) as i32 } else { v as i32 } }
    } else {
        let v = desc[at] + desc[at + 1] * 0x100 + desc[at + 2] * 0x1_0000 + desc[at + 3] * 0x100_0000;
        HidReportValue { unsigned: v as u32, signed: if v >= 0x8000_0000 { (v - 0x1_0000_0000) as i32 } else { v as i32 } }
    }
}

/// The item at `at`, and where the next one starts; none when the bytes end
/// inside it or its tag is unknown. A long item (lead byte 0xFE: size, tag,
/// data) stands for the item of its tag byte, without data.
pub open spec fn spec_item_at(desc: Seq<u8>, at: int) -> Option<(HidReportItem, int)> {
    if at < 0 || at >= desc.len() {
        None
    } else {
        let lead = desc[at];
        if lead == 0xFE {
            if at + 2 >= desc.len() {
                None
            } else {
                let len = desc[at + 1] as int;
                let next = at + 3 + len;
                if next > desc.len() {
                    None
                } else {
                    match spec_item_tag(desc[at + 2]) {
                        None => None,
                        Some(tag) => Some((HidReportItem { tag, value: HidReportValue { unsigned: 0, signed: 0 } }, next)),
                    }
                }
            }
        } else {
            match spec_item_tag(lead) {
                None => None,
                Some(tag) => {
                    let size = data_size(lead);
                    if at + 1 + size > desc.len() {
                        None
                    } else {
                        Some((HidReportItem { tag, value: spec_item_value(desc, at + 1, size) }, at + 1 + size))
                    }
                },
            }
        }
    }
}

/// The items of a descriptor from `at` on, with the offset of each, and the
/// offset of an item that could not be read, if any.
pub open spec fn spec_items_from(desc: Seq<u8>, at: int) -> (Seq<HidReportItem>, Seq<int>, Option<int>)
    decreases desc.len() - at,
{
    if at < 0 || at >= desc.len() {
        (Seq::empty(), Seq::empty(), None)
    } else {
        match spec_item_at(desc, at) {
            None => (Seq::empty(), Seq::empty(), Some(at)),
            Some((item, next)) => if next > at {
                let (items, offsets, err) = spec_items_from(desc, next);
                (seq![item] + items, seq![at] + offsets, err)
            } else {
                (Seq::empty(), Seq::empty(), Some(at))
            },
        }
    }
}

/// Reads the item at `at`.
fn read_item(desc: &[u8], at: usize) -> (r: Option<(HidReportItem, usize)>)
    requires
        at < desc@.len(),
    ensures
        match spec_item_at(desc@, at as int) {
            None => r is None,
            Some((item, next)) => r == Some((item, next as usize)),
        },
{
    let lead = desc[at];
    let len = desc.len();
    if lead == 0xFE {
        if len - at <= 2 {
            return None;
        }
        let data_len = desc[at + 1] as usize;
        if data_len > len - at - 3 {
            return None;
        }
        match item_tag(desc[at + 2]) {
            None => None,
            Some(tag) => Some((HidReportItem { tag, value: HidReportValue { unsigned: 0, signed: 0 } }, at + 3 + data_len)),
        }
    } else {
        match item_tag(lead) {
            None => None,
            Some(tag) => {
                let s = lead & 3;
                let size: usize = if s == 3 { 4 } else { s as usize };
                if size > len - at - 1 {
                    return None;
                }
                let p = at + 1;
                let value = if size == 0 {
                    HidReportValue { unsigned: 0, signed: 0 }
                } else if size == 1 {
                    let v = desc[p];
                    HidReportValue { unsigned: v as u32, signed: if v >= 0x80 { v as i32 - 0x100 } else { v as i32 } }
                } else if size == 2 {
                    let v = desc[p] as u32 + desc[p + 1] as u32 * 0x100;
                    HidReportValue { unsigned: v, signed: if v >= 0x8000 { v as i32 - 0x1_0000 } else { v as i32 } }
                } else {
                    let v = desc[p] as u64 + desc[p + 1] as u64 * 0x100 + desc[p + 2] as u64 * 0x1_0000 + desc[p + 3] as u64
                        * 0x100_0000;
                    HidReportValue {
                        unsigned: v as u32,
                        signed: if v >= 0x8000_0000 { (v as i64 - 0x1_0000_0000) as i32 } else { v as i32 },
                    }
                };
                Some((HidReportItem { tag, value }, p + size))
            },
        }
    }
}

/// Reads the items of a descriptor, with the offset of each, up to the end or
/// to an item that cannot be read (whose offset comes last).
pub fn read_items(desc: &[u8]) -> (r: (Vec<HidReportItem>, Vec<usize>, Option<usize>))
    ensures
        ({
            let (items, offsets, err) = spec_items_from(desc@, 0);
            &&& r.0@ == items
            &&& r.1@.map_values(|o: usize| o as int) == offsets
            &&& match err {
                Some(e) => r.2 == Some(e as usize),
                None => r.2 is None,
            }
        }),
{
    let mut items: Vec<HidReportItem> = Vec::new();
    let mut offsets: Vec<usize> = Vec::new();
    let mut at: usize = 0;
    let ghost whole = spec_items_from(desc@, 0);
    while at < desc.len()
        invariant
            at <= desc@.len(),
            whole == spec_items_from(desc@, 0),
            ({
                let (rest_items, rest_offsets, err) = spec_items_from(desc@, at as int);
                &&& items@ + rest_items == whole.0
                &&& offsets@.map_values(|o: usize| o as int) + rest_offsets == whole.1
                &&& err == whole.2
            }),
        decreases desc@.len() - at,
    {
        match read_item(desc, at) {
            None => {
                proof {
                    assert(items@ + Seq::<HidReportItem>::empty() == items@);
                    assert(offsets@.map_values(|o: usize| o as int) + Seq::<int>::empty() == offsets@.map_values(|o: usize| o as int));
                }
                return (items, offsets, Some(at));
            },
            Some((item, next)) => {
                let ghost rest = spec_items_from(desc@, next as int);
                let ghost before = offsets@.map_values(|o: usize| o as int);
                items.push(item);
                offsets.push(at);
                proof {
                    assert(items@ + rest.0 == items@.drop_last() + (seq![item] + rest.0));
                    assert(offsets@.map_values(|o: usize| o as int) == before.push(at as int));
                    assert(before.push(at as int) + rest.1 == before + (seq![at as int] + rest.1));
                }
                at = next;
            },
        }
    }
    proof {
        assert(items@ + Seq::<HidReportItem>::empty() == items@);
        assert(offsets@.map_values(|o: usize| o as int) + Seq::<int>::empty() == offsets@.map_values(|o: usize| o as int));
    }
    (items, offsets, None)
}

impl HidParsedReport {
    /// Parses a report descriptor from its bytes: the applications with their
    /// fields, or the offset of the item that stopped the parser (an item
    /// that cannot be read counts as malformed).
    pub fn parse_descriptor(desc: &[u8]) -> (r: Result<HidParsedReport, HidParseError>)
        ensures
            ({
                let (items, offsets, err) = spec_items_from(desc@, 0);
                match spec_run(items, items.len()) {
                    SpecRun::Running(s) => match err {
                        None => r matches Ok(p) && p.wf() && p@ == s.report,
                        Some(e) => r == Err::<HidParsedReport, HidParseError>(HidParseError::Malformed(e as usize)),
                    },
                    SpecRun::Malformed(i) => r == Err::<HidParsedReport, HidParseError>(HidParseError::Malformed(offsets[i as int] as usize)),
                    SpecRun::Unsupported(i) => r == Err::<HidParsedReport, HidParseError>(HidParseError::Unsupported(offsets[i as int] as usize)),
                }
            }),
    {
        let (items, offsets, err) = read_items(desc);
        proof {
            assert(items@.len() == offsets@.len()) by {
                lemma_items_offsets_len(desc@, 0);
            }
        }
        match Self::parse_items(items.as_slice()) {
            Ok(p) => match err {
                None => Ok(p),
                Some(e) => Err(HidParseError::Malformed(e)),
            },
            Err(HidParseError::Malformed(i)) => {
                proof {
                    lemma_run_index(items@, items@.len());
                }
                Err(HidParseError::Malformed(offsets[i]))
            },
            Err(HidParseError::Unsupported(i)) => {
                proof {
                    lemma_run_index(items@, items@.len());
                }
                Err(HidParseError::Unsupported(offsets[i]))
            },
        }
    }
}

/// As many offsets as items.
proof fn lemma_items_offsets_len(desc: Seq<u8>, at: int)
    ensures
        spec_items_from(desc, at).0.len() == spec_items_from(desc, at).1.len(),
    decreases desc.len() - at,
{
    if 0 <= at < desc.len() {
        match spec_item_at(desc, at) {
            Some((_, next)) => if next > at {
                lemma_items_offsets_len(desc, next);
            },
            None => {},
        }
    }
}

/// The parser stops at an item it has seen.
proof fn lemma_run_index(items: Seq<HidReportItem>, n: nat)
    requires
        n <= items.len(),
    ensures
        spec_run(items, n) matches SpecRun::Malformed(i) ==> i < n,
        spec_run(items, n) matches SpecRun::Unsupported(i) ==> i < n,
    decreases n,
{
    if n > 0 {
        lemma_run_index(items, (n - 1) as nat);
    }
}

} // verus!
