//! USB HID Class Driver (03_xx_xx): which interfaces it takes, the checks on their
//! endpoint, and the class requests it sends.

use vstd::prelude::*;
use crate::drivers::usb::UsbError;
use crate::drivers::usb::usb::{
    UsbClass, UsbControlRequest, UsbControlRequestBitmap, UsbControlSetupData, UsbInterfaceNumber,
    UsbLength,
};
use crate::io::hid::KeyReportRaw;
use crate::io::hid_parse::{spec_items_of, HidParsedReport, HidUsage, ParsedReportApplication, ParsedReportMainItem, ReportKind};
use crate::io::hid_stream::{sign_extend, spec_read_bits, spec_write_bits, HidBitStreamReader, HidBitStreamWriter};
use crate::io::hid_parse::spec_bits_of;

verus! {

/// The kind of a HID report.
#[derive(Debug, Clone, Copy, PartialEq, Eq, Structural)]
pub enum HidReportType {
    Input,
    Output,
    Feature,
}

impl HidReportType {
    pub open spec fn spec_code(&self) -> u16 {
        match *self {
            HidReportType::Input => 1,
            HidReportType::Output => 2,
            HidReportType::Feature => 3,
        }
    }

    pub fn code(&self) -> (r: u16)
        ensures
            r == self.spec_code(),
    {
        match *self {
            HidReportType::Input => 1,
            HidReportType::Output => 2,
            HidReportType::Feature => 3,
        }
    }
}

/// Starts the HID driver on the interfaces of the HID base class.
pub struct UsbHidStarter;

impl UsbHidStarter {
    /// Whether an interface of class `class` gets the HID driver.
    pub fn accepts(class: UsbClass) -> (r: bool)
        ensures
            r == ((class.0 / 0x10000) % 0x100 == 0x03),
    {
        class.base_class().0 == 0x03
    }
}

/// The decisions of the HID driver.
pub struct UsbHidDriver;

impl UsbHidDriver {
    /// The largest packet that the driver reads.
    pub const BUFFER_LEN: u16 = 64;

    /// The interrupt endpoint must send to the host and use packets that fit the buffer.
    pub fn check_endpoint(is_dir_in: bool, ps: UsbLength) -> (r: Result<(), UsbError>)
        ensures
            (!is_dir_in || ps.0 > 64) ==> r == Err::<(), UsbError>(UsbError::InvalidDescriptor),
            (is_dir_in && ps.0 <= 64) ==> r is Ok,
    {
        if !is_dir_in {
            return Err(UsbError::InvalidDescriptor);
        }
        if ps.0 > Self::BUFFER_LEN {
            return Err(UsbError::InvalidDescriptor);
        }
        Ok(())
    }

    /// Whether the boot protocol is switched off: for interfaces of the boot subclass.
    pub fn disables_boot_protocol(class: UsbClass) -> (r: bool)
        ensures
            r == ((class.0 / 0x100) % 0x100 == 1),
    {
        class.sub_class().0 == 1
    }

    /// The request that selects the boot protocol (or the report protocol).
    pub fn set_boot_protocol_request(if_no: UsbInterfaceNumber, is_boot: bool) -> (r: UsbControlSetupData)
        ensures
            r.bmRequestType.0 == 0x21,
            r.bRequest.0 == 11,
            r.wValue == if is_boot { 0u16 } else { 1u16 },
            r.wIndex == if_no.0 as u16,
            r.wLength.0 == 0,
    {
        UsbControlSetupData::request(UsbControlRequestBitmap(0x21), UsbControlRequest(UsbControlRequest::HID_SET_PROTOCOL))
            .value(if is_boot { 0 } else { 1 })
            .index_if(if_no)
    }

    /// The value of a report request: the report type in the high byte, the report id
    /// (0 for none) in the low byte.
    pub fn report_value(report_type: HidReportType, report_id: Option<u8>) -> (r: u16)
        ensures
            r == (match report_id { Some(id) => id as int, None => 0 }) + report_type.spec_code() * 256,
    {
        let id: u16 = match report_id {
            Some(id) => id as u16,
            None => 0,
        };
        id + report_type.code() * 256
    }

    /// The request that reads a report.
    pub fn get_report_request(if_no: UsbInterfaceNumber, report_type: HidReportType, report_id: Option<u8>) -> (r: UsbControlSetupData)
        ensures
            r.bmRequestType.0 == 0xA1,
            r.bRequest.0 == 1,
            r.wValue == (match report_id { Some(id) => id as int, None => 0 }) + report_type.spec_code() * 256,
            r.wIndex == if_no.0 as u16,
    {
        UsbControlSetupData::request(UsbControlRequestBitmap(0xA1), UsbControlRequest(UsbControlRequest::HID_GET_REPORT))
            .value(Self::report_value(report_type, report_id))
            .index_if(if_no)
    }

    /// The request that sends a report.
    pub fn set_report_request(if_no: UsbInterfaceNumber, report_type: HidReportType, report_id: Option<u8>) -> (r: UsbControlSetupData)
        ensures
            r.bmRequestType.0 == 0x21,
            r.bRequest.0 == 9,
            r.wValue == (match report_id { Some(id) => id as int, None => 0 }) + report_type.spec_code() * 256,
            r.wIndex == if_no.0 as u16,
    {
        UsbControlSetupData::request(UsbControlRequestBitmap(0x21), UsbControlRequest(UsbControlRequest::HID_SET_REPORT))
            .value(Self::report_value(report_type, report_id))
            .index_if(if_no)
    }
}

/// The bits that the fields of the items take together.
pub open spec fn items_bits(items: Seq<ParsedReportMainItem>) -> nat
    decreases items.len(),
{
    if items.len() == 0 {
        0
    } else {
        items_bits(items.drop_last()) + (items.last().report_size * items.last().report_count) as nat
    }
}

/// Whether an item reads absolute values (`read_value` accepts it).
pub open spec fn reads_absolute(item: ParsedReportMainItem) -> bool {
    !(item.flags.0 & 1 == 1 || item.flags.0 & 4 == 4)
}

/// `count` fields of `item` read one after the other from `pos`, as bytes;
/// a field that cannot be read is left out, and the position stays.
pub open spec fn read_key_values(data: Seq<u8>, pos: nat, item: ParsedReportMainItem, count: nat) -> (Seq<u8>, nat)
    decreases count,
{
    if count == 0 {
        (Seq::empty(), pos)
    } else {
        let (vals, p) = read_key_values(data, pos, item, (count - 1) as nat);
        if !reads_absolute(item) {
            (vals, p)
        } else {
            match spec_read_bits(data, p, item.report_size as nat) {
                Ok(v) => (vals.push(v as u8), (p + item.report_size) as nat),
                Err(_) => (vals, p),
            }
        }
    }
}

/// A keyboard report being decoded: the position, the modifier bits and the keys.
pub struct KeyDecode {
    pub pos: nat,
    pub modifier: u8,
    pub keys: Seq<u8>,
}

/// One input item of a keyboard applied: the modifier bit array, the array of
/// key usages (the first six of them), or a field that is skipped.
pub open spec fn key_item(data: Seq<u8>, d: KeyDecode, item: ParsedReportMainItem) -> KeyDecode {
    if item.usage_min.0 == HidUsage::MOD_MIN && item.usage_max.0 == HidUsage::MOD_MAX {
        if item.flags.0 & 1 == 1 || item.report_size != 1 {
            KeyDecode { modifier: 0, ..d }
        } else {
            match spec_read_bits(data, d.pos, item.report_count as nat) {
                Ok(v) => KeyDecode { pos: (d.pos + item.report_count) as nat, modifier: v as u8, ..d },
                Err(_) => KeyDecode { modifier: 0, ..d },
            }
        }
    } else if item.report_size == 8 && item.flags.0 & 2 != 2 && item.usage_min.0 / 0x1_0000 == 7 {
        let (vals, p) = read_key_values(data, d.pos, item, item.report_count as nat);
        KeyDecode {
            pos: p,
            keys: Seq::new(6, |i: int| if i < vals.len() { vals[i] } else { d.keys[i] }),
            ..d
        }
    } else {
        KeyDecode { pos: (d.pos + item.report_size * item.report_count) as nat, ..d }
    }
}

/// The input items of a keyboard applied in order.
pub open spec fn key_items(data: Seq<u8>, d: KeyDecode, items: Seq<ParsedReportMainItem>) -> KeyDecode
    decreases items.len(),
{
    if items.len() == 0 {
        d
    } else {
        key_item(data, key_items(data, d, items.drop_last()), items.last())
    }
}

/// Reading can only move forward, by at most the bits of the item.
proof fn lemma_key_values_pos(data: Seq<u8>, pos: nat, item: ParsedReportMainItem, count: nat)
    ensures
        pos <= read_key_values(data, pos, item, count).1 <= pos + count * item.report_size,
        read_key_values(data, pos, item, count).0.len() <= count,
    decreases count,
{
    if count > 0 {
        lemma_key_values_pos(data, pos, item, (count - 1) as nat);
        assert((count - 1) * item.report_size + item.report_size == count * item.report_size) by (nonlinear_arith);
    }
}

proof fn lemma_key_item_pos(data: Seq<u8>, d: KeyDecode, item: ParsedReportMainItem)
    ensures
        d.pos <= key_item(data, d, item).pos <= d.pos + item.report_size * item.report_count,
        key_item(data, d, item).keys.len() == if item.report_size == 8 && item.flags.0 & 2 != 2
            && item.usage_min.0 / 0x1_0000 == 7 && !(item.usage_min.0 == HidUsage::MOD_MIN && item.usage_max.0 == HidUsage::MOD_MAX) {
            6
        } else {
            d.keys.len()
        },
{
    lemma_key_values_pos(data, d.pos, item, item.report_count as nat);
    if item.usage_min.0 == HidUsage::MOD_MIN && item.usage_max.0 == HidUsage::MOD_MAX && item.report_size == 1 {
        assert(item.report_size * item.report_count == item.report_count);
    }
    assert(item.report_count * item.report_size == item.report_size * item.report_count) by (nonlinear_arith);
}

impl UsbHidDriver {
    /// The application that a report belongs to: the one of the report id in
    /// its first byte, when the device sends report ids, else the primary one.
    pub fn report_app<'a>(report: &'a HidParsedReport, buffer: &[u8]) -> (r: Option<&'a ParsedReportApplication>)
        requires
            report.wf(),
            buffer@.len() > 0,
        ensures
            report@.report_ids.len() > 0 ==> match r {
                Some(a) => buffer@[0] != 0 && report@.tagged.dom().contains(buffer@[0]) && report@.tagged[buffer@[0]] == a@,
                None => buffer@[0] == 0 || !report@.tagged.dom().contains(buffer@[0]),
            },
            report@.report_ids.len() == 0 ==> match r {
                Some(a) => report@.primary == Some(a@),
                None => report@.primary is None,
            },
    {
        if report.has_report_id() {
            if buffer[0] == 0 {
                None
            } else {
                report.app_by_report_id(buffer[0])
            }
        } else {
            report.primary_app()
        }
    }

    /// Decodes an input report of a keyboard application into a boot keyboard
    /// report, reading from bit `initial` on.
    pub fn keyboard_report(app: &ParsedReportApplication, buffer: &[u8], initial: usize) -> (r: KeyReportRaw)
        requires
            initial + items_bits(spec_items_of(app.entries@, ReportKind::Input)) + 0x1_0000 <= usize::MAX,
        ensures
            ({
                let d = key_items(buffer@, KeyDecode { pos: initial as nat, modifier: 0, keys: seq![0u8, 0, 0, 0, 0, 0] },
                    spec_items_of(app.entries@, ReportKind::Input));
                &&& r.modifier == d.modifier
                &&& r.keydata@ == d.keys
                &&& r.reserved == 0
            }),
    {
        let items = app.input_items();
        let mut reader = HidBitStreamReader::new(buffer, initial);
        let mut report = KeyReportRaw::empty();
        let ghost start = KeyDecode { pos: initial as nat, modifier: 0, keys: seq![0u8, 0, 0, 0, 0, 0] };
        assert(report.keydata@ == seq![0u8, 0, 0, 0, 0, 0]);
        let mut i: usize = 0;
        while i < items.len()
            invariant
                i <= items@.len(),
                initial + items_bits(items@) + 0x1_0000 <= usize::MAX,
                reader.data() == buffer@,
                report.reserved == 0,
                ({
                    let d = key_items(buffer@, start, items@.subrange(0, i as int));
                    &&& reader.spec_position() == d.pos
                    &&& report.modifier == d.modifier
                    &&& report.keydata@ == d.keys
                    &&& d.pos <= initial + items_bits(items@.subrange(0, i as int))
                }),
            decreases items@.len() - i,
        {
            let item = items[i];
            let ghost d0 = key_items(buffer@, start, items@.subrange(0, i as int));
            proof {
                assert(items@.subrange(0, i + 1).drop_last() == items@.subrange(0, i as int));
                lemma_items_bits_prefix(items@, i + 1);
                lemma_key_item_pos(buffer@, d0, item);
            }
            if item.usage_min().0 == HidUsage::MOD_MIN && item.usage_max().0 == HidUsage::MOD_MAX {
                report.modifier = match reader.read_bit_array(&item) {
                    Ok(v) => v as u8,
                    Err(_) => 0,
                };
            } else if item.report_size() == 8 && item.is_array() && item.usage_min().usage_page().0 == 7 {
                let mut k: usize = 0;
                let mut nvals: usize = 0;
                let ghost kd = d0.keys;
                while k < item.report_count()
                    invariant
                        k <= item.report_count,
                        reader.data() == buffer@,
                        report.reserved == 0,
                        initial + items_bits(items@) + 0x1_0000 <= usize::MAX,
                        d0.pos <= initial + items_bits(items@.subrange(0, i as int)),
                        items_bits(items@.subrange(0, i + 1)) <= items_bits(items@),
                        items_bits(items@.subrange(0, i + 1)) == items_bits(items@.subrange(0, i as int)) + item.report_size * item.report_count,
                        item == items@[i as int],
                        item.report_size == 8,
                        ({
                            let (vals, p) = read_key_values(buffer@, d0.pos, item, k as nat);
                            &&& reader.spec_position() == p
                            &&& report.keydata@ == Seq::new(6, |j: int| if j < vals.len() { vals[j] } else { kd[j] })
                            &&& nvals == vals.len()
                        }),
                        kd.len() == 6,
                        report.modifier == d0.modifier,
                    decreases item.report_count - k,
                {
                    let ghost before = read_key_values(buffer@, d0.pos, item, k as nat);
                    proof {
                        lemma_key_values_pos(buffer@, d0.pos, item, k as nat);
                        assert(k * 8 <= item.report_count * 8) by (nonlinear_arith)
                            requires
                                k <= item.report_count,
                        ;
                    }
                    match reader.read_value(&item) {
                        Ok(v) => {
                            if nvals < 6 {
                                report.keydata.set(nvals, v as u8);
                            }
                            nvals = nvals + 1;
                            proof {
                                let after = read_key_values(buffer@, d0.pos, item, (k + 1) as nat);
                                assert(after.0 == before.0.push(v as u8));
                                assert(report.keydata@ =~= Seq::new(6, |j: int| if j < after.0.len() { after.0[j] } else { kd[j] }));
                            }
                        },
                        Err(_) => {},
                    }
                    k += 1;
                }
            } else {
                reader.advance_by(&item);
            }
            i += 1;
        }
        assert(items@.subrange(0, i as int) == items@);
        report
    }
}

/// The bits of a prefix of the items are at most those of all.
proof fn lemma_items_bits_prefix(items: Seq<ParsedReportMainItem>, n: int)
    requires
        0 <= n <= items.len(),
    ensures
        items_bits(items.subrange(0, n)) <= items_bits(items),
        n > 0 ==> items_bits(items.subrange(0, n)) == items_bits(items.subrange(0, n - 1))
            + items[n - 1].report_size * items[n - 1].report_count,
    decreases items.len() - n,
{
    if n > 0 {
        assert(items.subrange(0, n).drop_last() == items.subrange(0, n - 1));
    }
    if n < items.len() {
        lemma_items_bits_prefix(items, n + 1);
    } else {
        assert(items.subrange(0, n) == items);
    }
}

/// What an input report of a mouse says: the buttons, the movement or
/// position, the wheel, whether the position is absolute, and the largest
/// positions that absolute fields announce.
#[derive(Debug, Clone, Copy, PartialEq, Eq, Structural)]
pub struct HidMouseReport {
    pub buttons: u8,
    pub x: isize,
    pub y: isize,
    pub wheel: isize,
    pub is_absolute: bool,
    pub max_x: Option<i32>,
    pub max_y: Option<i32>,
}

/// A mouse report being decoded: the position in the report, what was read
/// so far, and whether a field that must be read could not be.
pub struct MouseDecode {
    pub pos: nat,
    pub report: HidMouseReport,
    pub failed: bool,
}

/// A signed field of `item` at `pos`: `None` when it cannot be read.
pub open spec fn read_signed_at(data: Seq<u8>, pos: nat, item: ParsedReportMainItem) -> Option<isize> {
    if item.flags.0 & 1 == 1 || item.flags.0 & 4 != 4 || (item.report_size == 0 && pos % 8 != 0) {
        None
    } else {
        match spec_read_bits(data, pos, item.report_size as nat) {
            Ok(v) => Some((sign_extend(v, item.report_size as nat) as i32) as isize),
            Err(_) => None,
        }
    }
}

/// An absolute field of `item` at `pos`: `None` when it cannot be read.
pub open spec fn read_unsigned_at(data: Seq<u8>, pos: nat, item: ParsedReportMainItem) -> Option<isize> {
    if !reads_absolute(item) {
        None
    } else {
        match spec_read_bits(data, pos, item.report_size as nat) {
            Ok(v) => Some(v as isize),
            Err(_) => None,
        }
    }
}

/// One input item of a mouse applied: the buttons, the axes, the wheel, or a
/// field that is skipped.
pub open spec fn mouse_item(data: Seq<u8>, d: MouseDecode, item: ParsedReportMainItem) -> MouseDecode {
    let r = d.report;
    let size = item.report_size as nat;
    if d.failed {
        d
    } else if item.usage_min.0 == HidUsage::BUTTON_1 {
        if item.flags.0 & 2 == 2 && item.report_size == 1 {
            if item.flags.0 & 1 == 1 {
                MouseDecode { failed: true, ..d }
            } else {
            match spec_read_bits(data, d.pos, item.report_count as nat) {
                Ok(v) => MouseDecode {
                    pos: (d.pos + item.report_count) as nat,
                    report: HidMouseReport { buttons: v as u8, ..r },
                    ..d
                },
                Err(_) => MouseDecode { failed: true, ..d },
            }
            }
        } else {
            d
        }
    } else if item.usage_min.0 == HidUsage::X || item.usage_min.0 == HidUsage::Y {
        let is_x = item.usage_min.0 == HidUsage::X;
        let relative = item.flags.0 & 4 == 4;
        let value = if relative { read_signed_at(data, d.pos, item) } else { read_unsigned_at(data, d.pos, item) };
        match value {
            None => MouseDecode { failed: true, ..d },
            Some(v) => {
                let r1 = if relative {
                    r
                } else if is_x {
                    HidMouseReport { is_absolute: true, max_x: Some(item.logical_max as i32), ..r }
                } else {
                    HidMouseReport { is_absolute: true, max_y: Some(item.logical_max as i32), ..r }
                };
                MouseDecode {
                    pos: d.pos + size,
                    report: if is_x { HidMouseReport { x: v, ..r1 } } else { HidMouseReport { y: v, ..r1 } },
                    ..d
                }
            },
        }
    } else if item.usage_min.0 == HidUsage::WHEEL {
        if item.report_size == 0 && d.pos % 8 != 0 && item.flags.0 & 1 != 1 && item.flags.0 & 4 == 4 {
            MouseDecode { failed: true, ..d }
        } else {
            match read_signed_at(data, d.pos, item) {
                Some(v) => MouseDecode { pos: d.pos + size, report: HidMouseReport { wheel: v, ..r }, ..d },
                None => MouseDecode { report: HidMouseReport { wheel: 0, ..r }, ..d },
            }
        }
    } else {
        MouseDecode { pos: (d.pos + item.report_size * item.report_count) as nat, ..d }
    }
}

/// The input items of a mouse applied in order.
pub open spec fn mouse_items(data: Seq<u8>, d: MouseDecode, items: Seq<ParsedReportMainItem>) -> MouseDecode
    decreases items.len(),
{
    if items.len() == 0 {
        d
    } else {
        mouse_item(data, mouse_items(data, d, items.drop_last()), items.last())
    }
}

/// The mouse report before any field was read.
pub open spec fn empty_mouse_report() -> HidMouseReport {
    HidMouseReport { buttons: 0, x: 0, y: 0, wheel: 0, is_absolute: false, max_x: None, max_y: None }
}

/// The bits that the fields of the items take, and one more field of each:
/// how far decoding a mouse report may move.
pub open spec fn items_span(items: Seq<ParsedReportMainItem>) -> nat
    decreases items.len(),
{
    if items.len() == 0 {
        0
    } else {
        items_span(items.drop_last()) + (items.last().report_size * items.last().report_count
            + items.last().report_size) as nat
    }
}

proof fn lemma_mouse_item_pos(data: Seq<u8>, d: MouseDecode, item: ParsedReportMainItem)
    ensures
        d.pos <= mouse_item(data, d, item).pos <= d.pos + item.report_size * item.report_count + item.report_size,
{
    if item.report_size == 1 {
        assert(item.report_size * item.report_count == item.report_count);
    }
}

proof fn lemma_items_span_prefix(items: Seq<ParsedReportMainItem>, n: int)
    requires
        0 <= n <= items.len(),
    ensures
        items_span(items.subrange(0, n)) <= items_span(items),
        n > 0 ==> items_span(items.subrange(0, n)) == items_span(items.subrange(0, n - 1))
            + items[n - 1].report_size * items[n - 1].report_count + items[n - 1].report_size,
    decreases items.len() - n,
{
    if n > 0 {
        assert(items.subrange(0, n).drop_last() == items.subrange(0, n - 1));
    }
    if n < items.len() {
        lemma_items_span_prefix(items, n + 1);
    } else {
        assert(items.subrange(0, n) == items);
    }
}

impl UsbHidDriver {
    /// Decodes an input report of a mouse application, reading from bit
    /// `initial` on; `None` when a button, axis field that must be read cannot be.
    pub fn mouse_report(app: &ParsedReportApplication, buffer: &[u8], initial: usize) -> (r: Option<HidMouseReport>)
        requires
            initial + items_span(spec_items_of(app.entries@, ReportKind::Input)) + 0x1_0000 <= usize::MAX,
        ensures
            ({
                let d = mouse_items(buffer@, MouseDecode { pos: initial as nat, report: empty_mouse_report(), failed: false },
                    spec_items_of(app.entries@, ReportKind::Input));
                match r {
                    Some(m) => !d.failed && m == d.report,
                    None => d.failed,
                }
            }),
    {
        let items = app.input_items();
        let mut reader = HidBitStreamReader::new(buffer, initial);
        let mut report = HidMouseReport { buttons: 0, x: 0, y: 0, wheel: 0, is_absolute: false, max_x: None, max_y: None };
        let ghost start = MouseDecode { pos: initial as nat, report: empty_mouse_report(), failed: false };
        let mut i: usize = 0;
        while i < items.len()
            invariant
                i <= items@.len(),
                items@ == spec_items_of(app.entries@, ReportKind::Input),
                start == (MouseDecode { pos: initial as nat, report: empty_mouse_report(), failed: false }),
                initial + items_span(items@) + 0x1_0000 <= usize::MAX,
                reader.data() == buffer@,
                ({
                    let d = mouse_items(buffer@, start, items@.subrange(0, i as int));
                    &&& !d.failed
                    &&& reader.spec_position() == d.pos
                    &&& report == d.report
                    &&& d.pos <= initial + items_span(items@.subrange(0, i as int))
                }),
            decreases items@.len() - i,
        {
            let item = items[i];
            let ghost d0 = mouse_items(buffer@, start, items@.subrange(0, i as int));
            proof {
                assert(items@.subrange(0, i + 1).drop_last() == items@.subrange(0, i as int));
                lemma_items_span_prefix(items@, i + 1);
                lemma_mouse_item_pos(buffer@, d0, item);
            }
            let u = item.usage_min().0;
            if u == HidUsage::BUTTON_1 {
                if item.is_variable() && item.report_size() == 1 {
                    match reader.read_bit_array(&item) {
                        Ok(v) => report.buttons = v as u8,
                        Err(_) => {
                            proof {
                                lemma_mouse_failed_stays(buffer@, start, items@, i + 1);
                            }
                            return None;
                        },
                    }
                }
            } else if u == HidUsage::X || u == HidUsage::Y {
                let is_x = u == HidUsage::X;
                let value = if item.is_relative() {
                    if item.report_size() == 0 && reader.position() % 8 != 0 {
                        None
                    } else {
                        match reader.read_value_signed(&item) {
                            Ok(v) => Some(v as isize),
                            Err(_) => None,
                        }
                    }
                } else {
                    if is_x {
                        report.is_absolute = true;
                        report.max_x = Some(item.logical_max() as i32);
                    } else {
                        report.is_absolute = true;
                        report.max_y = Some(item.logical_max() as i32);
                    }
                    match reader.read_value(&item) {
                        Ok(v) => Some(v as isize),
                        Err(_) => None,
                    }
                };
                match value {
                    Some(v) => {
                        if is_x {
                            report.x = v;
                        } else {
                            report.y = v;
                        }
                    },
                    None => {
                        proof {
                            lemma_mouse_failed_stays(buffer@, start, items@, i + 1);
                        }
                        return None;
                    },
                }
            } else if u == HidUsage::WHEEL {
                if item.report_size() == 0 && reader.position() % 8 != 0 && !item.is_const() && item.is_relative() {
                    proof {
                        lemma_mouse_failed_stays(buffer@, start, items@, i + 1);
                    }
                    return None;
                }
                report.wheel = if item.report_size() == 0 && reader.position() % 8 != 0 {
                    0
                } else {
                    match reader.read_value_signed(&item) {
                        Ok(v) => v as isize,
                        Err(_) => 0,
                    }
                };
            } else {
                reader.advance_by(&item);
            }
            i += 1;
        }
        assert(items@.subrange(0, i as int) == items@);
        Some(report)
    }
}

/// Once a field failed, the decoding stays failed.
proof fn lemma_mouse_failed_stays(data: Seq<u8>, start: MouseDecode, items: Seq<ParsedReportMainItem>, n: int)
    requires
        0 <= n <= items.len(),
        mouse_items(data, start, items.subrange(0, n)).failed,
    ensures
        mouse_items(data, start, items).failed,
    decreases items.len() - n,
{
    if n < items.len() {
        assert(items.subrange(0, n + 1).drop_last() == items.subrange(0, n));
        lemma_mouse_failed_stays(data, start, items, n + 1);
    } else {
        assert(items.subrange(0, n) == items);
    }
}

/// The fields of `kind` take the bits that the entries of `kind` take.
pub proof fn lemma_items_bits_of(entries: Seq<crate::io::hid_parse::ParsedReportEntry>, kind: ReportKind)
    ensures
        items_bits(spec_items_of(entries, kind)) == spec_bits_of(entries, kind),
    decreases entries.len(),
{
    if entries.len() > 0 {
        lemma_items_bits_of(entries.drop_last(), kind);
        let head = spec_items_of(entries.drop_last(), kind);
        let items = spec_items_of(entries, kind);
        if items.len() > head.len() {
            assert(items.drop_last() == head);
        } else {
            assert(items == head);
        }
    }
}

/// An output report being written: the position and the bytes.
pub struct LedWrite {
    pub pos: nat,
    pub data: Seq<u8>,
}

/// How many usages the range of `item` covers.
pub open spec fn usage_count(item: ParsedReportMainItem) -> nat {
    if item.usage_max.0 >= item.usage_min.0 {
        (item.usage_max.0 - item.usage_min.0 + 1) as nat
    } else {
        0
    }
}

/// `k` fields of `item` written as 1, one after the other; a field that does
/// not fit is not written and the position stays.
pub open spec fn write_ones(d: LedWrite, item: ParsedReportMainItem, k: nat) -> LedWrite
    decreases k,
{
    if k == 0 {
        d
    } else {
        let prev = write_ones(d, item, (k - 1) as nat);
        let (res, data) = spec_write_bits(prev.data, prev.pos, item.report_size as nat, 1);
        if res is Ok {
            LedWrite { pos: (prev.pos + item.report_size) as nat, data }
        } else {
            prev
        }
    }
}

/// One output item of a keyboard: the LED fields all lit, other fields skipped.
pub open spec fn led_item(d: LedWrite, item: ParsedReportMainItem) -> LedWrite {
    if item.report_size == 1 && item.usage_min.0 / 0x1_0000 == 8 {
        write_ones(d, item, usage_count(item))
    } else {
        LedWrite { pos: (d.pos + item.report_size * item.report_count) as nat, ..d }
    }
}

/// The output items of a keyboard applied in order.
pub open spec fn led_items(d: LedWrite, items: Seq<ParsedReportMainItem>) -> LedWrite
    decreases items.len(),
{
    if items.len() == 0 {
        d
    } else {
        led_item(led_items(d, items.drop_last()), items.last())
    }
}

proof fn lemma_write_ones(d: LedWrite, item: ParsedReportMainItem, k: nat)
    requires
        item.report_size == 1,
    ensures
        write_ones(d, item, k).data.len() == d.data.len(),
        d.pos <= write_ones(d, item, k).pos,
        write_ones(d, item, k).pos <= if d.pos >= 8 * d.data.len() { d.pos as int } else { (8 * d.data.len()) as int },
    decreases k,
{
    if k > 0 {
        lemma_write_ones(d, item, (k - 1) as nat);
    }
}

impl UsbHidDriver {
    /// The output report that lights every LED of a keyboard application, and
    /// the length to send; none for other applications and for keyboards
    /// without output fields. The report that puts the LEDs out again is
    /// that many zero bytes.
    pub fn keyboard_led_report(app: &ParsedReportApplication) -> (r: Option<(Vec<u8>, u16)>)
        requires
            2 * (spec_bits_of(app.entries@, ReportKind::Output) + spec_bits_of(app.entries@, ReportKind::Feature)) + 0x1_0000 <= usize::MAX,
        ensures
            ({
                let out_bits = spec_bits_of(app.entries@, ReportKind::Output);
                let feature_bits = spec_bits_of(app.entries@, ReportKind::Feature);
                let size = (if feature_bits > out_bits { feature_bits } else { out_bits } + 7) / 8;
                let len = (out_bits + 7) / 8;
                if app.usage.0 != HidUsage::KEYBOARD || len as u16 == 0 {
                    r is None
                } else {
                    r matches Some((data, n)) && n == len as u16 && data@ == led_items(
                        LedWrite { pos: 0, data: Seq::new(size as nat, |i: int| 0u8) },
                        spec_items_of(app.entries@, ReportKind::Output),
                    ).data
                }
            }),
    {
        let out_bits = app.bit_count_for_output();
        let feature_bits = app.bit_count_for_feature();
        let size = (if feature_bits > out_bits { feature_bits } else { out_bits } + 7) / 8;
        if app.usage().0 != HidUsage::KEYBOARD {
            return None;
        }
        let len = ((out_bits + 7) / 8) as u16;
        if len == 0 {
            return None;
        }
        let mut data: Vec<u8> = Vec::new();
        let mut k: usize = 0;
        while k < size
            invariant
                k <= size,
                data@ == Seq::new(k as nat, |i: int| 0u8),
            decreases size - k,
        {
            data.push(0);
            k += 1;
        }
        let ghost start = LedWrite { pos: 0, data: data@ };
        let ghost dlen = data@.len();
        let items = app.output_items();
        proof {
            lemma_items_bits_of(app.entries@, ReportKind::Output);
        }
        let mut writer = HidBitStreamWriter::new(data);
        let mut i: usize = 0;
        while i < items.len()
            invariant
                i <= items@.len(),
                start.pos == 0,
                dlen == start.data.len(),
                8 * dlen <= out_bits + feature_bits + 8,
                items_bits(items@) == out_bits,
                2 * (out_bits + feature_bits) + 0x1_0000 <= usize::MAX,
                ({
                    let d = led_items(start, items@.subrange(0, i as int));
                    &&& writer.spec_position() == d.pos
                    &&& writer.spec_data() == d.data
                    &&& d.data.len() == dlen
                    &&& d.pos <= items_bits(items@.subrange(0, i as int)) + 8 * dlen
                }),
            decreases items@.len() - i,
        {
            let item = items[i];
            let ghost d0 = led_items(start, items@.subrange(0, i as int));
            proof {
                assert(items@.subrange(0, i + 1).drop_last() == items@.subrange(0, i as int));
                lemma_items_bits_prefix(items@, i + 1);
            }
            if item.report_size() == 1 && item.usage_min().usage_page().0 == 8 {
                let min = item.usage_min().0 as u64;
                let max = item.usage_max().0 as u64;
                let count: u64 = if max >= min { max - min + 1 } else { 0 };
                let mut j: u64 = 0;
                while j < count
                    invariant
                        j <= count,
                        count == usage_count(item),
                        item.report_size == 1,
                        d0.data.len() == dlen,
                        d0.pos <= items_bits(items@.subrange(0, i as int)) + 8 * dlen,
                        items_bits(items@.subrange(0, i as int)) <= out_bits,
                        2 * (out_bits + feature_bits) + 0x1_0000 <= usize::MAX,
                        8 * dlen <= out_bits + feature_bits + 8,
                        ({
                            let w = write_ones(d0, item, j as nat);
                            &&& writer.spec_position() == w.pos
                            &&& writer.spec_data() == w.data
                        }),
                    decreases count - j,
                {
                    proof {
                        lemma_write_ones(d0, item, j as nat);
                    }
                    let _ = writer.write_item(&item, 1);
                    j += 1;
                }
                proof {
                    lemma_write_ones(d0, item, count as nat);
                }
            } else {
                proof {
                    lemma_items_bits_prefix(items@, i + 1);
                }
                writer.advance_by(&item);
            }
            i += 1;
        }
        assert(items@.subrange(0, i as int) == items@);
        let n = writer.data().len();
        let mut out: Vec<u8> = Vec::new();
        let mut k: usize = 0;
        while k < n
            invariant
                k <= n,
                n == writer.spec_data().len(),
                out@ == writer.spec_data().subrange(0, k as int),
            decreases n - k,
        {
            out.push(writer.data()[k]);
            k += 1;
        }
        assert(out@ == writer.spec_data().subrange(0, n as int));
        assert(writer.spec_data().subrange(0, n as int) == writer.spec_data());
        Some((out, len))
    }
}

impl UsbHidDriver {
    /// Whether a report of `buffer_len` bytes holds every input field of
    /// `app` after bit `initial`; some devices send shorter reports, which are
    /// ignored.
    pub fn report_complete(buffer_len: usize, initial: usize, app: &ParsedReportApplication) -> (r: bool)
        requires
            buffer_len * 8 <= usize::MAX,
            initial + spec_bits_of(app.entries@, ReportKind::Input) <= usize::MAX,
        ensures
            r == (buffer_len * 8 >= initial + spec_bits_of(app.entries@, ReportKind::Input)),
    {
        buffer_len * 8 >= initial + app.bit_count_for_input()
    }
}

} // verus!
