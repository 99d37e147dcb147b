//! Real Time Clock: the decoding of the CMOS clock registers and the system time that
//! is counted from them. Reading the CMOS ports is left to the caller.

use vstd::prelude::*;
use crate::bits::lemma_byte_bits;
use crate::num::NonZeroU8;

verus! {

broadcast use NonZeroU8::lemma_spec_new;

/// The clock as it was read at start-up.
pub struct Rtc {
    /// The seconds since the epoch that the clock showed at start-up.
    pub base_secs: u64,
    /// The monotonic time, in nanoseconds, at which it was read.
    pub offset: u64,
    /// The CMOS register of the century (0: there is none).
    pub century_index: u8,
}

impl Rtc {
    pub fn new() -> (r: Self)
        ensures
            r.base_secs == 0,
            r.offset == 0,
            r.century_index == 0,
    {
        Rtc { base_secs: 0, offset: 0, century_index: 0 }
    }

    pub fn base_secs(&self) -> (r: u64)
        ensures
            r == self.base_secs,
    {
        self.base_secs
    }

    pub fn offset(&self) -> (r: u64)
        ensures
            r == self.offset,
    {
        self.offset
    }

    /// The CMOS register of the century, if the firmware names one.
    pub fn century_index(&self) -> (r: Option<NonZeroU8>)
        ensures
            r == NonZeroU8::spec_new(self.century_index),
    {
        NonZeroU8::new(self.century_index)
    }

    /// The value of a BCD byte.
    pub open spec fn spec_bcd_to_dec(bcd: u8) -> int {
        (bcd / 16) * 10 + bcd % 16
    }

    /// The value of a BCD byte.
    pub fn bcd_to_dec(bcd: u8) -> (r: u8)
        ensures
            r == Self::spec_bcd_to_dec(bcd),
    {
        proof {
            lemma_byte_bits();
            assert((bcd & 0xF0) >> 1u8 == (bcd / 16) * 8 && (bcd & 0xF0) >> 3u8 == (bcd / 16) * 2
                && bcd & 0xF == bcd % 16);
        }
        ((bcd & 0xF0) >> 1u8) + ((bcd & 0xF0) >> 3u8) + (bcd & 0xf)
    }

    pub open spec fn spec_fix_value(val: u8, is_bcd: bool) -> int {
        if is_bcd {
            Self::spec_bcd_to_dec(val)
        } else {
            val as int
        }
    }

    /// The value of a clock register, in BCD or binary.
    pub fn fix_value(val: u8, is_bcd: bool) -> (r: u8)
        ensures
            r == Self::spec_fix_value(val, is_bcd),
    {
        if is_bcd {
            Self::bcd_to_dec(val)
        } else {
            val
        }
    }

    pub open spec fn spec_fix_hour(val: u8, is_bcd: bool, is_12h: bool) -> int {
        let pm = val >= 0x80;
        let v = val % 0x80;
        let v1 = if is_bcd { Self::spec_bcd_to_dec(v as u8) } else { v as int };
        let v2 = if is_12h && v1 == 12 { 0 } else { v1 };
        if pm { v2 + 12 } else { v2 }
    }

    /// The value of the hour register: BCD or binary, on a 12 or 24 hour clock, bit 7
    /// marking the afternoon.
    pub fn fix_hour(val: u8, is_bcd: bool, is_12h: bool) -> (r: u8)
        ensures
            r == Self::spec_fix_hour(val, is_bcd, is_12h),
    {
        proof {
            lemma_byte_bits();
            assert((val & 0x80) != 0 <==> val >= 0x80);
            assert(val & 0x7F == val % 0x80);
        }
        let pm = (val & 0x80) != 0;
        let mut val = val & 0x7F;
        if is_bcd {
            val = Self::bcd_to_dec(val);
        }
        if is_12h && val == 12 {
            val = 0;
        }
        if pm {
            val += 12;
        }
        val
    }

    /// The clock fields of seven raw register values, in the order in which they were
    /// read (minutes, seconds, hours, day, month, year, century), decoded as the status
    /// register B says: seconds, minutes, hours, day, month and the year with its
    /// century. The first two are decoded in the order in which they were read: the first
    /// as a plain value, the second as an hour.
    pub fn decode_raw(raw: (u8, u8, u8, u8, u8, u8, u8), reg_b: u8) -> (r: (u64, u64, u64, u8, u8, u16))
        ensures
            ({
                let is_12h = reg_b & 2 == 0;
                let is_bcd = reg_b & 4 == 0;
                &&& r.0 == Self::spec_fix_value(raw.0, is_bcd)
                &&& r.1 == Self::spec_fix_hour(raw.1, is_bcd, is_12h)
                &&& r.2 == Self::spec_fix_value(raw.2, is_bcd)
                &&& r.3 == Self::spec_fix_value(raw.3, is_bcd)
                &&& r.4 == Self::spec_fix_value(raw.4, is_bcd)
                &&& r.5 == Self::spec_fix_value(raw.5, is_bcd) + Self::spec_fix_value(raw.6, is_bcd) * 100
            }),
    {
        let is_12h = (reg_b & 2) == 0;
        let is_bcd = (reg_b & 4) == 0;
        let sec = Self::fix_value(raw.0, is_bcd) as u64;
        let min = Self::fix_hour(raw.1, is_bcd, is_12h) as u64;
        let hour = Self::fix_value(raw.2, is_bcd) as u64;
        let day = Self::fix_value(raw.3, is_bcd);
        let month = Self::fix_value(raw.4, is_bcd);
        let year = Self::fix_value(raw.5, is_bcd) as u16 + Self::fix_value(raw.6, is_bcd) as u16 * 100;
        (sec, min, hour, day, month, year)
    }

    /// The seconds since the epoch of a time of day on the day with number `date`.
    pub fn time_secs(sec: u64, min: u64, hour: u64, date: u64) -> (r: u64)
        requires
            sec + min * 60 + hour * 3600 + date * 86400 <= u64::MAX,
        ensures
            r == sec + min * 60 + hour * 3600 + date * 86400,
    {
        sec + min * 60 + hour * 3600 + date * 86400
    }

    /// The system time, as seconds and nanoseconds since the epoch, at monotonic time
    /// `now` (in nanoseconds).
    pub fn system_time(&self, now: u64) -> (r: (u64, u32))
        requires
            now >= self.offset,
            self.base_secs + (now - self.offset) / 1_000_000_000 <= u64::MAX,
        ensures
            r.0 == self.base_secs + (now - self.offset) / 1_000_000_000,
            r.1 == (now - self.offset) % 1_000_000_000,
    {
        let nanos_per_sec: u64 = 1_000_000_000;
        let diff = now - self.offset();
        let secs = self.base_secs() + diff / nanos_per_sec;
        let nanos = (diff % nanos_per_sec) as u32;
        (secs, nanos)
    }
}

/// The registers of the CMOS clock, by their index.
#[derive(Debug, Clone, Copy, PartialEq, Eq, Structural)]
pub enum Cmos {
    Seconds,
    SecondsAlarm,
    Minutes,
    MinutesAlarm,
    Hours,
    HoursAlarm,
    DayOfWeek,
    DayOfMonth,
    Month,
    Year,
    StatusA,
    StatusB,
}

impl Cmos {
    /// The numeric code of each variant.
    pub open spec fn spec_code(self) -> u8 {
        match self {
            Cmos::Seconds => 0,
            Cmos::SecondsAlarm => 1,
            Cmos::Minutes => 2,
            Cmos::MinutesAlarm => 3,
            Cmos::Hours => 4,
            Cmos::HoursAlarm => 5,
            Cmos::DayOfWeek => 6,
            Cmos::DayOfMonth => 7,
            Cmos::Month => 8,
            Cmos::Year => 9,
            Cmos::StatusA => 10,
            Cmos::StatusB => 11,
        }
    }

    /// The variant with code `v`, if there is one.
    pub open spec fn spec_from_code(v: u8) -> Option<Self> {
        if v == 0 {
            Some(Cmos::Seconds)
        } else if v == 1 {
            Some(Cmos::SecondsAlarm)
        } else if v == 2 {
            Some(Cmos::Minutes)
        } else if v == 3 {
            Some(Cmos::MinutesAlarm)
        } else if v == 4 {
            Some(Cmos::Hours)
        } else if v == 5 {
            Some(Cmos::HoursAlarm)
        } else if v == 6 {
            Some(Cmos::DayOfWeek)
        } else if v == 7 {
            Some(Cmos::DayOfMonth)
        } else if v == 8 {
            Some(Cmos::Month)
        } else if v == 9 {
            Some(Cmos::Year)
        } else if v == 10 {
            Some(Cmos::StatusA)
        } else if v == 11 {
            Some(Cmos::StatusB)
        } else {
            None
        }
    }

    pub fn code(&self) -> (r: u8)
        ensures
            r == self.spec_code(),
    {
        match self {
            Cmos::Seconds => 0,
            Cmos::SecondsAlarm => 1,
            Cmos::Minutes => 2,
            Cmos::MinutesAlarm => 3,
            Cmos::Hours => 4,
            Cmos::HoursAlarm => 5,
            Cmos::DayOfWeek => 6,
            Cmos::DayOfMonth => 7,
            Cmos::Month => 8,
            Cmos::Year => 9,
            Cmos::StatusA => 10,
            Cmos::StatusB => 11,
        }
    }

}

/// Decoding the clock registers of a time written in BCD gives the decimal time back:
/// two BCD digits stand for the number they spell, and so does a 24-hour hour below 80.
pub proof fn lemma_bcd_roundtrip(tens: u8, ones: u8)
    requires
        tens < 10,
        ones < 10,
    ensures
        Rtc::spec_bcd_to_dec((tens * 16 + ones) as u8) == tens * 10 + ones,
        tens < 8 ==> Rtc::spec_fix_hour((tens * 16 + ones) as u8, true, false) == tens * 10 + ones,
{
    let b = (tens * 16 + ones) as u8;
    assert(b / 16 == tens && b % 16 == ones);
    if tens < 8 {
        assert(b < 0x80);
        assert(b % 0x80 == b);
        assert(((b % 0x80) as u8) == b);
    }
}

} // verus!
