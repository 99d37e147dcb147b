//! High Precision Event Timer: what the driver computes from the timer's
//! capabilities, and the register writes that start it.
//!
//! The registers themselves are memory-mapped; the platform reads the
//! capabilities register and performs the writes listed here in order.

use vstd::prelude::*;

verus! {

pub const HPET_GENERAL_CONFIG: usize = 0x10;
pub const HPET_INTERRUPT_STATUS: usize = 0x20;
pub const HPET_MAIN_COUNTER: usize = 0xF0;
pub const HPET_TIMER0_CONFIG: usize = 0x100;
pub const HPET_TIMER0_COMPARATOR: usize = 0x108;
/// The distance between the register blocks of two timers.
pub const HPET_TIMER_STRIDE: usize = 0x20;
/// LEG_RT_CNF | ENABLE_CNF
pub const HPET_ENABLE_LEGACY: u64 = 0x03;
/// Tn_INT_ENB_CNF | Tn_TYPE_CNF | Tn_VAL_SET_CNF
pub const HPET_TIMER_PERIODIC: u64 = 0x4C;
/// The number of timers that a timer block can have.
pub const HPET_MAX_TIMERS: usize = 32;

/// What the driver keeps from the capabilities register.
#[derive(Debug, Clone, Copy, PartialEq, Eq, Structural)]
pub struct HpetTiming {
    /// The main counter is only 32 bits wide.
    pub counter_32bit: bool,
    /// The period of the main counter, in femtoseconds.
    pub main_cnt_period: u64,
    /// Counter ticks per microsecond.
    pub measure_div: u64,
}

/// The register writes that start the timer, in order: stop it, clear the
/// interrupts, reset the counter, start it in legacy routing, make timer 0
/// periodic with one interrupt per millisecond, and stop the other timers.
pub open spec fn spec_init_writes(period: u64) -> Seq<(usize, u64)> {
    seq![
        (HPET_GENERAL_CONFIG, 0u64),
        (HPET_INTERRUPT_STATUS, 0u64),
        (HPET_MAIN_COUNTER, 0u64),
        (HPET_GENERAL_CONFIG, HPET_ENABLE_LEGACY),
        (HPET_TIMER0_CONFIG, HPET_TIMER_PERIODIC),
        (HPET_TIMER0_COMPARATOR, (1_000_000_000_000u64 / period) as u64),
    ] + Seq::new(
        (HPET_MAX_TIMERS - 1) as nat,
        |k: int| ((HPET_TIMER0_CONFIG + (k + 1) * HPET_TIMER_STRIDE) as usize, 0u64),
    )
}

impl HpetTiming {
    /// Reads the capabilities register: the period in its upper half, and bit 13
    /// clear for a 32-bit counter.
    pub fn from_id_register(id_reg: u64) -> (r: Self)
        requires
            id_reg >> 32u64 != 0,
        ensures
            r.counter_32bit == (id_reg & 0x2000 == 0),
            r.main_cnt_period == id_reg >> 32u64,
            r.measure_div == 1_000_000_000u64 / r.main_cnt_period,
    {
        let period: u64 = id_reg >> 32u64;
        HpetTiming {
            counter_32bit: (id_reg & 0x2000) == 0,
            main_cnt_period: period,
            measure_div: 1_000_000_000 / period,
        }
    }

    /// The register writes that start the timer.
    pub fn init_writes(&self) -> (r: Vec<(usize, u64)>)
        requires
            self.main_cnt_period != 0,
        ensures
            r@ == spec_init_writes(self.main_cnt_period),
    {
        let mut r: Vec<(usize, u64)> = Vec::new();
        r.push((HPET_GENERAL_CONFIG, 0));
        r.push((HPET_INTERRUPT_STATUS, 0));
        r.push((HPET_MAIN_COUNTER, 0));
        r.push((HPET_GENERAL_CONFIG, HPET_ENABLE_LEGACY));
        r.push((HPET_TIMER0_CONFIG, HPET_TIMER_PERIODIC));
        r.push((HPET_TIMER0_COMPARATOR, 1_000_000_000_000 / self.main_cnt_period));
        let ghost head = r@;
        let mut i: usize = 1;
        while i < HPET_MAX_TIMERS
            invariant
                1 <= i <= HPET_MAX_TIMERS,
                head.len() == 6,
                r@.len() == 6 + i - 1,
                r@.subrange(0, 6) == head,
                forall|k: int|
                    0 <= k < i - 1 ==> #[trigger] r@[6 + k] == ((HPET_TIMER0_CONFIG + (k + 1)
                        * HPET_TIMER_STRIDE) as usize, 0u64),
            decreases HPET_MAX_TIMERS - i,
        {
            r.push((HPET_TIMER0_CONFIG + i * HPET_TIMER_STRIDE, 0));
            i = i + 1;
        }
        let ghost tail = Seq::new(
            (HPET_MAX_TIMERS - 1) as nat,
            |k: int| ((HPET_TIMER0_CONFIG + (k + 1) * HPET_TIMER_STRIDE) as usize, 0u64),
        );
        assert(r@ =~= head + tail) by {
            assert forall|k: int| 6 <= k < r@.len() implies r@[k] == (head + tail)[k] by {
                assert(r@[6 + (k - 6)] == r@[k]);
            }
            assert forall|k: int| 0 <= k < 6 implies r@[k] == (head + tail)[k] by {
                assert(r@.subrange(0, 6)[k] == r@[k]);
            }
        }
        r
    }

    /// The time in microseconds: a millisecond per interrupt where the counter
    /// is narrow, else the main counter divided by its ticks per microsecond.
    pub fn measure(&self, tick: u64, counter: u64) -> (r: u64)
        requires
            self.counter_32bit ==> 1000 * tick <= u64::MAX,
            !self.counter_32bit ==> self.measure_div != 0,
        ensures
            self.counter_32bit ==> r == 1000 * tick,
            !self.counter_32bit ==> r == counter / self.measure_div,
    {
        if self.counter_32bit {
            1000 * tick
        } else {
            counter / self.measure_div
        }
    }
}

} // verus!
