//! The figures of the activity monitor: the ring of overall load samples that
//! its graph plots, and the per-processor meters. Sizes are in
//! [`crate::shell::monitor_size`].

use vstd::prelude::*;

verus! {

/// How many samples the graph keeps.
pub const N_SAMPLES: usize = 64;

/// The sum of the per-processor loads.
pub open spec fn load_sum(per_cpu: Seq<u32>) -> int
    decreases per_cpu.len(),
{
    if per_cpu.len() == 0 {
        0
    } else {
        load_sum(per_cpu.drop_last()) + per_cpu.last()
    }
}

/// One sample of the overall load: the summed per-mille loads of `num_cpus`
/// processors, capped at all of them busy, scaled to 0..=254.
pub open spec fn spec_usage_sample(per_cpu: Seq<u32>, num_cpus: int) -> int {
    let max_value = num_cpus * 1000;
    let sum = load_sum(per_cpu);
    254 * (if sum < max_value { sum } else { max_value }) / max_value
}

/// One sample of the overall load; see [`spec_usage_sample`].
pub fn usage_sample(per_cpu: &[u32], num_cpus: u32) -> (r: u8)
    requires
        1 <= num_cpus,
        254 * (num_cpus * 1000) <= u32::MAX,
        load_sum(per_cpu@) <= u32::MAX,
    ensures
        r == spec_usage_sample(per_cpu@, num_cpus as int),
{
    let max_value = num_cpus * 1000;
    let mut sum: u32 = 0;
    let mut i: usize = 0;
    while i < per_cpu.len()
        invariant
            i <= per_cpu@.len(),
            load_sum(per_cpu@) <= u32::MAX,
            sum == load_sum(per_cpu@.subrange(0, i as int)),
        decreases per_cpu@.len() - i,
    {
        proof {
            let t = per_cpu@.subrange(0, i + 1);
            assert(t.drop_last() =~= per_cpu@.subrange(0, i as int));
            lemma_load_sum_prefix(per_cpu@, i + 1);
        }
        sum = sum + per_cpu[i];
        i = i + 1;
    }
    proof {
        assert(per_cpu@.subrange(0, per_cpu@.len() as int) =~= per_cpu@);
    }
    let capped = if sum < max_value {
        sum
    } else {
        max_value
    };
    assert(254 * (capped as int) / (max_value as int) <= 254 && 254 * capped <= 254 * max_value) by (nonlinear_arith)
        requires
            capped <= max_value,
            max_value >= 1,
    ;
    (254 * capped / max_value) as u8
}

/// A prefix of the loads sums to no more than all of them.
proof fn lemma_load_sum_prefix(s: Seq<u32>, n: int)
    requires
        0 <= n <= s.len(),
    ensures
        load_sum(s.subrange(0, n)) <= load_sum(s),
    decreases s.len() - n,
{
    if n < s.len() {
        lemma_load_sum_prefix(s, n + 1);
        assert(s.subrange(0, n + 1).drop_last() =~= s.subrange(0, n));
    } else {
        assert(s.subrange(0, n) =~= s);
    }
}

/// The sample `back` steps before the cursor in a ring of [`N_SAMPLES`].
pub open spec fn ring_back(samples: Seq<u8>, cursor: int, back: int) -> u8 {
    samples[(cursor + N_SAMPLES - back) % (N_SAMPLES as int)]
}

/// The ring of load samples: the next sample goes to `cursor`, over the oldest.
pub struct UsageHistory {
    samples: Vec<u8>,
    cursor: usize,
}

impl UsageHistory {
    pub closed spec fn spec_samples(&self) -> Seq<u8> {
        self.samples@
    }

    pub closed spec fn spec_cursor(&self) -> int {
        self.cursor as int
    }

    /// The ring holds [`N_SAMPLES`] samples and the cursor points into it.
    pub open spec fn wf(&self) -> bool {
        self.spec_samples().len() == N_SAMPLES && 0 <= self.spec_cursor() < N_SAMPLES
    }

    /// A ring of samples that are all `u8::MAX`, which the graph does not draw
    /// as load, with the cursor at the start.
    pub fn new() -> (r: Self)
        ensures
            r.wf(),
            r.spec_samples() == Seq::new(N_SAMPLES as nat, |i: int| u8::MAX),
            r.spec_cursor() == 0,
    {
        let mut samples: Vec<u8> = Vec::new();
        let mut k: usize = 0;
        while k < N_SAMPLES
            invariant
                k <= N_SAMPLES,
                samples@ == Seq::new(k as nat, |i: int| u8::MAX),
            decreases N_SAMPLES - k,
        {
            samples.push(u8::MAX);
            k = k + 1;
            proof {
                assert(samples@ =~= Seq::new(k as nat, |i: int| u8::MAX));
            }
        }
        UsageHistory { samples, cursor: 0 }
    }

    /// Writes `sample` at the cursor and moves the cursor on, round the ring.
    pub fn record(&mut self, sample: u8)
        requires
            old(self).wf(),
        ensures
            final(self).wf(),
            final(self).spec_samples() == old(self).spec_samples().update(old(self).spec_cursor(), sample),
            final(self).spec_cursor() == (old(self).spec_cursor() + 1) % (N_SAMPLES as int),
    {
        self.samples.set(self.cursor, sample);
        self.cursor = (self.cursor + 1) % N_SAMPLES;
    }

    /// The sample `back` steps before the cursor: 1 is the latest.
    pub fn sample_back(&self, back: usize) -> (r: u8)
        requires
            self.wf(),
            1 <= back <= N_SAMPLES,
        ensures
            r == ring_back(self.spec_samples(), self.spec_cursor(), back as int),
    {
        self.samples[(self.cursor + N_SAMPLES - back) % N_SAMPLES]
    }
}

/// Recording a sample and then reading one step back gives that sample, and
/// the other samples stay where they were.
pub proof fn lemma_record_then_latest(samples: Seq<u8>, cursor: int, sample: u8, back: int)
    requires
        samples.len() == N_SAMPLES,
        0 <= cursor < N_SAMPLES,
        2 <= back <= N_SAMPLES,
    ensures
        ring_back(samples.update(cursor, sample), (cursor + 1) % (N_SAMPLES as int), 1) == sample,
        ring_back(samples.update(cursor, sample), (cursor + 1) % (N_SAMPLES as int), back) == ring_back(
            samples,
            cursor,
            back - 1,
        ),
{
}

/// The height at which the graph draws a sample, on a scale of `scale` pixels.
pub fn graph_offset(sample: u8, scale: i64) -> (r: i64)
    requires
        0 <= scale <= 0x1_0000_0000,
    ensures
        r == sample * scale / 255,
{
    assert(0 <= sample * scale <= 255 * 0x1_0000_0000) by (nonlinear_arith)
        requires
            0 <= scale <= 0x1_0000_0000,
    ;
    (sample as i64) * scale / 255
}

/// How busy a processor's meter shows it.
#[derive(Debug, Clone, Copy, PartialEq, Eq, Structural)]
pub enum MeterLevel {
    /// Under a quarter.
    Low,
    /// Under three quarters.
    Middle,
    /// The rest.
    High,
}

/// The level of a per-mille load.
pub fn meter_level(value: u32) -> (r: MeterLevel)
    ensures
        r == (if value < 250 {
            MeterLevel::Low
        } else if value < 750 {
            MeterLevel::Middle
        } else {
            MeterLevel::High
        }),
{
    if value < 250 {
        MeterLevel::Low
    } else if value < 750 {
        MeterLevel::Middle
    } else {
        MeterLevel::High
    }
}

/// How far down a meter of `height` pixels its fill starts for a per-mille
/// load, rounded to the nearest pixel.
pub fn meter_top(height: i64, value: u32) -> (r: i64)
    requires
        1 <= height <= 0x1_0000_0000,
        value <= 1000,
    ensures
        r == ((height - 1) * value + 500) / 1000,
{
    assert(0 <= (height - 1) * value <= 0x1_0000_0000 * 1000) by (nonlinear_arith)
        requires
            1 <= height <= 0x1_0000_0000,
            value <= 1000,
    ;
    ((height - 1) * (value as i64) + 500) / 1000
}

/// A load in tenths of a percent as whole percent and tenths.
pub fn percent_parts(usage: u32) -> (r: (u32, u32))
    ensures
        r.0 == usage / 10,
        r.1 == usage % 10,
        r.0 * 10 + r.1 == usage,
{
    (usage / 10, usage % 10)
}

} // verus!
