//! CPU usage from cumulative tick counters.

use crate::ratio::saturated;
use vstd::prelude::*;

verus! {

/// Cumulative CPU time since boot, in kernel ticks, split into time spent
/// idle and time spent on anything else.
#[derive(Clone, Copy, Debug, PartialEq, Eq)]
pub struct CpuTicks {
    pub idle: u64,
    pub non_idle: u64,
}

/// What the CPU probe reads in one cycle: the kernel's combined counter and
/// one counter per logical core.
#[derive(Clone, Debug, PartialEq, Eq)]
pub struct CpuSample {
    pub combined: CpuTicks,
    pub cores: Vec<CpuTicks>,
}

/// The CPU reading of a snapshot, in whole percent: the overall usage, and
/// either one figure per logical core or a single averaged figure.
#[derive(Clone, Debug, PartialEq, Eq)]
pub struct CpuHarvest {
    pub overall: u64,
    pub per_core: Vec<u64>,
}

/// The mathematical content of a [`CpuHarvest`].
#[verifier::ext_equal]
pub struct CpuReading {
    pub overall: u64,
    pub per_core: Seq<u64>,
}

impl View for CpuHarvest {
    type V = CpuReading;

    open spec fn view(&self) -> CpuReading {
        CpuReading { overall: self.overall, per_core: self.per_core@ }
    }
}

/// `x` brought into the range of a percentage.
pub open spec fn clamp_percent(x: int) -> u64 {
    if x < 0 {
        0
    } else if x > 100 {
        100
    } else {
        x as u64
    }
}

/// The share of the interval between two samples that was spent busy:
/// `busy / (busy + idle) * 100` over the counters' growth, rounded down and
/// clamped to `0..=100`. An interval in which neither counter moved has
/// usage `0`.
pub open spec fn usage_percent(prev: CpuTicks, cur: CpuTicks) -> u64 {
    let busy = cur.non_idle - prev.non_idle;
    let total = busy + (cur.idle - prev.idle);
    if total == 0 {
        0
    } else if total > 0 {
        clamp_percent((busy * 100) / total)
    } else {
        clamp_percent((-busy * 100) / (-total))
    }
}

/// Usage is a percentage whatever the counters did.
pub proof fn lemma_usage_percent_bounded(prev: CpuTicks, cur: CpuTicks)
    ensures
        0 <= usage_percent(prev, cur) <= 100,
{
}

/// Counters that did not move since the previous sample give usage `0`.
pub proof fn lemma_usage_percent_of_still_counters(prev: CpuTicks, cur: CpuTicks)
    requires
        cur.non_idle == prev.non_idle,
        cur.idle == prev.idle,
    ensures
        usage_percent(prev, cur) == 0,
{
}

/// Where both counters grew, usage is the plain quotient.
pub proof fn lemma_usage_percent_of_growing_counters(prev: CpuTicks, cur: CpuTicks)
    requires
        cur.non_idle >= prev.non_idle,
        cur.idle >= prev.idle,
        cur.non_idle + cur.idle > prev.non_idle + prev.idle,
    ensures
        usage_percent(prev, cur) == ((cur.non_idle - prev.non_idle) * 100) / ((cur.non_idle
            - prev.non_idle) + (cur.idle - prev.idle)),
{
    let busy = cur.non_idle - prev.non_idle;
    let total = busy + (cur.idle - prev.idle);
    lemma_quotient_range(busy, total);
}

proof fn lemma_quotient_range(n: int, d: int)
    requires
        d > 0,
    ensures
        n <= 0 ==> (n * 100) / d <= 0,
        n >= d ==> (n * 100) / d >= 100,
        0 <= n <= d ==> 0 <= (n * 100) / d <= 100,
{
    if n <= 0 {
        assert((n * 100) / d <= 0) by (nonlinear_arith)
            requires
                n <= 0,
                d > 0,
        ;
    }
    if n >= d {
        assert((n * 100) / d >= 100) by (nonlinear_arith)
            requires
                n >= d,
                d > 0,
        ;
    }
    if 0 <= n <= d {
        assert(0 <= (n * 100) / d <= 100) by (nonlinear_arith)
            requires
                0 <= n <= d,
                d > 0,
        ;
    }
}

/// Computes the usage over the interval between two samples of one counter.
pub fn cpu_usage_percent(prev: CpuTicks, cur: CpuTicks) -> (percent: u64)
    ensures
        percent == usage_percent(prev, cur),
        percent <= 100,
        cur.non_idle == prev.non_idle && cur.idle == prev.idle ==> percent == 0,
{
    let busy: i128 = cur.non_idle as i128 - prev.non_idle as i128;
    let idle: i128 = cur.idle as i128 - prev.idle as i128;
    let total: i128 = busy + idle;
    if total == 0 {
        return 0;
    }
    let n: i128 = if total > 0 {
        busy
    } else {
        -busy
    };
    let d: i128 = if total > 0 {
        total
    } else {
        -total
    };
    proof {
        lemma_quotient_range(n as int, d as int);
    }
    if n <= 0 {
        0
    } else if n >= d {
        100
    } else {
        let scaled: u128 = (n as u128) * 100;
        (scaled / (d as u128)) as u64
    }
}

/// The idle ticks of all cores together.
pub open spec fn idle_sum(cores: Seq<CpuTicks>) -> nat
    decreases cores.len(),
{
    if cores.len() == 0 {
        0
    } else {
        idle_sum(cores.drop_last()) + cores.last().idle as nat
    }
}

/// The non-idle ticks of all cores together.
pub open spec fn non_idle_sum(cores: Seq<CpuTicks>) -> nat
    decreases cores.len(),
{
    if cores.len() == 0 {
        0
    } else {
        non_idle_sum(cores.drop_last()) + cores.last().non_idle as nat
    }
}

/// The counter obtained by adding up the per-core counters of one sample,
/// each side saturating at `u64::MAX`.
pub open spec fn cores_total(cores: Seq<CpuTicks>) -> CpuTicks {
    CpuTicks { idle: saturated(idle_sum(cores)), non_idle: saturated(non_idle_sum(cores)) }
}

/// The counter that overall usage is measured on: the sum of this cycle's
/// per-core counters where `use_current_sample` is set, and the kernel's
/// combined counter where it is not.
pub open spec fn authoritative_ticks(sample: CpuSample, use_current_sample: bool) -> CpuTicks {
    if use_current_sample {
        cores_total(sample.cores@)
    } else {
        sample.combined
    }
}

/// Adds up the per-core counters of one sample.
pub fn total_of_cores(cores: &Vec<CpuTicks>) -> (total: CpuTicks)
    ensures
        total == cores_total(cores@),
{
    let mut idle: u128 = 0;
    let mut non_idle: u128 = 0;
    let mut i: usize = 0;
    while i < cores.len()
        invariant
            i <= cores.len(),
            idle == idle_sum(cores@.take(i as int)),
            non_idle == non_idle_sum(cores@.take(i as int)),
            idle <= i * u64::MAX,
            non_idle <= i * u64::MAX,
        decreases cores.len() - i,
    {
        proof {
            assert(cores@.take(i + 1).drop_last() =~= cores@.take(i as int));
            assert((i + 1) * u64::MAX <= u128::MAX) by (nonlinear_arith)
                requires
                    i + 1 <= usize::MAX,
                    usize::MAX <= u64::MAX,
            ;
            assert((i + 1) * u64::MAX == i * u64::MAX + u64::MAX) by (nonlinear_arith);
        }
        idle = idle + cores[i].idle as u128;
        non_idle = non_idle + cores[i].non_idle as u128;
        i = i + 1;
    }
    proof {
        assert(cores@.take(i as int) =~= cores@);
    }
    CpuTicks { idle: saturate(idle), non_idle: saturate(non_idle) }
}

fn saturate(x: u128) -> (y: u64)
    ensures
        y == saturated(x as nat),
{
    if x > u64::MAX as u128 {
        u64::MAX
    } else {
        x as u64
    }
}

/// Picks the counter that overall usage is measured on.
pub fn authoritative(sample: &CpuSample, use_current_sample: bool) -> (ticks: CpuTicks)
    ensures
        ticks == authoritative_ticks(*sample, use_current_sample),
{
    if use_current_sample {
        total_of_cores(&sample.cores)
    } else {
        sample.combined
    }
}

/// The usage of core `i`: measured against the core's previous counter, and
/// `0` for a core that the previous sample did not have.
pub open spec fn core_percent(prev_cores: Seq<CpuTicks>, cores: Seq<CpuTicks>, i: int) -> u64 {
    if i < prev_cores.len() {
        usage_percent(prev_cores[i], cores[i])
    } else {
        0
    }
}

/// The usage of every core of a sample, in the sample's order.
pub open spec fn core_percents(prev_cores: Seq<CpuTicks>, cores: Seq<CpuTicks>) -> Seq<u64> {
    Seq::new(cores.len(), |i: int| core_percent(prev_cores, cores, i))
}

/// Computes the usage of every core of a sample.
pub fn per_core_usage(prev_cores: &Vec<CpuTicks>, cores: &Vec<CpuTicks>) -> (percents: Vec<u64>)
    ensures
        percents@ == core_percents(prev_cores@, cores@),
        forall|i: int| 0 <= i < percents@.len() ==> percents@[i] <= 100,
{
    let mut percents: Vec<u64> = Vec::new();
    let mut i: usize = 0;
    while i < cores.len()
        invariant
            i <= cores.len(),
            percents@.len() == i,
            forall|j: int| 0 <= j < i ==> percents@[j] == core_percent(prev_cores@, cores@, j),
            forall|j: int| 0 <= j < i ==> percents@[j] <= 100,
        decreases cores.len() - i,
    {
        let percent: u64 = if i < prev_cores.len() {
            cpu_usage_percent(prev_cores[i], cores[i])
        } else {
            0
        };
        percents.push(percent);
        i = i + 1;
    }
    assert(percents@ =~= core_percents(prev_cores@, cores@));
    percents
}

/// The figures of `percents` added up.
pub open spec fn percent_sum(percents: Seq<u64>) -> nat
    decreases percents.len(),
{
    if percents.len() == 0 {
        0
    } else {
        percent_sum(percents.drop_last()) + percents.last() as nat
    }
}

/// The mean of `percents`, rounded down; `0` for no figures at all.
pub open spec fn average_percent(percents: Seq<u64>) -> u64 {
    if percents.len() == 0 {
        0
    } else {
        (percent_sum(percents) / percents.len()) as u64
    }
}

/// A sum of figures is at most their count times any bound on each.
pub proof fn lemma_percent_sum_bounded(percents: Seq<u64>, bound: nat)
    requires
        forall|i: int| 0 <= i < percents.len() ==> percents[i] <= bound,
    ensures
        percent_sum(percents) <= percents.len() * bound,
    decreases percents.len(),
{
    if percents.len() > 0 {
        lemma_percent_sum_bounded(percents.drop_last(), bound);
        assert(percents.len() * bound == (percents.len() - 1) * bound + bound)
            by (nonlinear_arith);
    }
}

/// The mean of figures that are each at most `bound` is at most `bound`.
pub proof fn lemma_average_percent_bounded(percents: Seq<u64>, bound: nat)
    requires
        forall|i: int| 0 <= i < percents.len() ==> percents[i] <= bound,
        bound <= u64::MAX,
    ensures
        average_percent(percents) <= bound,
        percents.len() > 0 ==> average_percent(percents) == percent_sum(percents)
            / percents.len(),
{
    if percents.len() > 0 {
        lemma_percent_sum_bounded(percents, bound);
        let sum = percent_sum(percents);
        let count = percents.len();
        assert(sum / count <= bound) by (nonlinear_arith)
            requires
                count > 0,
                sum <= count * bound,
        ;
    }
}

/// Computes the mean of `percents`, rounded down.
pub fn average_usage(percents: &Vec<u64>) -> (average: u64)
    ensures
        average == average_percent(percents@),
{
    if percents.len() == 0 {
        return 0;
    }
    let mut sum: u128 = 0;
    let mut i: usize = 0;
    while i < percents.len()
        invariant
            i <= percents.len(),
            sum == percent_sum(percents@.take(i as int)),
            sum <= i * u64::MAX,
        decreases percents.len() - i,
    {
        proof {
            assert(percents@.take(i + 1).drop_last() =~= percents@.take(i as int));
            assert((i + 1) * u64::MAX <= u128::MAX) by (nonlinear_arith)
                requires
                    i + 1 <= usize::MAX,
                    usize::MAX <= u64::MAX,
            ;
            assert((i + 1) * u64::MAX == i * u64::MAX + u64::MAX) by (nonlinear_arith);
        }
        sum = sum + percents[i] as u128;
        i = i + 1;
    }
    proof {
        assert(percents@.take(i as int) =~= percents@);
        lemma_average_percent_bounded(percents@, u64::MAX as nat);
    }
    (sum / (percents.len() as u128)) as u64
}

/// The per-core part of a reading: the figures themselves, or their mean
/// alone where averaging is asked for.
pub open spec fn reported_cores(percents: Seq<u64>, average: bool) -> Seq<u64> {
    if average {
        seq![average_percent(percents)]
    } else {
        percents
    }
}

/// The CPU reading of a cycle, given the counters that the previous cycle
/// left behind.
pub open spec fn cpu_reading(
    prev_total: CpuTicks,
    prev_cores: Seq<CpuTicks>,
    sample: CpuSample,
    use_current_sample: bool,
    average: bool,
) -> CpuReading {
    CpuReading {
        overall: usage_percent(prev_total, authoritative_ticks(sample, use_current_sample)),
        per_core: reported_cores(core_percents(prev_cores, sample.cores@), average),
    }
}

/// Every figure of a CPU reading is a percentage.
pub proof fn lemma_cpu_reading_bounded(
    prev_total: CpuTicks,
    prev_cores: Seq<CpuTicks>,
    sample: CpuSample,
    use_current_sample: bool,
    average: bool,
)
    ensures
        ({
            let reading = cpu_reading(prev_total, prev_cores, sample, use_current_sample, average);
            &&& reading.overall <= 100
            &&& forall|i: int| 0 <= i < reading.per_core.len() ==> reading.per_core[i] <= 100
        }),
{
    let percents = core_percents(prev_cores, sample.cores@);
    assert forall|i: int| 0 <= i < percents.len() implies percents[i] <= 100 by {
        if i < prev_cores.len() {
            lemma_usage_percent_bounded(prev_cores[i], sample.cores@[i]);
        }
    }
    lemma_average_percent_bounded(percents, 100);
}

/// Computes the CPU reading of a cycle.
pub fn read_cpu(
    prev_total: CpuTicks,
    prev_cores: &Vec<CpuTicks>,
    sample: &CpuSample,
    use_current_sample: bool,
    average: bool,
) -> (harvest: CpuHarvest)
    ensures
        harvest@ == cpu_reading(prev_total, prev_cores@, *sample, use_current_sample, average),
        harvest.overall <= 100,
        forall|i: int| 0 <= i < harvest.per_core@.len() ==> harvest.per_core@[i] <= 100,
{
    let overall: u64 = cpu_usage_percent(prev_total, authoritative(sample, use_current_sample));
    let percents: Vec<u64> = per_core_usage(prev_cores, &sample.cores);
    proof {
        lemma_average_percent_bounded(percents@, 100);
    }
    let per_core: Vec<u64> = if average {
        let mean: u64 = average_usage(&percents);
        let mut single: Vec<u64> = Vec::new();
        single.push(mean);
        assert(single@ =~= seq![mean]);
        single
    } else {
        percents
    };
    CpuHarvest { overall, per_core }
}

} // verus!
