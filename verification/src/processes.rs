//! Per-process accounting against the previous cycle's records.

use crate::ratio::{saturated, scaled_div, scaled_quotient};
use crate::text::{
    fields_of, find_last, last_index_of, number_after, number_at, number_in, split_fields, tail,
    value_after,
};
use crate::time::{elapsed_between, elapsed_millis, Timestamp};
use std::collections::HashMap;
use vstd::prelude::*;
use vstd::string::StringSliceAdditionalSpecFns;

verus! {

broadcast use vstd::std_specs::hash::group_hash_axioms;

/// A process id. Ids are unique within one sample only: the operating
/// system hands them out again over time.
pub type Pid = i32;

/// What is remembered of a process from the cycle that last saw it.
#[derive(Clone, Copy, Debug, PartialEq, Eq)]
pub struct PrevProcDetails {
    /// The CPU ticks the process had used up by then.
    pub total_cpu_ticks: u64,
    /// When that cycle started.
    pub sample_time: Timestamp,
}

/// What the process probe reads of one process.
#[derive(Clone, Debug, PartialEq, Eq)]
pub struct ProcessSample {
    pub pid: Pid,
    pub parent_pid: Option<Pid>,
    pub name: String,
    /// CPU ticks used since the process started, user and system together.
    pub total_cpu_ticks: u64,
    pub mem_usage_kb: u64,
    /// Bytes read since the process started, where the platform tells.
    pub total_read_bytes: Option<u64>,
    /// Bytes written since the process started, where the platform tells.
    pub total_write_bytes: Option<u64>,
}

/// The reading of one process.
#[derive(Clone, Debug, PartialEq, Eq)]
pub struct ProcessHarvest {
    pub pid: Pid,
    pub parent_pid: Option<Pid>,
    pub name: String,
    /// CPU time used over the last interval, in percent of one core.
    pub cpu_usage_percent: u64,
    pub mem_usage_kb: u64,
    /// Resident memory in percent of the machine's physical memory.
    pub mem_usage_percent: u64,
    pub total_read_bytes: Option<u64>,
    pub total_write_bytes: Option<u64>,
}

/// The record kept of a process sampled at `now`.
pub open spec fn details_of(sample: ProcessSample, now: Timestamp) -> PrevProcDetails {
    PrevProcDetails { total_cpu_ticks: sample.total_cpu_ticks, sample_time: now }
}

/// The ticks a process gained since its previous record; none where the
/// counter went down, as it does when an id is handed out again.
pub open spec fn ticks_gained(prev_ticks: u64, ticks: u64) -> nat {
    if ticks >= prev_ticks {
        (ticks - prev_ticks) as nat
    } else {
        0
    }
}

/// The CPU usage of a process over the interval since its previous record:
/// `gained / (seconds * ticks_per_second) * 100`, rounded down and
/// saturating at `u64::MAX`. The figure is a share of one core: on several
/// cores a process can exceed `100`. A process without a previous record
/// has usage `0`, and so has any process over an interval of no length or
/// on a clock of no ticks.
pub open spec fn process_cpu_percent(
    prev: Option<PrevProcDetails>,
    total_cpu_ticks: u64,
    now: Timestamp,
    ticks_per_second: u64,
) -> u64 {
    match prev {
        None => 0,
        Some(record) => saturated(
            scaled_quotient(
                ticks_gained(record.total_cpu_ticks, total_cpu_ticks),
                100_000,
                elapsed_millis(record.sample_time, now) as nat * ticks_per_second as nat,
            ),
        ),
    }
}

/// Resident memory in percent of `mem_total_kb`, rounded down and
/// saturating at `u64::MAX`; `0` where the total is unknown.
pub open spec fn memory_percent(mem_usage_kb: u64, mem_total_kb: u64) -> u64 {
    saturated(scaled_quotient(mem_usage_kb as nat, 100, mem_total_kb as nat))
}

/// The reading of one process, given its previous record if it has one.
pub open spec fn process_reading(
    prev: Option<PrevProcDetails>,
    sample: ProcessSample,
    now: Timestamp,
    ticks_per_second: u64,
    mem_total_kb: u64,
) -> ProcessHarvest {
    ProcessHarvest {
        pid: sample.pid,
        parent_pid: sample.parent_pid,
        name: sample.name,
        cpu_usage_percent: process_cpu_percent(
            prev,
            sample.total_cpu_ticks,
            now,
            ticks_per_second,
        ),
        mem_usage_kb: sample.mem_usage_kb,
        mem_usage_percent: memory_percent(sample.mem_usage_kb, mem_total_kb),
        total_read_bytes: sample.total_read_bytes,
        total_write_bytes: sample.total_write_bytes,
    }
}

/// The record that `table` holds of `pid`, if any.
pub open spec fn record_of(table: Map<Pid, PrevProcDetails>, pid: Pid) -> Option<
    PrevProcDetails,
> {
    if table.contains_key(pid) {
        Some(table[pid])
    } else {
        None
    }
}

/// The readings of all processes of a sample, in the sample's order, each
/// measured against the record that `table` holds of its id.
pub open spec fn process_readings(
    table: Map<Pid, PrevProcDetails>,
    samples: Seq<ProcessSample>,
    now: Timestamp,
    ticks_per_second: u64,
    mem_total_kb: u64,
) -> Seq<ProcessHarvest> {
    Seq::new(
        samples.len(),
        |i: int|
            process_reading(
                record_of(table, samples[i].pid),
                samples[i],
                now,
                ticks_per_second,
                mem_total_kb,
            ),
    )
}

/// The ids that occur in a sample.
pub open spec fn observed_pids(samples: Seq<ProcessSample>) -> Set<Pid> {
    Set::new(|pid: Pid| exists|i: int| 0 <= i < samples.len() && #[trigger] samples[i].pid == pid)
}

/// The records that a cycle started at `now` leaves behind: one for each id
/// of the sample and no other. Where an id occurs twice, its later
/// occurrence counts.
pub open spec fn process_table(samples: Seq<ProcessSample>, now: Timestamp) -> Map<
    Pid,
    PrevProcDetails,
>
    decreases samples.len(),
{
    if samples.len() == 0 {
        Map::empty()
    } else {
        process_table(samples.drop_last(), now).insert(
            samples.last().pid,
            details_of(samples.last(), now),
        )
    }
}

/// The records left behind are keyed by exactly the ids that were observed.
pub proof fn lemma_process_table_keys(samples: Seq<ProcessSample>, now: Timestamp)
    ensures
        process_table(samples, now).dom() == observed_pids(samples),
    decreases samples.len(),
{
    if samples.len() == 0 {
        assert(process_table(samples, now).dom() =~= observed_pids(samples));
    } else {
        let front = samples.drop_last();
        lemma_process_table_keys(front, now);
        assert forall|pid: Pid|
            process_table(samples, now).dom().contains(pid) <==> observed_pids(samples).contains(
                pid,
            ) by {
            if observed_pids(samples).contains(pid) {
                let i = choose|i: int| 0 <= i < samples.len() && #[trigger] samples[i].pid == pid;
                if i < samples.len() - 1 {
                    assert(front[i].pid == pid);
                    assert(observed_pids(front).contains(pid));
                }
            }
            if process_table(samples, now).dom().contains(pid) {
                if pid == samples.last().pid {
                    assert(samples[samples.len() - 1].pid == pid);
                } else {
                    assert(observed_pids(front).contains(pid));
                    let i = choose|i: int| 0 <= i < front.len() && #[trigger] front[i].pid == pid;
                    assert(samples[i].pid == pid);
                }
            }
        }
        assert(process_table(samples, now).dom() =~= observed_pids(samples));
    }
}

/// Every record left behind stems from the last sample that carries its id,
/// and is stamped with the cycle's start.
pub proof fn lemma_process_table_values(samples: Seq<ProcessSample>, now: Timestamp, i: int)
    requires
        0 <= i < samples.len(),
        forall|j: int| i < j < samples.len() ==> samples[j].pid != samples[i].pid,
    ensures
        process_table(samples, now).contains_key(samples[i].pid),
        process_table(samples, now)[samples[i].pid] == details_of(samples[i], now),
    decreases samples.len(),
{
    if i < samples.len() - 1 {
        let front = samples.drop_last();
        assert(front[i] == samples[i]);
        assert forall|j: int| i < j < front.len() implies front[j].pid != front[i].pid by {
            assert(front[j] == samples[j]);
        }
        lemma_process_table_values(front, now, i);
        assert(samples.last().pid != samples[i].pid);
    }
}

/// Every record left behind is stamped with the cycle's start.
pub proof fn lemma_process_table_stamps(samples: Seq<ProcessSample>, now: Timestamp)
    ensures
        forall|pid: Pid| #[trigger]
            process_table(samples, now).contains_key(pid) ==> process_table(
                samples,
                now,
            )[pid].sample_time == now,
    decreases samples.len(),
{
    if samples.len() > 0 {
        let front = process_table(samples.drop_last(), now);
        lemma_process_table_stamps(samples.drop_last(), now);
        assert forall|pid: Pid| #[trigger]
            process_table(samples, now).contains_key(pid) implies process_table(
            samples,
            now,
        )[pid].sample_time == now by {
            if pid != samples.last().pid {
                assert(front.contains_key(pid));
            }
        }
    }
}

/// Over whole seconds the usage of a known process is
/// `gained / (seconds * ticks_per_second) * 100`, rounded down once.
pub proof fn lemma_process_cpu_percent_over_seconds(
    record: PrevProcDetails,
    total_cpu_ticks: u64,
    seconds: u64,
    ticks_per_second: u64,
)
    requires
        total_cpu_ticks >= record.total_cpu_ticks,
        seconds > 0,
        ticks_per_second > 0,
        record.sample_time + seconds * 1000 <= u64::MAX,
        (total_cpu_ticks - record.total_cpu_ticks) * 100 <= u64::MAX,
    ensures
        process_cpu_percent(
            Some(record),
            total_cpu_ticks,
            (record.sample_time + seconds * 1000) as u64,
            ticks_per_second,
        ) == ((total_cpu_ticks - record.total_cpu_ticks) * 100) / (seconds * ticks_per_second),
{
    let gained = (total_cpu_ticks - record.total_cpu_ticks) as nat;
    let now = (record.sample_time + seconds * 1000) as u64;
    let interval = (seconds * ticks_per_second) as nat;
    assert(elapsed_millis(record.sample_time, now) == seconds * 1000);
    assert((seconds * 1000) as nat * ticks_per_second as nat == interval * 1000)
        by (nonlinear_arith)
        requires
            interval == seconds * ticks_per_second,
    ;
    assert(interval > 0) by (nonlinear_arith)
        requires
            interval == seconds * ticks_per_second,
            seconds > 0,
            ticks_per_second > 0,
    ;
    assert((gained * 100_000) / (interval * 1000) == (gained * 100) / interval)
        by (nonlinear_arith)
        requires
            interval > 0,
    ;
    assert((gained * 100) / interval <= gained * 100) by (nonlinear_arith)
        requires
            interval > 0,
    ;
}

/// The parent that the kernel names for a process: none where it names
/// `0`, or a number that is no process id.
pub open spec fn parent_of(number: u64) -> Option<Pid> {
    if 0 < number <= i32::MAX {
        Some(number as i32)
    } else {
        None
    }
}

/// The sample that the kernel's one-line status record of a process
/// holds. The record names the command in brackets, which may hold
/// anything; the fields after the last closing bracket are counted from
/// `0`: the parent is field 1, the ticks used in user and in system mode
/// fields 11 and 12, the resident pages field 21. Ticks add up and pages
/// become kilobytes, both saturating at `u64::MAX`. A record without a
/// bracket, or with one of the four fields missing or not a number, holds
/// no sample. The bytes read and written are the numbers behind
/// `read_bytes:` and `write_bytes:` in the process's I/O table `io`, each
/// absent where the table does not tell.
pub open spec fn stat_sample(
    pid: Pid,
    name: String,
    stat: Seq<u8>,
    io: Seq<u8>,
    page_file_size_kb: u64,
) -> Option<ProcessSample> {
    match last_index_of(stat, 41) {
        None => None,
        Some(close) => {
            let fields = fields_of(tail(stat, close + 1));
            match (
                number_in(fields, 1),
                number_in(fields, 11),
                number_in(fields, 12),
                number_in(fields, 21),
            ) {
                (Some(parent), Some(user), Some(system), Some(resident)) => Some(
                    ProcessSample {
                        pid,
                        parent_pid: parent_of(parent),
                        name,
                        total_cpu_ticks: saturated((user + system) as nat),
                        mem_usage_kb: saturated((resident * page_file_size_kb) as nat),
                        total_read_bytes: value_after(fields_of(io), "read_bytes:".spec_bytes()),
                        total_write_bytes: value_after(
                            fields_of(io),
                            "write_bytes:".spec_bytes(),
                        ),
                    },
                ),
                _ => None,
            }
        },
    }
}

/// Reads the sample of a process out of the kernel's one-line status
/// record of it and its I/O table; the table is empty where the caller
/// may not read it.
pub fn sample_from_stat(
    pid: Pid,
    name: String,
    stat: &[u8],
    io: &[u8],
    page_file_size_kb: u64,
) -> (sample: Option<ProcessSample>)
    ensures
        sample == stat_sample(pid, name, stat@, io@, page_file_size_kb),
{
    let close: usize = match find_last(stat, 41) {
        Some(close) => close,
        None => {
            return None;
        },
    };
    let fields = split_fields(stat, close + 1);
    let parent: u64 = match number_at(&fields, 1) {
        Some(parent) => parent,
        None => {
            return None;
        },
    };
    let user: u64 = match number_at(&fields, 11) {
        Some(user) => user,
        None => {
            return None;
        },
    };
    let system: u64 = match number_at(&fields, 12) {
        Some(system) => system,
        None => {
            return None;
        },
    };
    let resident: u64 = match number_at(&fields, 21) {
        Some(resident) => resident,
        None => {
            return None;
        },
    };
    let parent_pid: Option<Pid> = if 0 < parent && parent <= 0x7fff_ffff {
        Some(parent as i32)
    } else {
        None
    };
    proof {
        assert(tail(io@, 0) =~= io@);
    }
    let counts = split_fields(io, 0);
    Some(
        ProcessSample {
            pid,
            parent_pid,
            name,
            total_cpu_ticks: user.saturating_add(system),
            mem_usage_kb: scaled_div(resident, page_file_size_kb, 1),
            total_read_bytes: number_after(&counts, "read_bytes:".as_bytes()),
            total_write_bytes: number_after(&counts, "write_bytes:".as_bytes()),
        },
    )
}

/// Computes the CPU usage of one process.
pub fn cpu_percent_of(
    prev: Option<PrevProcDetails>,
    total_cpu_ticks: u64,
    now: Timestamp,
    ticks_per_second: u64,
) -> (percent: u64)
    ensures
        percent == process_cpu_percent(prev, total_cpu_ticks, now, ticks_per_second),
        prev is None ==> percent == 0,
{
    match prev {
        None => 0,
        Some(record) => {
            let gained: u64 = if total_cpu_ticks >= record.total_cpu_ticks {
                total_cpu_ticks - record.total_cpu_ticks
            } else {
                0
            };
            let elapsed: u64 = elapsed_between(record.sample_time, now);
            assert(elapsed * ticks_per_second <= u128::MAX) by (nonlinear_arith)
                requires
                    elapsed <= u64::MAX,
                    ticks_per_second <= u64::MAX,
            ;
            let ticks_in_interval: u128 = (elapsed as u128) * (ticks_per_second as u128);
            scaled_div(gained, 100_000, ticks_in_interval)
        },
    }
}

/// Computes resident memory in percent of the machine's physical memory.
pub fn memory_percent_of(mem_usage_kb: u64, mem_total_kb: u64) -> (percent: u64)
    ensures
        percent == memory_percent(mem_usage_kb, mem_total_kb),
{
    scaled_div(mem_usage_kb, 100, mem_total_kb as u128)
}

/// Computes the reading of one process.
pub fn read_process(
    prev: Option<PrevProcDetails>,
    sample: &ProcessSample,
    now: Timestamp,
    ticks_per_second: u64,
    mem_total_kb: u64,
) -> (harvest: ProcessHarvest)
    ensures
        harvest == process_reading(prev, *sample, now, ticks_per_second, mem_total_kb),
        prev is None ==> harvest.cpu_usage_percent == 0,
{
    ProcessHarvest {
        pid: sample.pid,
        parent_pid: sample.parent_pid,
        name: sample.name.clone(),
        cpu_usage_percent: cpu_percent_of(prev, sample.total_cpu_ticks, now, ticks_per_second),
        mem_usage_kb: sample.mem_usage_kb,
        mem_usage_percent: memory_percent_of(sample.mem_usage_kb, mem_total_kb),
        total_read_bytes: sample.total_read_bytes,
        total_write_bytes: sample.total_write_bytes,
    }
}

/// Looks up the record that `table` holds of `pid`.
pub fn find_record(table: &HashMap<Pid, PrevProcDetails>, pid: Pid) -> (record: Option<
    PrevProcDetails,
>)
    ensures
        record == record_of(table@, pid),
{
    match table.get(&pid) {
        Some(found) => Some(*found),
        None => None,
    }
}

/// Computes the readings of all processes of a sample against the records
/// in `table`, and the records that replace them: one for each id of the
/// sample and no other.
pub fn read_processes(
    table: &HashMap<Pid, PrevProcDetails>,
    samples: &Vec<ProcessSample>,
    now: Timestamp,
    ticks_per_second: u64,
    mem_total_kb: u64,
) -> (result: (Vec<ProcessHarvest>, HashMap<Pid, PrevProcDetails>))
    ensures
        result.0@ == process_readings(table@, samples@, now, ticks_per_second, mem_total_kb),
        result.1@ == process_table(samples@, now),
        result.1@.dom() == observed_pids(samples@),
{
    let mut harvest: Vec<ProcessHarvest> = Vec::new();
    let mut records: HashMap<Pid, PrevProcDetails> = HashMap::new();
    let mut i: usize = 0;
    while i < samples.len()
        invariant
            i <= samples.len(),
            harvest@.len() == i,
            forall|j: int|
                0 <= j < i ==> harvest@[j] == process_reading(
                    record_of(table@, samples@[j].pid),
                    samples@[j],
                    now,
                    ticks_per_second,
                    mem_total_kb,
                ),
            records@ == process_table(samples@.take(i as int), now),
        decreases samples.len() - i,
    {
        let sample = &samples[i];
        let prev: Option<PrevProcDetails> = find_record(table, sample.pid);
        harvest.push(read_process(prev, sample, now, ticks_per_second, mem_total_kb));
        records.insert(
            sample.pid,
            PrevProcDetails { total_cpu_ticks: sample.total_cpu_ticks, sample_time: now },
        );
        proof {
            assert(samples@.take(i + 1).drop_last() =~= samples@.take(i as int));
        }
        i = i + 1;
    }
    proof {
        assert(samples@.take(i as int) =~= samples@);
        assert(harvest@ =~= process_readings(
            table@,
            samples@,
            now,
            ticks_per_second,
            mem_total_kb,
        ));
        lemma_process_table_keys(samples@, now);
    }
    (harvest, records)
}

} // verus!
