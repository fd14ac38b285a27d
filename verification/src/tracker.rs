//! The previous-sample state that turns cumulative counters into rates.

use crate::cpu::{
    authoritative, authoritative_ticks, cpu_reading, read_cpu, CpuHarvest, CpuReading, CpuSample,
    CpuTicks,
};
use crate::network::{network_reading, read_network, NetworkHarvest, NetworkSample};
use crate::processes::{
    find_record, observed_pids, process_readings, process_table, read_processes, record_of, Pid,
    PrevProcDetails, ProcessHarvest, ProcessSample,
};
use crate::snapshot::{cpu_view, list_view};
use crate::time::{elapsed_between, elapsed_millis, Timestamp};
use std::collections::HashMap;
use vstd::prelude::*;

verus! {

broadcast use vstd::std_specs::hash::group_hash_axioms;

/// The least that must be kept of the previous cycle: the CPU counters it
/// read, one record per process it saw, the network totals it read, and
/// when it started.
#[derive(Debug)]
pub struct DeltaTracker {
    prev_idle_ticks: u64,
    prev_non_idle_ticks: u64,
    prev_core_ticks: Vec<CpuTicks>,
    prev_proc: HashMap<Pid, PrevProcDetails>,
    prev_net_rx_total: u64,
    prev_net_tx_total: u64,
    prev_sample_time: Timestamp,
}

/// The mathematical content of a [`DeltaTracker`].
#[verifier::ext_equal]
pub struct TrackerState {
    /// The counter that overall CPU usage was last measured on.
    pub prev_cpu: CpuTicks,
    /// The per-core counters of the last CPU sample.
    pub prev_cores: Seq<CpuTicks>,
    /// One record per process of the last cycle.
    pub prev_proc: Map<Pid, PrevProcDetails>,
    pub prev_net_rx_total: u64,
    pub prev_net_tx_total: u64,
    /// When the last cycle started.
    pub prev_sample_time: Timestamp,
}

impl View for DeltaTracker {
    type V = TrackerState;

    closed spec fn view(&self) -> TrackerState {
        TrackerState {
            prev_cpu: CpuTicks { idle: self.prev_idle_ticks, non_idle: self.prev_non_idle_ticks },
            prev_cores: self.prev_core_ticks@,
            prev_proc: self.prev_proc@,
            prev_net_rx_total: self.prev_net_rx_total,
            prev_net_tx_total: self.prev_net_tx_total,
            prev_sample_time: self.prev_sample_time,
        }
    }
}

impl TrackerState {
    /// The state before any cycle: all counters at zero, no process known,
    /// the clock at `now`.
    pub open spec fn initial(now: Timestamp) -> TrackerState {
        TrackerState {
            prev_cpu: CpuTicks { idle: 0, non_idle: 0 },
            prev_cores: Seq::empty(),
            prev_proc: Map::empty(),
            prev_net_rx_total: 0,
            prev_net_tx_total: 0,
            prev_sample_time: now,
        }
    }

    /// The state after a cycle's CPU probe: a sample replaces the counters
    /// kept, and no sample leaves them as they were.
    pub open spec fn after_cpu(
        self,
        sample: Option<CpuSample>,
        use_current_sample: bool,
    ) -> TrackerState {
        match sample {
            Some(sample) => TrackerState {
                prev_cpu: authoritative_ticks(sample, use_current_sample),
                prev_cores: sample.cores@,
                ..self
            },
            None => self,
        }
    }

    /// The state after a cycle's process probe: the records are those of
    /// the processes it observed, and none where it observed nothing.
    pub open spec fn after_processes(
        self,
        samples: Option<Vec<ProcessSample>>,
        now: Timestamp,
    ) -> TrackerState {
        TrackerState {
            prev_proc: match samples {
                Some(samples) => process_table(samples@, now),
                None => Map::empty(),
            },
            ..self
        }
    }

    /// The state after a cycle's network probe: a sample's totals become
    /// the baseline, and no sample leaves the baseline as it was.
    pub open spec fn after_network(self, sample: Option<NetworkSample>) -> TrackerState {
        match sample {
            Some(sample) => TrackerState {
                prev_net_rx_total: sample.total_rx,
                prev_net_tx_total: sample.total_tx,
                ..self
            },
            None => self,
        }
    }

    /// The CPU reading that a cycle's CPU probe leads to: measured against
    /// the counters kept, and absent where the probe gave no sample.
    pub open spec fn cpu_reading_of(
        self,
        sample: Option<CpuSample>,
        use_current_sample: bool,
        average: bool,
    ) -> Option<CpuReading> {
        match sample {
            Some(sample) => Some(
                cpu_reading(self.prev_cpu, self.prev_cores, sample, use_current_sample, average),
            ),
            None => None,
        }
    }

    /// The process readings that a cycle's process probe leads to: each
    /// measured against the record kept of its id, and absent where the
    /// probe gave no sample.
    pub open spec fn process_readings_of(
        self,
        samples: Option<Vec<ProcessSample>>,
        now: Timestamp,
        ticks_per_second: u64,
        mem_total_kb: u64,
    ) -> Option<Seq<ProcessHarvest>> {
        match samples {
            Some(samples) => Some(
                process_readings(self.prev_proc, samples@, now, ticks_per_second, mem_total_kb),
            ),
            None => None,
        }
    }

    /// The network reading that a cycle's network probe leads to: measured
    /// against the totals kept, over the time since the previous cycle
    /// started, and absent where the probe gave no sample.
    pub open spec fn network_reading_of(
        self,
        sample: Option<NetworkSample>,
        now: Timestamp,
    ) -> Option<NetworkHarvest> {
        match sample {
            Some(sample) => Some(
                network_reading(
                    self.prev_net_rx_total,
                    self.prev_net_tx_total,
                    sample,
                    elapsed_millis(self.prev_sample_time, now),
                ),
            ),
            None => None,
        }
    }

    /// The state with the clock moved to the start of the cycle just run.
    pub open spec fn stamped(self, now: Timestamp) -> TrackerState {
        TrackerState { prev_sample_time: now, ..self }
    }
}

impl DeltaTracker {
    /// Makes the tracker of a collector that has not run a cycle yet.
    pub fn new(now: Timestamp) -> (tracker: DeltaTracker)
        ensures
            tracker@ == TrackerState::initial(now),
    {
        DeltaTracker {
            prev_idle_ticks: 0,
            prev_non_idle_ticks: 0,
            prev_core_ticks: Vec::new(),
            prev_proc: HashMap::new(),
            prev_net_rx_total: 0,
            prev_net_tx_total: 0,
            prev_sample_time: now,
        }
    }

    /// Takes in what a cycle's CPU probe gave: a sample is turned into a
    /// reading and its counters are kept for the next cycle; no sample
    /// gives no reading and changes nothing.
    pub fn observe_cpu(
        &mut self,
        sample: Option<CpuSample>,
        use_current_sample: bool,
        average: bool,
    ) -> (harvest: Option<CpuHarvest>)
        ensures
            cpu_view(harvest) == old(self)@.cpu_reading_of(sample, use_current_sample, average),
            final(self)@ == old(self)@.after_cpu(sample, use_current_sample),
            harvest matches Some(reading) ==> {
                &&& reading.overall <= 100
                &&& forall|i: int|
                    0 <= i < reading.per_core@.len() ==> reading.per_core@[i] <= 100
            },
    {
        match sample {
            Some(sample) => {
                let prev = CpuTicks {
                    idle: self.prev_idle_ticks,
                    non_idle: self.prev_non_idle_ticks,
                };
                let harvest = read_cpu(
                    prev,
                    &self.prev_core_ticks,
                    &sample,
                    use_current_sample,
                    average,
                );
                let ticks = authoritative(&sample, use_current_sample);
                self.prev_idle_ticks = ticks.idle;
                self.prev_non_idle_ticks = ticks.non_idle;
                self.prev_core_ticks = sample.cores;
                Some(harvest)
            },
            None => None,
        }
    }

    /// Takes in what a cycle's process probe gave: a sample is turned into
    /// readings, and the records kept are replaced by those of the
    /// processes in it; no sample gives no readings and leaves no record.
    pub fn observe_processes(
        &mut self,
        samples: Option<Vec<ProcessSample>>,
        now: Timestamp,
        ticks_per_second: u64,
        mem_total_kb: u64,
    ) -> (harvest: Option<Vec<ProcessHarvest>>)
        ensures
            list_view(harvest) == old(self)@.process_readings_of(
                samples,
                now,
                ticks_per_second,
                mem_total_kb,
            ),
            final(self)@ == old(self)@.after_processes(samples, now),
            final(self)@.prev_proc.dom() == match samples {
                Some(samples) => observed_pids(samples@),
                None => Set::empty(),
            },
    {
        match samples {
            Some(samples) => {
                let (harvest, records) = read_processes(
                    &self.prev_proc,
                    &samples,
                    now,
                    ticks_per_second,
                    mem_total_kb,
                );
                self.prev_proc = records;
                Some(harvest)
            },
            None => {
                self.prev_proc = HashMap::new();
                assert(self.prev_proc@.dom() =~= Set::<Pid>::empty());
                None
            },
        }
    }

    /// Takes in what a cycle's network probe gave: a sample is turned into
    /// a reading, measured over the time since the previous cycle started,
    /// and its totals are kept as the baseline; no sample gives no reading
    /// and changes nothing.
    pub fn observe_network(&mut self, sample: Option<NetworkSample>, now: Timestamp) -> (harvest:
        Option<NetworkHarvest>)
        ensures
            harvest == old(self)@.network_reading_of(sample, now),
            final(self)@ == old(self)@.after_network(sample),
    {
        match sample {
            Some(sample) => {
                let elapsed: u64 = elapsed_between(self.prev_sample_time, now);
                let harvest = read_network(
                    self.prev_net_rx_total,
                    self.prev_net_tx_total,
                    sample,
                    elapsed,
                );
                self.prev_net_rx_total = sample.total_rx;
                self.prev_net_tx_total = sample.total_tx;
                Some(harvest)
            },
            None => None,
        }
    }

    /// The counter that overall CPU usage was last measured on.
    pub fn prev_cpu(&self) -> (ticks: CpuTicks)
        ensures
            ticks == self@.prev_cpu,
    {
        CpuTicks { idle: self.prev_idle_ticks, non_idle: self.prev_non_idle_ticks }
    }

    /// The record kept of `pid`, if the last cycle saw that process.
    pub fn record(&self, pid: Pid) -> (record: Option<PrevProcDetails>)
        ensures
            record == record_of(self@.prev_proc, pid),
    {
        find_record(&self.prev_proc, pid)
    }

    /// The number of processes that a record is kept of.
    pub fn process_count(&self) -> (count: usize)
        ensures
            count == self@.prev_proc.len(),
    {
        self.prev_proc.len()
    }

    /// The received-bytes total that the next rate is measured from.
    pub fn prev_net_rx_total(&self) -> (total: u64)
        ensures
            total == self@.prev_net_rx_total,
    {
        self.prev_net_rx_total
    }

    /// The sent-bytes total that the next rate is measured from.
    pub fn prev_net_tx_total(&self) -> (total: u64)
        ensures
            total == self@.prev_net_tx_total,
    {
        self.prev_net_tx_total
    }

    /// When the last cycle started.
    pub fn prev_sample_time(&self) -> (time: Timestamp)
        ensures
            time == self@.prev_sample_time,
    {
        self.prev_sample_time
    }

    /// Moves the clock to the start of the cycle just run.
    pub fn stamp(&mut self, now: Timestamp)
        ensures
            final(self)@ == old(self)@.stamped(now),
    {
        self.prev_sample_time = now;
    }
}

} // verus!
