//! The collector: one harvesting cycle from the probes' outcomes to a
//! snapshot.

use crate::config::{Configuration, Domain, TemperatureType, UsedWidgets};
use crate::cpu::{authoritative_ticks, cpu_reading, lemma_cpu_reading_bounded};
use crate::network::network_reading;
use crate::platform::{Platform, ProbeVariant, RefreshPlan};
use crate::processes::{
    lemma_process_table_keys, lemma_process_table_stamps, observed_pids, process_readings,
    process_table, Pid, PrevProcDetails,
};
use crate::probe::{settle, settle_list, settle_table, settled, settled_list, settled_table};
use crate::sample::Sample;
use crate::snapshot::{list_view, table_view, Data, Snapshot};
use crate::temperature::{read_temperatures, temp_readings_of, TempHarvest};
use crate::time::{elapsed_millis, Timestamp};
use crate::tracker::{DeltaTracker, TrackerState};
use vstd::prelude::*;

verus! {

/// Runs the harvesting cycles of a process. It owns the snapshot, the
/// previous-sample state and the settings, and it does no I/O itself: the
/// caller runs the probes and hands in what they found.
#[derive(Debug)]
pub struct DataCollector {
    /// The snapshot of the latest cycle.
    pub data: Data,
    tracker: DeltaTracker,
    config: Configuration,
    mem_total_kb: u64,
    battery_enabled: bool,
    platform: Platform,
    clock_ticks_per_second: u64,
}

/// The mathematical content of a [`DataCollector`].
#[verifier::ext_equal]
pub struct CollectorState {
    pub data: Snapshot,
    pub tracker: TrackerState,
    pub config: Configuration,
    /// The machine's physical memory, known from `init` on.
    pub mem_total_kb: u64,
    /// Whether `init` found a battery to report on.
    pub battery_enabled: bool,
    pub platform: Platform,
    /// The kernel's tick rate, in which process CPU time is counted.
    pub clock_ticks_per_second: u64,
}

impl View for DataCollector {
    type V = CollectorState;

    closed spec fn view(&self) -> CollectorState {
        CollectorState {
            data: self.data@,
            tracker: self.tracker@,
            config: self.config,
            mem_total_kb: self.mem_total_kb,
            battery_enabled: self.battery_enabled,
            platform: self.platform,
            clock_ticks_per_second: self.clock_ticks_per_second,
        }
    }
}

impl CollectorState {
    /// The collector before `init`: an empty snapshot, a tracker that has
    /// seen nothing, the initial settings, no memory total and no battery.
    pub open spec fn initial(
        now: Timestamp,
        platform: Platform,
        clock_ticks_per_second: u64,
    ) -> CollectorState {
        CollectorState {
            data: Snapshot::empty(now),
            tracker: TrackerState::initial(now),
            config: Configuration::initial(),
            mem_total_kb: 0,
            battery_enabled: false,
            platform,
            clock_ticks_per_second,
        }
    }

    /// Whether this collector harvests `domain`: the domain is active, and
    /// for batteries `init` found one.
    pub open spec fn harvests(self, domain: Domain) -> bool {
        self.config.active_domains.enables(domain) && (domain is Battery ==> self.battery_enabled)
    }

    /// The processes that a cycle observes: those of the probe's list where
    /// the domain is active and the probe succeeded, and none otherwise.
    pub open spec fn observes(self, sample: Sample) -> Set<Pid> {
        match settled_list(self.config.active_domains.use_proc, sample.processes) {
            Some(processes) => observed_pids(processes@),
            None => Set::empty(),
        }
    }

    /// Whether this collector reports on batteries: `init` found one, and
    /// the domain is active.
    pub open spec fn reports_batteries(self) -> bool {
        self.harvests(Domain::Battery)
    }

    /// The snapshot of a cycle that starts at `now` and whose probes found
    /// `sample`. It replaces the previous snapshot whole. The field of a
    /// domain that is switched off is absent whatever its probe found, and
    /// so is that of a probe that failed or found nothing. CPU, process and
    /// network readings are measured against the tracker, temperatures are
    /// converted to the configured unit, and the other readings are the
    /// probes' own.
    pub open spec fn snapshot_of(self, now: Timestamp, sample: Sample) -> Snapshot {
        let active = self.config.active_domains;
        Snapshot {
            collected_at: now,
            cpu: self.tracker.cpu_reading_of(
                settled(active.use_cpu, sample.cpu),
                self.config.cpu_total_uses_current_sample,
                self.config.average_cpu_across_cores,
            ),
            memory: settled(active.use_mem, sample.memory),
            swap: settled(active.use_mem, sample.swap),
            temperatures: temp_readings_of(
                self.config.temperature_unit,
                settled_list(active.use_temp, sample.temperature),
            ),
            network: self.tracker.network_reading_of(settled(active.use_net, sample.network), now),
            processes: self.tracker.process_readings_of(
                settled_list(active.use_proc, sample.processes),
                now,
                self.clock_ticks_per_second,
                self.mem_total_kb,
            ),
            disks: list_view(settled_list(active.use_disk, sample.disks)),
            disk_io: table_view(settled_table(active.use_disk, sample.io)),
            batteries: list_view(settled_list(self.reports_batteries(), sample.batteries)),
        }
    }

    /// The tracker after a cycle that starts at `now` and whose probes
    /// found `sample`: it keeps the counters of the CPU and network samples
    /// that were used, holds a record for exactly the processes that were
    /// observed, and has its clock at `now`.
    pub open spec fn tracker_after(self, now: Timestamp, sample: Sample) -> TrackerState {
        let active = self.config.active_domains;
        self.tracker.after_cpu(
            settled(active.use_cpu, sample.cpu),
            self.config.cpu_total_uses_current_sample,
        ).after_processes(settled_list(active.use_proc, sample.processes), now).after_network(
            settled(active.use_net, sample.network),
        ).stamped(now)
    }

    /// The collector after a cycle that starts at `now` and whose probes
    /// found `sample`.
    pub open spec fn after_update(self, now: Timestamp, sample: Sample) -> CollectorState {
        CollectorState {
            data: self.snapshot_of(now, sample),
            tracker: self.tracker_after(now, sample),
            ..self
        }
    }

    /// Whether the bootstrap enables battery reporting: the domain is
    /// active and the enumeration found at least one device.
    pub open spec fn finds_batteries(self, batteries_found: Option<usize>) -> bool {
        self.config.active_domains.use_battery && match batteries_found {
            Some(count) => count > 0,
            None => false,
        }
    }

    /// The collector after the bootstrap: the memory total is cached,
    /// battery reporting is settled for good, one seed cycle has run to
    /// fill the tracker, and the seed's values are discarded from the
    /// snapshot.
    pub open spec fn after_init(
        self,
        mem_total_kb: u64,
        batteries_found: Option<usize>,
        now: Timestamp,
        seed: Sample,
    ) -> CollectorState {
        let prepared = CollectorState {
            mem_total_kb,
            battery_enabled: self.finds_batteries(batteries_found),
            ..self
        };
        let seeded = prepared.after_update(now, seed);
        CollectorState { data: seeded.data.cleaned(), ..seeded }
    }
}

impl DataCollector {
    /// Makes a collector for `platform`, with the clock at `now` and
    /// process CPU time counted in ticks of `clock_ticks_per_second`.
    pub fn new(now: Timestamp, platform: Platform, clock_ticks_per_second: u64) -> (collector:
        DataCollector)
        ensures
            collector@ == CollectorState::initial(now, platform, clock_ticks_per_second),
    {
        DataCollector {
            data: Data::new(now),
            tracker: DeltaTracker::new(now),
            config: Configuration::default(),
            mem_total_kb: 0,
            battery_enabled: false,
            platform,
            clock_ticks_per_second,
        }
    }

    /// The snapshot of the latest cycle, for callers that reason about it.
    pub fn data(&self) -> (data: &Data)
        ensures
            data@ == self@.data,
    {
        &self.data
    }

    /// The previous-sample state.
    pub fn tracker(&self) -> (tracker: &DeltaTracker)
        ensures
            tracker@ == self@.tracker,
    {
        &self.tracker
    }

    /// The settings that the next cycle runs under.
    pub fn config(&self) -> (config: Configuration)
        ensures
            config == self@.config,
    {
        self.config
    }

    /// The machine's physical memory as `init` cached it, in kilobytes.
    pub fn mem_total_kb(&self) -> (total: u64)
        ensures
            total == self@.mem_total_kb,
    {
        self.mem_total_kb
    }

    /// Whether `init` should try to enumerate the batteries.
    pub fn wants_batteries(&self) -> (wanted: bool)
        ensures
            wanted == self@.config.active_domains.use_battery,
    {
        self.config.active_domains.use_battery
    }

    /// Whether the next cycle reports on batteries, so that their probe is
    /// worth running.
    pub fn reports_batteries(&self) -> (reported: bool)
        ensures
            reported == self@.reports_batteries(),
    {
        self.battery_enabled && self.config.active_domains.use_battery
    }

    /// Decides what the portable library refreshes before the next cycle's
    /// probes run.
    pub fn refresh_plan(&self) -> (plan: RefreshPlan)
        ensures
            plan == self@.platform.refreshes(self@.config.active_domains),
    {
        self.platform.refresh_plan(&self.config.active_domains)
    }

    /// Picks the strategy that probes `domain` on the collector's platform.
    pub fn probe_variant(&self, domain: Domain) -> (variant: ProbeVariant)
        ensures
            variant == self@.platform.variant_for(domain),
    {
        self.platform.probe_variant(domain)
    }

    /// Bootstraps the collector. The caller reads the machine's physical
    /// memory, enumerates the batteries if the collector
    /// [wants them](Self::wants_batteries) (`None` where that failed), runs
    /// the probes of one seed cycle, and hands all of it in; afterwards it
    /// lets some hundred milliseconds pass before the first real cycle.
    pub fn init(
        &mut self,
        mem_total_kb: u64,
        batteries_found: Option<usize>,
        now: Timestamp,
        seed: Sample,
    )
        ensures
            final(self)@ == old(self)@.after_init(mem_total_kb, batteries_found, now, seed),
    {
        self.mem_total_kb = mem_total_kb;
        self.battery_enabled = self.config.active_domains.use_battery && match batteries_found {
            Some(count) => count > 0,
            None => false,
        };
        self.update_data(now, seed);
        self.data.cleanup();
    }

    /// Sets which domains are harvested, from the next cycle on.
    pub fn set_collected_data(&mut self, used_widgets: UsedWidgets)
        ensures
            final(self)@ == (CollectorState {
                config: Configuration { active_domains: used_widgets, ..old(self)@.config },
                ..old(self)@
            }),
    {
        self.config.active_domains = used_widgets;
    }

    /// Sets the unit of temperature readings, from the next cycle on.
    pub fn set_temperature_type(&mut self, temperature_type: TemperatureType)
        ensures
            final(self)@ == (CollectorState {
                config: Configuration { temperature_unit: temperature_type, ..old(self)@.config },
                ..old(self)@
            }),
    {
        self.config.temperature_unit = temperature_type;
    }

    /// Sets whether overall CPU usage is measured on the sum of the cycle's
    /// per-core counters rather than on the kernel's combined counter.
    pub fn set_use_current_cpu_total(&mut self, use_current_cpu_total: bool)
        ensures
            final(self)@ == (CollectorState {
                config: Configuration {
                    cpu_total_uses_current_sample: use_current_cpu_total,
                    ..old(self)@.config
                },
                ..old(self)@
            }),
    {
        self.config.cpu_total_uses_current_sample = use_current_cpu_total;
    }

    /// Sets whether one averaged figure is reported in place of the
    /// per-core figures.
    pub fn set_show_average_cpu(&mut self, show_average_cpu: bool)
        ensures
            final(self)@ == (CollectorState {
                config: Configuration {
                    average_cpu_across_cores: show_average_cpu,
                    ..old(self)@.config
                },
                ..old(self)@
            }),
    {
        self.config.average_cpu_across_cores = show_average_cpu;
    }

    /// Runs one cycle on what the probes found. First the part that works
    /// on the tracker, in order: CPU, batteries, processes. Then the
    /// outcomes of the independent probes: network, memory, swap, disks,
    /// disk I/O, temperatures. At the end the snapshot and the tracker are
    /// both stamped with the cycle's start.
    pub fn update_data(&mut self, now: Timestamp, sample: Sample)
        ensures
            final(self)@ == old(self)@.after_update(now, sample),
            forall|domain: Domain| #[trigger]
                final(self)@.data.lacks(domain) <==> !(old(self)@.harvests(domain)
                    && sample.found(domain)),
            final(self)@.tracker.prev_proc.dom() == old(self)@.observes(sample),
            final(self)@.data.collected_at == now,
            final(self)@.tracker.prev_sample_time == now,
            final(self)@.config == old(self)@.config,
    {
        let active = self.config.active_domains;

        let cpu = self.tracker.observe_cpu(
            settle(active.use_cpu, sample.cpu),
            self.config.cpu_total_uses_current_sample,
            self.config.average_cpu_across_cores,
        );
        let list_of_batteries = settle_list(
            self.battery_enabled && active.use_battery,
            sample.batteries,
        );
        let list_of_processes = self.tracker.observe_processes(
            settle_list(active.use_proc, sample.processes),
            now,
            self.clock_ticks_per_second,
            self.mem_total_kb,
        );

        let network = self.tracker.observe_network(settle(active.use_net, sample.network), now);
        let memory = settle(active.use_mem, sample.memory);
        let swap = settle(active.use_mem, sample.swap);
        let disks = settle_list(active.use_disk, sample.disks);
        let io = settle_table(active.use_disk, sample.io);
        let temperature_sensors: Option<Vec<TempHarvest>> = match settle_list(
            active.use_temp,
            sample.temperature,
        ) {
            Some(sensors) => Some(read_temperatures(self.config.temperature_unit, &sensors)),
            None => None,
        };

        self.data = Data {
            last_collection_time: now,
            cpu,
            memory,
            swap,
            temperature_sensors,
            network,
            list_of_processes,
            disks,
            io,
            list_of_batteries,
        };
        self.tracker.stamp(now);
        proof {
            assert(self.data@ =~~= old(self)@.snapshot_of(now, sample));
            assert(self.tracker@ =~~= old(self)@.tracker_after(now, sample));
            lemma_tracker_holds_observed_processes(old(self)@, now, sample);
            assert forall|domain: Domain| #[trigger]
                self@.data.lacks(domain) <==> !(old(self)@.harvests(domain) && sample.found(
                    domain,
                )) by {
                lemma_absent_exactly_when_not_harvested(old(self)@, now, sample, domain);
            }
        }
    }
}

/// A cycle leaves the field of every domain that is switched off absent,
/// whatever the domain's probe found.
pub proof fn lemma_inactive_domain_is_absent(
    state: CollectorState,
    now: Timestamp,
    sample: Sample,
    domain: Domain,
)
    requires
        !state.config.active_domains.enables(domain),
    ensures
        state.after_update(now, sample).data.lacks(domain),
{
}

/// After a cycle a field is absent exactly when its domain is not
/// harvested, or its probe failed or found nothing.
pub proof fn lemma_absent_exactly_when_not_harvested(
    state: CollectorState,
    now: Timestamp,
    sample: Sample,
    domain: Domain,
)
    ensures
        state.after_update(now, sample).data.lacks(domain) <==> !(state.harvests(domain)
            && sample.found(domain)),
{
}

/// After a cycle the tracker holds a record for exactly the processes that
/// the cycle's process probe observed: none is stale, none is missing.
pub proof fn lemma_tracker_holds_observed_processes(
    state: CollectorState,
    now: Timestamp,
    sample: Sample,
)
    ensures
        state.after_update(now, sample).tracker.prev_proc.dom() == state.observes(sample),
{
    match settled_list(state.config.active_domains.use_proc, sample.processes) {
        Some(processes) => {
            lemma_process_table_keys(processes@, now);
        },
        None => {
            assert(Map::<Pid, PrevProcDetails>::empty().dom() =~= Set::<Pid>::empty());
        },
    }
}

/// A cycle stamps the snapshot, the tracker's clock and every process
/// record with the same time, the cycle's start: the next cycle measures
/// every rate over the time between two cycle starts.
pub proof fn lemma_cycle_stamps_agree(state: CollectorState, now: Timestamp, sample: Sample)
    ensures
        ({
            let next = state.after_update(now, sample);
            &&& next.data.collected_at == now
            &&& next.tracker.prev_sample_time == now
            &&& forall|pid: Pid| #[trigger]
                next.tracker.prev_proc.contains_key(pid) ==> next.tracker.prev_proc[pid].sample_time
                    == now
        }),
{
    match settled_list(state.config.active_domains.use_proc, sample.processes) {
        Some(processes) => {
            lemma_process_table_stamps(processes@, now);
        },
        None => {},
    }
}

/// A process that the previous cycle did not see is reported with CPU
/// usage `0`.
pub proof fn lemma_new_process_reports_zero(
    state: CollectorState,
    now: Timestamp,
    sample: Sample,
    i: int,
)
    requires
        settled_list(state.config.active_domains.use_proc, sample.processes) matches Some(
            processes,
        ) && 0 <= i < processes@.len() && !state.tracker.prev_proc.contains_key(processes@[i].pid),
    ensures
        state.after_update(now, sample).data.processes matches Some(readings) && readings.len()
            == (settled_list(
            state.config.active_domains.use_proc,
            sample.processes,
        )->Some_0)@.len() && readings[i].cpu_usage_percent == 0,
{
}

/// Every CPU figure of a snapshot is a percentage.
pub proof fn lemma_cpu_figures_are_percentages(
    state: CollectorState,
    now: Timestamp,
    sample: Sample,
)
    ensures
        state.after_update(now, sample).data.cpu matches Some(reading) ==> {
            &&& reading.overall <= 100
            &&& forall|i: int| 0 <= i < reading.per_core.len() ==> reading.per_core[i] <= 100
        },
{
    match settled(state.config.active_domains.use_cpu, sample.cpu) {
        Some(cpu) => {
            lemma_cpu_reading_bounded(
                state.tracker.prev_cpu,
                state.tracker.prev_cores,
                cpu,
                state.config.cpu_total_uses_current_sample,
                state.config.average_cpu_across_cores,
            );
        },
        None => {},
    }
}

/// The bootstrap leaves a snapshot without any figure of the seed cycle:
/// every domain but the network is absent, batteries included, and a
/// network reading has both rates at `0`.
pub proof fn lemma_init_discards_seed(
    state: CollectorState,
    mem_total_kb: u64,
    batteries_found: Option<usize>,
    now: Timestamp,
    seed: Sample,
)
    ensures
        ({
            let data = state.after_init(mem_total_kb, batteries_found, now, seed).data;
            &&& data.cpu is None
            &&& data.memory is None
            &&& data.swap is None
            &&& data.temperatures is None
            &&& data.processes is None
            &&& data.disks is None
            &&& data.disk_io is None
            &&& data.batteries is None
            &&& data.network matches Some(reading) ==> reading.rx == 0 && reading.tx == 0
        }),
{
}

/// The first cycle after the bootstrap measures from what the seed cycle
/// read, not from zero: network rates from the seed's totals over the time
/// since the seed, CPU usage from the seed's counters, and each process
/// from the record that the seed left of it.
pub proof fn lemma_first_cycle_measures_from_seed(
    state: CollectorState,
    mem_total_kb: u64,
    batteries_found: Option<usize>,
    seeded_at: Timestamp,
    seed: Sample,
    now: Timestamp,
    sample: Sample,
)
    ensures
        ({
            let active = state.config.active_domains;
            let use_current = state.config.cpu_total_uses_current_sample;
            let ready = state.after_init(mem_total_kb, batteries_found, seeded_at, seed);
            let data = ready.after_update(now, sample).data;
            &&& settled(active.use_net, seed.network) matches Some(before) ==> settled(
                active.use_net,
                sample.network,
            ) matches Some(totals) ==> data.network == Some(
                network_reading(
                    before.total_rx,
                    before.total_tx,
                    totals,
                    elapsed_millis(seeded_at, now),
                ),
            )
            &&& settled(active.use_cpu, seed.cpu) matches Some(before) ==> settled(
                active.use_cpu,
                sample.cpu,
            ) matches Some(cpu) ==> data.cpu == Some(
                cpu_reading(
                    authoritative_ticks(before, use_current),
                    before.cores@,
                    cpu,
                    use_current,
                    state.config.average_cpu_across_cores,
                ),
            )
            &&& settled_list(active.use_proc, seed.processes) matches Some(before)
                ==> settled_list(active.use_proc, sample.processes) matches Some(processes)
                ==> data.processes == Some(
                process_readings(
                    process_table(before@, seeded_at),
                    processes@,
                    now,
                    state.clock_ticks_per_second,
                    mem_total_kb,
                ),
            )
        }),
{
}

} // verus!
