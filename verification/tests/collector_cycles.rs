use data_harvester::battery_harvester::BatteryHarvest;
use data_harvester::collector::DataCollector;
use data_harvester::config::{Domain, TemperatureType, UsedWidgets};
use data_harvester::cpu::{CpuSample, CpuTicks};
use data_harvester::disks::{DiskHarvest, IoHarvest};
use data_harvester::mem::MemHarvest;
use data_harvester::network::{NetworkHarvest, NetworkSample};
use data_harvester::platform::{OperatingSystem, Platform, ProbeVariant, RefreshPlan};
use data_harvester::probe::ProbeError;
use data_harvester::processes::{PrevProcDetails, ProcessSample};
use data_harvester::sample::Sample;
use data_harvester::snapshot::Data;
use data_harvester::temperature::{TempHarvest, TempSample};
use std::collections::HashMap;

fn linux() -> Platform {
    Platform { os: OperatingSystem::Linux, arm: false }
}

fn all_on() -> UsedWidgets {
    UsedWidgets {
        use_cpu: true,
        use_mem: true,
        use_net: true,
        use_proc: true,
        use_disk: true,
        use_temp: true,
        use_battery: true,
    }
}

fn cpu(idle: u64, non_idle: u64) -> CpuSample {
    CpuSample { combined: CpuTicks { idle, non_idle }, cores: vec![] }
}

fn net(total_rx: u64, total_tx: u64) -> NetworkSample {
    NetworkSample { total_rx, total_tx }
}

fn process(pid: i32, total_cpu_ticks: u64) -> ProcessSample {
    ProcessSample {
        pid,
        parent_pid: None,
        name: format!("p{}", pid),
        total_cpu_ticks,
        mem_usage_kb: 100,
        total_read_bytes: None,
        total_write_bytes: None,
    }
}

fn battery(charge_percent: u64) -> BatteryHarvest {
    BatteryHarvest {
        charge_percent,
        secs_until_full: None,
        secs_until_empty: Some(3600),
        power_consumption_rate_milliwatts: 7_500,
        health_percent: 95,
    }
}

fn disk(name: &str) -> DiskHarvest {
    DiskHarvest {
        name: name.to_string(),
        mount_point: "/".to_string(),
        free_space: 10,
        used_space: 20,
        total_space: 30,
    }
}

/// A sample in which every probe found something.
fn full(idle: u64, non_idle: u64, rx: u64, tx: u64) -> Sample {
    let mut io = HashMap::new();
    io.insert(8, IoHarvest { read_bytes: 1, write_bytes: 2 });
    Sample {
        cpu: Ok(Some(cpu(idle, non_idle))),
        batteries: Ok(Some(vec![battery(80)])),
        processes: Ok(Some(vec![process(1, 10), process(2, 20)])),
        network: Ok(Some(net(rx, tx))),
        memory: Ok(Some(MemHarvest { total_kb: 1000, used_kb: 400 })),
        swap: Ok(Some(MemHarvest { total_kb: 500, used_kb: 0 })),
        disks: Ok(Some(vec![disk("sda1")])),
        io: Ok(Some(io)),
        temperature: Ok(Some(vec![TempSample { name: "cpu".to_string(), millicelsius: 40_000 }])),
    }
}

fn assert_absent_but(data: &Data, present: &[Domain]) {
    let has = |domain: Domain| present.contains(&domain);
    assert_eq!(data.cpu.is_some(), has(Domain::Cpu));
    assert_eq!(data.memory.is_some(), has(Domain::Memory));
    assert_eq!(data.swap.is_some(), has(Domain::Swap));
    assert_eq!(data.disks.is_some(), has(Domain::Disk));
    assert_eq!(data.io.is_some(), has(Domain::DiskIo));
    assert_eq!(data.network.is_some(), has(Domain::Network));
    assert_eq!(data.temperature_sensors.is_some(), has(Domain::Temperature));
    assert_eq!(data.list_of_processes.is_some(), has(Domain::Process));
    assert_eq!(data.list_of_batteries.is_some(), has(Domain::Battery));
}

#[test]
fn fresh_collector_has_an_empty_snapshot() {
    let collector = DataCollector::new(123, linux(), 100);
    assert_eq!(collector.data.last_collection_time, 123);
    assert_absent_but(&collector.data, &[]);
    assert_eq!(collector.data(), &collector.data);
    assert_eq!(collector.mem_total_kb(), 0);
    assert_eq!(collector.config().active_domains, UsedWidgets::default());
    assert_eq!(collector.config().temperature_unit, TemperatureType::Celsius);
    assert!(!collector.wants_batteries());
    assert!(!collector.reports_batteries());
    assert_eq!(collector.tracker().prev_sample_time(), 123);
    assert_eq!(collector.tracker().prev_cpu(), CpuTicks { idle: 0, non_idle: 0 });
    assert_eq!(collector.tracker().process_count(), 0);
    assert_eq!(collector.tracker().prev_net_rx_total(), 0);
    assert_eq!(collector.tracker().prev_net_tx_total(), 0);
}

#[test]
fn cpu_and_network_only_end_to_end() {
    let mut collector = DataCollector::new(0, linux(), 100);
    collector.set_collected_data(UsedWidgets {
        use_cpu: true,
        use_net: true,
        ..UsedWidgets::default()
    });
    collector.init(8_000_000, None, 0, full(90, 40, 0, 0));

    collector.update_data(1000, full(100, 50, 0, 0));
    collector.update_data(2000, full(150, 100, 2000, 0));

    let data = &collector.data;
    assert_eq!(data.last_collection_time, 2000);
    assert_eq!(data.cpu.as_ref().map(|cpu| cpu.overall), Some(50));
    assert_eq!(data.network.map(|network| network.rx), Some(2000));
    assert_eq!(data.network, Some(NetworkHarvest { rx: 2000, tx: 0, total_rx: 2000, total_tx: 0 }));
    assert_absent_but(data, &[Domain::Cpu, Domain::Network]);
    assert!(data.memory.is_none());
    assert!(data.disks.is_none());
    assert!(data.temperature_sensors.is_none());
    assert!(data.list_of_processes.is_none());
    assert!(data.list_of_batteries.is_none());
}

#[test]
fn every_active_domain_is_reported() {
    let mut collector = DataCollector::new(0, linux(), 100);
    collector.set_collected_data(all_on());
    collector.init(1000, Some(1), 0, full(0, 0, 0, 0));
    collector.update_data(1000, full(75, 25, 3000, 500));

    let data = &collector.data;
    assert_absent_but(
        data,
        &[
            Domain::Cpu,
            Domain::Memory,
            Domain::Swap,
            Domain::Disk,
            Domain::DiskIo,
            Domain::Network,
            Domain::Temperature,
            Domain::Process,
            Domain::Battery,
        ],
    );
    assert_eq!(data.cpu.as_ref().unwrap().overall, 25);
    assert_eq!(data.memory, Some(MemHarvest { total_kb: 1000, used_kb: 400 }));
    assert_eq!(data.swap, Some(MemHarvest { total_kb: 500, used_kb: 0 }));
    assert_eq!(data.disks, Some(vec![disk("sda1")]));
    assert_eq!(data.io.as_ref().unwrap()[&8], IoHarvest { read_bytes: 1, write_bytes: 2 });
    assert_eq!(
        data.network,
        Some(NetworkHarvest { rx: 3000, tx: 500, total_rx: 3000, total_tx: 500 })
    );
    assert_eq!(
        data.temperature_sensors,
        Some(vec![TempHarvest { name: "cpu".to_string(), temperature: 40_000 }])
    );
    assert_eq!(data.list_of_batteries, Some(vec![battery(80)]));
    let processes = data.list_of_processes.as_ref().unwrap();
    assert_eq!(processes.len(), 2);
    assert_eq!(processes[0].mem_usage_percent, 10);
}

#[test]
fn inactive_domain_is_absent_whatever_was_found() {
    let cases = [
        (UsedWidgets { use_cpu: false, ..all_on() }, vec![Domain::Cpu]),
        (UsedWidgets { use_mem: false, ..all_on() }, vec![Domain::Memory, Domain::Swap]),
        (UsedWidgets { use_net: false, ..all_on() }, vec![Domain::Network]),
        (UsedWidgets { use_proc: false, ..all_on() }, vec![Domain::Process]),
        (UsedWidgets { use_disk: false, ..all_on() }, vec![Domain::Disk, Domain::DiskIo]),
        (UsedWidgets { use_temp: false, ..all_on() }, vec![Domain::Temperature]),
        (UsedWidgets { use_battery: false, ..all_on() }, vec![Domain::Battery]),
    ];
    let all = [
        Domain::Cpu,
        Domain::Memory,
        Domain::Swap,
        Domain::Disk,
        Domain::DiskIo,
        Domain::Network,
        Domain::Temperature,
        Domain::Process,
        Domain::Battery,
    ];
    for (widgets, off) in cases {
        let mut collector = DataCollector::new(0, linux(), 100);
        collector.set_collected_data(all_on());
        collector.init(1000, Some(1), 0, full(0, 0, 0, 0));
        collector.update_data(1000, full(10, 10, 10, 10));
        // switched off between two cycles
        collector.set_collected_data(widgets);
        collector.update_data(2000, full(20, 20, 20, 20));
        let present: Vec<Domain> = all.iter().copied().filter(|d| !off.contains(d)).collect();
        assert_absent_but(&collector.data, &present);
    }
}

#[test]
fn failed_probe_is_absent_for_one_cycle() {
    let mut collector = DataCollector::new(0, linux(), 100);
    collector.set_collected_data(all_on());
    collector.init(1000, Some(1), 0, full(0, 0, 0, 0));

    let failed = Sample {
        cpu: Err(ProbeError::Parse),
        batteries: Err(ProbeError::Io),
        processes: Err(ProbeError::Permission),
        network: Err(ProbeError::Io),
        memory: Err(ProbeError::Parse),
        swap: Err(ProbeError::Parse),
        disks: Err(ProbeError::Io),
        io: Err(ProbeError::Permission),
        temperature: Err(ProbeError::Io),
    };
    collector.update_data(1000, failed);
    assert_absent_but(&collector.data, &[]);
    assert_eq!(collector.data.last_collection_time, 1000);

    collector.update_data(2000, full(50, 50, 4000, 0));
    assert_eq!(collector.data.list_of_processes.as_ref().map(|list| list.len()), Some(2));
    assert!(collector.data.memory.is_some());
    // the failed cycle read no counter but stamped the clock: usage and
    // rate are measured from the seed's counters, over the one second
    // since the failed cycle started
    assert_eq!(collector.data.cpu.as_ref().unwrap().overall, 50);
    assert_eq!(collector.data.network.unwrap().rx, 4000);
}

#[test]
fn probe_that_found_nothing_is_absent() {
    let mut collector = DataCollector::new(0, linux(), 100);
    collector.set_collected_data(all_on());
    collector.init(1000, Some(1), 0, Sample::empty());
    collector.update_data(1000, Sample::empty());
    assert_absent_but(&collector.data, &[]);

    let empty_lists = Sample {
        batteries: Ok(Some(vec![])),
        processes: Ok(Some(vec![])),
        disks: Ok(Some(vec![])),
        io: Ok(Some(HashMap::new())),
        temperature: Ok(Some(vec![])),
        ..Sample::empty()
    };
    collector.update_data(2000, empty_lists);
    assert_absent_but(&collector.data, &[]);
    assert_eq!(collector.data.last_collection_time, 2000);
}

#[test]
fn bootstrap_discards_the_seed_and_keeps_the_baseline() {
    let mut collector = DataCollector::new(0, linux(), 100);
    collector.set_collected_data(all_on());
    collector.init(16_000_000, Some(2), 40, full(1_000_000, 500_000, 9_000_000, 7_000_000));

    assert_eq!(collector.mem_total_kb(), 16_000_000);
    let data = &collector.data;
    assert_eq!(data.last_collection_time, 40);
    assert_absent_but(data, &[Domain::Network]);
    assert_eq!(
        data.network,
        Some(NetworkHarvest { rx: 0, tx: 0, total_rx: 9_000_000, total_tx: 7_000_000 })
    );
    assert_eq!(data.list_of_batteries, None);
    assert!(collector.reports_batteries());

    let tracker = collector.tracker();
    assert_eq!(tracker.prev_sample_time(), 40);
    assert_eq!(tracker.prev_cpu(), CpuTicks { idle: 1_000_000, non_idle: 500_000 });
    assert_eq!(tracker.prev_net_rx_total(), 9_000_000);
    assert_eq!(tracker.prev_net_tx_total(), 7_000_000);
    assert_eq!(tracker.process_count(), 2);
}

#[test]
fn first_cycle_measures_from_the_seed() {
    let mut collector = DataCollector::new(0, linux(), 100);
    collector.set_collected_data(all_on());
    collector.init(1000, None, 0, full(1_000_000, 500_000, 9_000_000, 7_000_000));
    collector.update_data(250, full(1_000_030, 500_010, 9_000_100, 7_000_000));

    let data = &collector.data;
    // 10 busy ticks out of 40, not 500_010 out of 1_500_040
    assert_eq!(data.cpu.as_ref().unwrap().overall, 25);
    // 100 bytes in a quarter of a second, not nine megabytes
    assert_eq!(
        data.network,
        Some(NetworkHarvest { rx: 400, tx: 0, total_rx: 9_000_100, total_tx: 7_000_000 })
    );
    // both processes were seen by the seed and gained nothing since
    let processes = data.list_of_processes.as_ref().unwrap();
    assert_eq!(processes[0].cpu_usage_percent, 0);
    assert_eq!(processes[1].cpu_usage_percent, 0);
}

#[test]
fn tracker_holds_exactly_the_observed_processes() {
    let mut collector = DataCollector::new(0, linux(), 100);
    collector.set_collected_data(all_on());
    collector.init(1000, None, 0, Sample::empty());

    let first = Sample {
        processes: Ok(Some(vec![process(1, 10), process(2, 20), process(3, 30)])),
        ..Sample::empty()
    };
    collector.update_data(1000, first);
    assert_eq!(collector.tracker().process_count(), 3);
    for pid in [1, 2, 3] {
        assert!(collector.tracker().record(pid).is_some());
    }

    let second = Sample {
        processes: Ok(Some(vec![process(2, 70), process(4, 5)])),
        ..Sample::empty()
    };
    collector.update_data(2000, second);
    let tracker = collector.tracker();
    assert_eq!(tracker.process_count(), 2);
    assert_eq!(tracker.record(1), None);
    assert_eq!(tracker.record(2), Some(PrevProcDetails { total_cpu_ticks: 70, sample_time: 2000 }));
    assert_eq!(tracker.record(3), None);
    assert_eq!(tracker.record(4), Some(PrevProcDetails { total_cpu_ticks: 5, sample_time: 2000 }));

    let third = Sample { processes: Err(ProbeError::Io), ..Sample::empty() };
    collector.update_data(3000, third);
    assert_eq!(collector.tracker().process_count(), 0);
    assert_eq!(collector.tracker().record(2), None);
}

#[test]
fn newly_seen_process_reports_zero() {
    let mut collector = DataCollector::new(0, linux(), 100);
    collector.set_collected_data(all_on());
    collector.init(1000, None, 0, Sample::empty());
    let first = Sample { processes: Ok(Some(vec![process(1, 100)])), ..Sample::empty() };
    collector.update_data(1000, first);
    let second = Sample {
        processes: Ok(Some(vec![process(1, 150), process(2, 1_000_000)])),
        ..Sample::empty()
    };
    collector.update_data(2000, second);

    let processes = collector.data.list_of_processes.as_ref().unwrap();
    assert_eq!(processes[0].pid, 1);
    assert_eq!(processes[0].cpu_usage_percent, 50);
    assert_eq!(processes[1].pid, 2);
    assert_eq!(processes[1].cpu_usage_percent, 0);

    // a process that was gone for a cycle is new again
    let third = Sample { processes: Ok(Some(vec![process(2, 1_000_050)])), ..Sample::empty() };
    collector.update_data(3000, third);
    let fourth = Sample {
        processes: Ok(Some(vec![process(1, 9_999), process(2, 1_000_100)])),
        ..Sample::empty()
    };
    collector.update_data(4000, fourth);
    let processes = collector.data.list_of_processes.as_ref().unwrap();
    assert_eq!(processes[0].cpu_usage_percent, 0);
    assert_eq!(processes[1].cpu_usage_percent, 50);
}

#[test]
fn network_counter_reset_gives_rate_zero_and_a_new_baseline() {
    let mut collector = DataCollector::new(0, linux(), 100);
    collector.set_collected_data(UsedWidgets { use_net: true, ..UsedWidgets::default() });
    collector.init(0, None, 0, Sample { network: Ok(Some(net(1000, 1000))), ..Sample::empty() });

    collector.update_data(1000, Sample { network: Ok(Some(net(1500, 1000))), ..Sample::empty() });
    assert_eq!(collector.data.network.unwrap().rx, 500);

    collector.update_data(2000, Sample { network: Ok(Some(net(200, 1000))), ..Sample::empty() });
    assert_eq!(
        collector.data.network,
        Some(NetworkHarvest { rx: 0, tx: 0, total_rx: 200, total_tx: 1000 })
    );
    assert_eq!(collector.tracker().prev_net_rx_total(), 200);

    collector.update_data(3000, Sample { network: Ok(Some(net(900, 1000))), ..Sample::empty() });
    assert_eq!(collector.data.network.unwrap().rx, 700);
}

#[test]
fn rates_are_zero_when_the_clock_did_not_advance() {
    let mut collector = DataCollector::new(5000, linux(), 100);
    collector.set_collected_data(all_on());
    collector.init(1000, None, 5000, full(0, 0, 0, 0));
    collector.update_data(5000, full(10, 10, 1000, 1000));
    assert_eq!(
        collector.data.network,
        Some(NetworkHarvest { rx: 0, tx: 0, total_rx: 1000, total_tx: 1000 })
    );
    collector.update_data(4000, full(20, 20, 2000, 2000));
    assert_eq!(collector.data.last_collection_time, 4000);
    assert_eq!(collector.data.network.unwrap().rx, 0);
    assert_eq!(collector.data.list_of_processes.as_ref().unwrap()[0].cpu_usage_percent, 0);
    assert_eq!(collector.tracker().prev_sample_time(), 4000);
}

#[test]
fn batteries_are_reported_only_if_the_bootstrap_found_one() {
    let outcomes = [(None, false), (Some(0), false), (Some(1), true), (Some(3), true)];
    for (found, reported) in outcomes {
        let mut collector = DataCollector::new(0, linux(), 100);
        collector.set_collected_data(all_on());
        assert!(collector.wants_batteries());
        collector.init(1000, found, 0, full(0, 0, 0, 0));
        assert_eq!(collector.reports_batteries(), reported);
        // the seed's readings are discarded either way
        assert!(collector.data.list_of_batteries.is_none());
        collector.update_data(1000, full(0, 0, 0, 0));
        assert_eq!(collector.data.list_of_batteries.is_some(), reported);
    }
}

#[test]
fn batteries_stay_off_if_inactive_at_the_bootstrap() {
    let mut collector = DataCollector::new(0, linux(), 100);
    collector.set_collected_data(UsedWidgets { use_battery: false, ..all_on() });
    assert!(!collector.wants_batteries());
    collector.init(1000, Some(2), 0, full(0, 0, 0, 0));
    assert!(!collector.reports_batteries());
    // switching the domain on later does not bring them back
    collector.set_collected_data(all_on());
    assert!(!collector.reports_batteries());
    collector.update_data(1000, full(0, 0, 0, 0));
    assert!(collector.data.list_of_batteries.is_none());
}

#[test]
fn temperature_unit_takes_effect_from_the_next_cycle() {
    let mut collector = DataCollector::new(0, linux(), 100);
    collector.set_collected_data(all_on());
    collector.init(1000, None, 0, Sample::empty());
    let reading = |collector: &DataCollector| {
        collector.data.temperature_sensors.as_ref().unwrap()[0].temperature
    };
    collector.update_data(1000, full(0, 0, 0, 0));
    assert_eq!(reading(&collector), 40_000);
    collector.set_temperature_type(TemperatureType::Fahrenheit);
    assert_eq!(collector.config().temperature_unit, TemperatureType::Fahrenheit);
    assert_eq!(reading(&collector), 40_000);
    collector.update_data(2000, full(0, 0, 0, 0));
    assert_eq!(reading(&collector), 104_000);
    collector.set_temperature_type(TemperatureType::Kelvin);
    collector.update_data(3000, full(0, 0, 0, 0));
    assert_eq!(reading(&collector), 313_150);
}

#[test]
fn cpu_toggles_take_effect_from_the_next_cycle() {
    let sample = |step: u64| Sample {
        cpu: Ok(Some(CpuSample {
            combined: CpuTicks { idle: 50 * step, non_idle: 50 * step },
            cores: vec![
                CpuTicks { idle: 90 * step, non_idle: 10 * step },
                CpuTicks { idle: 70 * step, non_idle: 30 * step },
            ],
        })),
        ..Sample::empty()
    };
    let mut collector = DataCollector::new(0, linux(), 100);
    collector.set_collected_data(UsedWidgets { use_cpu: true, ..UsedWidgets::default() });
    collector.init(0, None, 0, sample(1));

    collector.update_data(1000, sample(2));
    let cpu = collector.data.cpu.clone().unwrap();
    assert_eq!(cpu.overall, 50);
    assert_eq!(cpu.per_core, vec![10, 30]);

    collector.set_show_average_cpu(true);
    assert!(collector.config().average_cpu_across_cores);
    collector.update_data(2000, sample(3));
    let cpu = collector.data.cpu.clone().unwrap();
    assert_eq!(cpu.overall, 50);
    assert_eq!(cpu.per_core, vec![20]);

    collector.set_show_average_cpu(false);
    collector.set_use_current_cpu_total(true);
    assert!(collector.config().cpu_total_uses_current_sample);
    // the cores add up to (640, 160); the tracker holds the combined (150, 150)
    collector.update_data(3000, sample(4));
    let cpu = collector.data.cpu.clone().unwrap();
    assert_eq!(cpu.overall, 2);
    assert_eq!(cpu.per_core, vec![10, 30]);
    assert_eq!(collector.tracker().prev_cpu(), CpuTicks { idle: 640, non_idle: 160 });
    // from then on the sum of the cores is measured against itself
    collector.update_data(4000, sample(5));
    assert_eq!(collector.data.cpu.clone().unwrap().overall, 20);
}

#[test]
fn collector_plans_for_its_platform() {
    let windows = Platform { os: OperatingSystem::Windows, arm: false };
    let mut collector = DataCollector::new(0, windows, 100);
    assert_eq!(
        collector.refresh_plan(),
        RefreshPlan {
            cpu: false,
            processes: false,
            components: false,
            networks: false,
            memory: false
        }
    );
    collector.set_collected_data(all_on());
    assert_eq!(
        collector.refresh_plan(),
        RefreshPlan { cpu: true, processes: true, components: true, networks: true, memory: false }
    );
    assert_eq!(collector.probe_variant(Domain::Network), ProbeVariant::Generic);
    assert_eq!(collector.probe_variant(Domain::Memory), ProbeVariant::Native);
}

#[test]
fn cleanup_keeps_only_time_and_network_totals() {
    let mut data = Data::new(77);
    data.cpu = Some(data_harvester::cpu::CpuHarvest { overall: 12, per_core: vec![12] });
    data.memory = Some(MemHarvest { total_kb: 1, used_kb: 1 });
    data.swap = Some(MemHarvest { total_kb: 1, used_kb: 1 });
    data.temperature_sensors = Some(vec![TempHarvest { name: "t".to_string(), temperature: 1 }]);
    data.network = Some(NetworkHarvest { rx: 5, tx: 6, total_rx: 50, total_tx: 60 });
    data.list_of_processes = Some(vec![]);
    data.disks = Some(vec![disk("sda")]);
    data.io = Some(HashMap::new());
    data.list_of_batteries = Some(vec![battery(50)]);

    data.cleanup();

    assert_eq!(data.last_collection_time, 77);
    assert_absent_but(&data, &[Domain::Network]);
    assert_eq!(data.network, Some(NetworkHarvest { rx: 0, tx: 0, total_rx: 50, total_tx: 60 }));
    assert_eq!(data.list_of_batteries, None);
}

#[test]
fn cleanup_of_an_empty_snapshot_changes_nothing() {
    let mut data = Data::new(5);
    data.cleanup();
    assert_eq!(data, Data::new(5));
}
