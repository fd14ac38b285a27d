//! The snapshot that one harvesting cycle produces.

use crate::battery_harvester::BatteryHarvest;
use crate::config::Domain;
use crate::cpu::{CpuHarvest, CpuReading};
use crate::disks::{DeviceId, DiskHarvest, IoHarvest};
use crate::mem::MemHarvest;
use crate::network::NetworkHarvest;
use crate::processes::ProcessHarvest;
use crate::temperature::TempHarvest;
use crate::time::Timestamp;
use std::collections::HashMap;
use vstd::prelude::*;

verus! {

/// The latest value of every domain, each present or absent on its own. A
/// field is absent when its domain is switched off, or when its probe
/// failed or found nothing in this cycle: absent means "not available now",
/// never "zero".
#[derive(Clone, Debug, PartialEq, Eq)]
pub struct Data {
    pub last_collection_time: Timestamp,
    pub cpu: Option<CpuHarvest>,
    pub memory: Option<MemHarvest>,
    pub swap: Option<MemHarvest>,
    pub temperature_sensors: Option<Vec<TempHarvest>>,
    pub network: Option<NetworkHarvest>,
    pub list_of_processes: Option<Vec<ProcessHarvest>>,
    pub disks: Option<Vec<DiskHarvest>>,
    pub io: Option<HashMap<DeviceId, IoHarvest>>,
    pub list_of_batteries: Option<Vec<BatteryHarvest>>,
}

/// The mathematical content of a [`Data`].
#[verifier::ext_equal]
pub struct Snapshot {
    pub collected_at: Timestamp,
    pub cpu: Option<CpuReading>,
    pub memory: Option<MemHarvest>,
    pub swap: Option<MemHarvest>,
    pub temperatures: Option<Seq<TempHarvest>>,
    pub network: Option<NetworkHarvest>,
    pub processes: Option<Seq<ProcessHarvest>>,
    pub disks: Option<Seq<DiskHarvest>>,
    pub disk_io: Option<Map<DeviceId, IoHarvest>>,
    pub batteries: Option<Seq<BatteryHarvest>>,
}

/// The elements of a list that may be absent.
pub open spec fn list_view<T>(list: Option<Vec<T>>) -> Option<Seq<T>> {
    match list {
        Some(present) => Some(present@),
        None => None,
    }
}

/// The entries of a table that may be absent.
pub open spec fn table_view<V>(table: Option<HashMap<DeviceId, V>>) -> Option<Map<DeviceId, V>> {
    match table {
        Some(present) => Some(present@),
        None => None,
    }
}

/// The content of a CPU reading that may be absent.
pub open spec fn cpu_view(cpu: Option<CpuHarvest>) -> Option<CpuReading> {
    match cpu {
        Some(present) => Some(present@),
        None => None,
    }
}

impl View for Data {
    type V = Snapshot;

    open spec fn view(&self) -> Snapshot {
        Snapshot {
            collected_at: self.last_collection_time,
            cpu: cpu_view(self.cpu),
            memory: self.memory,
            swap: self.swap,
            temperatures: list_view(self.temperature_sensors),
            network: self.network,
            processes: list_view(self.list_of_processes),
            disks: list_view(self.disks),
            disk_io: table_view(self.io),
            batteries: list_view(self.list_of_batteries),
        }
    }
}

impl Snapshot {
    /// The snapshot with every domain absent.
    pub open spec fn empty(collected_at: Timestamp) -> Snapshot {
        Snapshot {
            collected_at,
            cpu: None,
            memory: None,
            swap: None,
            temperatures: None,
            network: None,
            processes: None,
            disks: None,
            disk_io: None,
            batteries: None,
        }
    }

    /// Whether the field of `domain` is absent from this snapshot.
    pub open spec fn lacks(self, domain: Domain) -> bool {
        match domain {
            Domain::Cpu => self.cpu is None,
            Domain::Memory => self.memory is None,
            Domain::Swap => self.swap is None,
            Domain::Disk => self.disks is None,
            Domain::DiskIo => self.disk_io is None,
            Domain::Network => self.network is None,
            Domain::Temperature => self.temperatures is None,
            Domain::Process => self.processes is None,
            Domain::Battery => self.batteries is None,
        }
    }

    /// This snapshot after the seed cycle's values are discarded: every
    /// domain is absent but the network, whose reading keeps its totals
    /// and has both rates at `0`; the collection time is as it was.
    pub open spec fn cleaned(self) -> Snapshot {
        Snapshot {
            collected_at: self.collected_at,
            cpu: None,
            memory: None,
            swap: None,
            temperatures: None,
            network: match self.network {
                Some(reading) => Some(reading.without_rates()),
                None => None,
            },
            processes: None,
            disks: None,
            disk_io: None,
            batteries: None,
        }
    }
}

impl Default for Data {
    /// The snapshot with every domain absent, stamped with the origin of
    /// the caller's clock.
    fn default() -> (data: Data)
        ensures
            data@ == Snapshot::empty(0),
    {
        Data::new(0)
    }
}

impl Data {
    /// Makes a snapshot with every domain absent.
    pub fn new(now: Timestamp) -> (data: Data)
        ensures
            data@ == Snapshot::empty(now),
    {
        Data {
            last_collection_time: now,
            cpu: None,
            memory: None,
            swap: None,
            temperature_sensors: None,
            list_of_processes: None,
            disks: None,
            io: None,
            network: None,
            list_of_batteries: None,
        }
    }

    /// Discards the values of a seed cycle and keeps the network baseline.
    pub fn cleanup(&mut self)
        ensures
            final(self)@ == old(self)@.cleaned(),
    {
        self.io = None;
        self.temperature_sensors = None;
        self.list_of_processes = None;
        self.disks = None;
        self.memory = None;
        self.swap = None;
        self.cpu = None;
        self.list_of_batteries = None;

        if let Some(network) = &mut self.network {
            network.first_run_cleanup();
        }
    }
}

} // verus!
