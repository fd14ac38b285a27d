//! What the probes of one cycle hand to the collector.

use crate::battery_harvester::BatteryHarvest;
use crate::config::Domain;
use crate::cpu::CpuSample;
use crate::disks::{DeviceId, DiskHarvest, IoHarvest};
use crate::mem::MemHarvest;
use crate::network::NetworkSample;
use crate::probe::ProbeOutcome;
use crate::processes::ProcessSample;
use crate::temperature::TempSample;
use std::collections::HashMap;
use vstd::prelude::*;

verus! {

/// The outcomes of all probes of one cycle, one per domain. Counters are
/// raw and cumulative: the collector turns them into rates.
#[derive(Debug)]
pub struct Sample {
    pub cpu: ProbeOutcome<CpuSample>,
    pub batteries: ProbeOutcome<Vec<BatteryHarvest>>,
    pub processes: ProbeOutcome<Vec<ProcessSample>>,
    pub network: ProbeOutcome<NetworkSample>,
    pub memory: ProbeOutcome<MemHarvest>,
    pub swap: ProbeOutcome<MemHarvest>,
    pub disks: ProbeOutcome<Vec<DiskHarvest>>,
    pub io: ProbeOutcome<HashMap<DeviceId, IoHarvest>>,
    pub temperature: ProbeOutcome<Vec<TempSample>>,
}

impl Sample {
    /// The sample in which every probe succeeded and found nothing.
    pub open spec fn nothing() -> Sample {
        Sample {
            cpu: Ok(None),
            batteries: Ok(None),
            processes: Ok(None),
            network: Ok(None),
            memory: Ok(None),
            swap: Ok(None),
            disks: Ok(None),
            io: Ok(None),
            temperature: Ok(None),
        }
    }

    /// Whether the probe of `domain` succeeded and found something: a
    /// value, a list that is not empty, a table that is not empty.
    pub open spec fn found(self, domain: Domain) -> bool {
        match domain {
            Domain::Cpu => self.cpu matches Ok(Some(_)),
            Domain::Memory => self.memory matches Ok(Some(_)),
            Domain::Swap => self.swap matches Ok(Some(_)),
            Domain::Network => self.network matches Ok(Some(_)),
            Domain::Disk => self.disks matches Ok(Some(list)) && list@.len() > 0,
            Domain::DiskIo => self.io matches Ok(Some(table)) && !table@.is_empty(),
            Domain::Temperature => self.temperature matches Ok(Some(list)) && list@.len() > 0,
            Domain::Process => self.processes matches Ok(Some(list)) && list@.len() > 0,
            Domain::Battery => self.batteries matches Ok(Some(list)) && list@.len() > 0,
        }
    }

    /// Makes the sample in which every probe succeeded and found nothing,
    /// for the caller to fill in what its probes did find.
    pub fn empty() -> (sample: Sample)
        ensures
            sample == Sample::nothing(),
    {
        Sample {
            cpu: Ok(None),
            batteries: Ok(None),
            processes: Ok(None),
            network: Ok(None),
            memory: Ok(None),
            swap: Ok(None),
            disks: Ok(None),
            io: Ok(None),
            temperature: Ok(None),
        }
    }
}

} // verus!
