//! The platform policy: which strategy probes each domain, and what the
//! portable system-information library must refresh before a cycle.

use crate::config::{Domain, UsedWidgets};
use vstd::prelude::*;

verus! {

/// The operating system the collector runs on.
#[derive(Clone, Copy, Debug, PartialEq, Eq)]
pub enum OperatingSystem {
    Linux,
    MacOs,
    Windows,
}

/// The platform the collector runs on, fixed once at startup.
#[derive(Clone, Copy, Debug, PartialEq, Eq)]
pub struct Platform {
    pub os: OperatingSystem,
    /// Whether the processor is a 32- or 64-bit ARM.
    pub arm: bool,
}

/// The two interchangeable strategies of a probe.
#[derive(Clone, Copy, Debug, PartialEq, Eq)]
pub enum ProbeVariant {
    /// Reads the operating system's own low-level interfaces.
    Native,
    /// Asks the portable system-information library.
    Generic,
}

/// The parts of the portable library's state that a cycle refreshes before
/// its probes run.
#[derive(Clone, Copy, Debug, PartialEq, Eq)]
pub struct RefreshPlan {
    pub cpu: bool,
    pub processes: bool,
    pub components: bool,
    pub networks: bool,
    pub memory: bool,
}

impl Platform {
    /// The strategy that probes `domain` on this platform. CPU and
    /// batteries always go through portable libraries. Processes are read
    /// natively on Linux. Network counters are read natively except on
    /// Windows and on ARM; memory, swap, disks and disk I/O except on ARM;
    /// temperatures only on Linux off ARM.
    pub open spec fn variant_for(self, domain: Domain) -> ProbeVariant {
        match domain {
            Domain::Cpu | Domain::Battery => ProbeVariant::Generic,
            Domain::Process => if self.os is Linux {
                ProbeVariant::Native
            } else {
                ProbeVariant::Generic
            },
            Domain::Network => if self.arm || self.os is Windows {
                ProbeVariant::Generic
            } else {
                ProbeVariant::Native
            },
            Domain::Memory | Domain::Swap | Domain::Disk | Domain::DiskIo => if self.arm {
                ProbeVariant::Generic
            } else {
                ProbeVariant::Native
            },
            Domain::Temperature => if self.arm || !(self.os is Linux) {
                ProbeVariant::Generic
            } else {
                ProbeVariant::Native
            },
        }
    }

    /// What a cycle refreshes under the flags `active`: the CPU state
    /// whenever CPU is active; process and sensor state on ARM and off
    /// Linux; network state on ARM and on Windows; memory state on ARM;
    /// each only while its domain is active.
    pub open spec fn refreshes(self, active: UsedWidgets) -> RefreshPlan {
        RefreshPlan {
            cpu: active.use_cpu,
            processes: active.use_proc && (self.arm || !(self.os is Linux)),
            components: active.use_temp && (self.arm || !(self.os is Linux)),
            networks: active.use_net && (self.arm || self.os is Windows),
            memory: active.use_mem && self.arm,
        }
    }

    /// Picks the strategy that probes `domain` on this platform.
    pub fn probe_variant(&self, domain: Domain) -> (variant: ProbeVariant)
        ensures
            variant == self.variant_for(domain),
    {
        let linux: bool = match self.os {
            OperatingSystem::Linux => true,
            _ => false,
        };
        let windows: bool = match self.os {
            OperatingSystem::Windows => true,
            _ => false,
        };
        let generic: bool = match domain {
            Domain::Cpu | Domain::Battery => true,
            Domain::Process => !linux,
            Domain::Network => self.arm || windows,
            Domain::Memory | Domain::Swap | Domain::Disk | Domain::DiskIo => self.arm,
            Domain::Temperature => self.arm || !linux,
        };
        if generic {
            ProbeVariant::Generic
        } else {
            ProbeVariant::Native
        }
    }

    /// Decides what a cycle refreshes before its probes run.
    pub fn refresh_plan(&self, active: &UsedWidgets) -> (plan: RefreshPlan)
        ensures
            plan == self.refreshes(*active),
    {
        let mut plan = RefreshPlan {
            cpu: active.use_cpu,
            processes: false,
            components: false,
            networks: false,
            memory: false,
        };
        if self.arm {
            plan.processes = active.use_proc;
            plan.components = active.use_temp;
            plan.networks = active.use_net;
            plan.memory = active.use_mem;
        } else {
            match self.os {
                OperatingSystem::Linux => {},
                OperatingSystem::MacOs => {
                    plan.processes = active.use_proc;
                    plan.components = active.use_temp;
                },
                OperatingSystem::Windows => {
                    plan.processes = active.use_proc;
                    plan.components = active.use_temp;
                    plan.networks = active.use_net;
                },
            }
        }
        plan
    }
}

/// Whatever the portable library probes for an active domain, the plan
/// refreshes first: its CPU, process, sensor, network and memory state.
pub proof fn lemma_generic_probes_read_fresh_state(platform: Platform, active: UsedWidgets)
    ensures
        ({
            let plan = platform.refreshes(active);
            let generic = |domain: Domain|
                active.enables(domain) && platform.variant_for(domain) is Generic;
            &&& generic(Domain::Cpu) ==> plan.cpu
            &&& generic(Domain::Process) ==> plan.processes
            &&& generic(Domain::Temperature) ==> plan.components
            &&& generic(Domain::Network) ==> plan.networks
            &&& generic(Domain::Memory) ==> plan.memory
            &&& generic(Domain::Swap) ==> plan.memory
        }),
{
}

} // verus!
