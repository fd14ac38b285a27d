//! Collector settings: which domains are harvested and how readings are reported.

use vstd::prelude::*;

verus! {

/// One category of harvested metric.
#[derive(Clone, Copy, Debug, PartialEq, Eq)]
pub enum Domain {
    Cpu,
    Memory,
    Swap,
    Disk,
    DiskIo,
    Network,
    Temperature,
    Process,
    Battery,
}

/// The unit in which temperature readings are reported.
#[derive(Clone, Copy, Debug, PartialEq, Eq)]
pub enum TemperatureType {
    Celsius,
    Kelvin,
    Fahrenheit,
}

/// The capability flags handed down by the display layer: one flag per
/// widget family. Swap follows the memory flag and disk I/O the disk flag.
#[derive(Clone, Copy, Debug, PartialEq, Eq)]
pub struct UsedWidgets {
    pub use_cpu: bool,
    pub use_mem: bool,
    pub use_net: bool,
    pub use_proc: bool,
    pub use_disk: bool,
    pub use_temp: bool,
    pub use_battery: bool,
}

impl UsedWidgets {
    /// Whether `domain` is active under these flags.
    pub open spec fn enables(self, domain: Domain) -> bool {
        match domain {
            Domain::Cpu => self.use_cpu,
            Domain::Memory => self.use_mem,
            Domain::Swap => self.use_mem,
            Domain::Disk => self.use_disk,
            Domain::DiskIo => self.use_disk,
            Domain::Network => self.use_net,
            Domain::Temperature => self.use_temp,
            Domain::Process => self.use_proc,
            Domain::Battery => self.use_battery,
        }
    }

    /// The flag set with every domain switched off.
    pub open spec fn none() -> UsedWidgets {
        UsedWidgets {
            use_cpu: false,
            use_mem: false,
            use_net: false,
            use_proc: false,
            use_disk: false,
            use_temp: false,
            use_battery: false,
        }
    }

    /// Tells whether `domain` is active under these flags.
    pub fn is_active(&self, domain: Domain) -> (active: bool)
        ensures
            active == self.enables(domain),
    {
        match domain {
            Domain::Cpu => self.use_cpu,
            Domain::Memory | Domain::Swap => self.use_mem,
            Domain::Disk | Domain::DiskIo => self.use_disk,
            Domain::Network => self.use_net,
            Domain::Temperature => self.use_temp,
            Domain::Process => self.use_proc,
            Domain::Battery => self.use_battery,
        }
    }
}

impl Default for UsedWidgets {
    /// No domain is active until the display layer asks for one.
    fn default() -> (widgets: UsedWidgets)
        ensures
            widgets == UsedWidgets::none(),
    {
        UsedWidgets {
            use_cpu: false,
            use_mem: false,
            use_net: false,
            use_proc: false,
            use_disk: false,
            use_temp: false,
            use_battery: false,
        }
    }
}

/// Everything a harvesting cycle reads from its settings. A cycle never
/// changes it; the collector's setters replace parts of it between cycles.
#[derive(Clone, Copy, Debug)]
pub struct Configuration {
    pub active_domains: UsedWidgets,
    pub temperature_unit: TemperatureType,
    pub cpu_total_uses_current_sample: bool,
    pub average_cpu_across_cores: bool,
}

impl Configuration {
    /// The settings of a fresh collector: nothing active, Celsius, the
    /// combined CPU counter authoritative, one figure per core.
    pub open spec fn initial() -> Configuration {
        Configuration {
            active_domains: UsedWidgets::none(),
            temperature_unit: TemperatureType::Celsius,
            cpu_total_uses_current_sample: false,
            average_cpu_across_cores: false,
        }
    }
}

impl Default for Configuration {
    fn default() -> (config: Configuration)
        ensures
            config == Configuration::initial(),
    {
        Configuration {
            active_domains: UsedWidgets::default(),
            temperature_unit: TemperatureType::Celsius,
            cpu_total_uses_current_sample: false,
            average_cpu_across_cores: false,
        }
    }
}

} // verus!
