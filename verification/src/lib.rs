//! Metrics-harvesting core of a terminal system monitor.
//!
//! The collector turns raw samples of cumulative kernel counters into a
//! point-in-time snapshot of rates and percentages. It performs no I/O:
//! probes hand it plain values, or the text of kernel files for it to
//! read, and it decides what the snapshot holds.

pub mod battery_harvester;
pub mod collector;
pub mod config;
pub mod cpu;
pub mod disks;
pub mod mem;
pub mod network;
pub mod platform;
pub mod probe;
pub mod processes;
pub mod ratio;
pub mod sample;
pub mod snapshot;
pub mod temperature;
pub mod text;
pub mod time;
pub mod tracker;
