[package]
name = "data_harvester"
version = "0.1.0"
edition = "2021"
publish = false

[dependencies]
battery = "0.7"
futures = "0.3"
libc = "0.2"
log = "0.4"
sysinfo = "0.15"
