//! The earlier, memory-only generation of the monitor.

pub mod cgroups;
