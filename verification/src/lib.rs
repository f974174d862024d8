//! Process resource monitoring: paths, parsers and decisions of a pressure-aware sidecar.

pub mod arguments;
pub mod cgroups;
pub mod daemons;
pub mod errors;
pub mod events;
pub mod http_signals_sender;
pub mod metrics;
pub mod processes;
pub mod signals;
pub mod system;
pub mod text;
pub mod thresholds;
pub mod unix_signals_sender;
pub mod v2;
