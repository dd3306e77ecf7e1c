//! Host telemetry snapshot library.
//!
//! The library turns one fresh set of raw readings from the operating
//! system — identity strings, memory counters, per-volume disk counters and
//! thermal sensor readings — into a single normalized snapshot: byte counts
//! become exact decimal gigabyte and megabyte quantities, utilization is an
//! exact percentage with a zero-total guard, and vendor-specific sensor
//! labels are remapped to human-readable names.

pub mod cli;
pub mod labels;
pub mod quantity;
pub mod system_info;
