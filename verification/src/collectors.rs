//! The metric sources: each turns what was read from the machine into a
//! value, or reports the metric as absent.

pub mod cpu_temp;
pub mod device_info;
pub mod disk_free;
