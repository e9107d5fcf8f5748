//! Measurement pipeline: interchangeable providers feed a common reading.

pub mod hub;
pub mod lhm;
pub mod metric;
pub mod provider;
pub mod shared_memory;
pub mod wmi_context;
pub mod providers;
pub mod registry;
