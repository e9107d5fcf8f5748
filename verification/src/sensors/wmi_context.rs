//! A row of a WMI `Sensor` query, its columns decoded into plain values.
//!
//! WMI types its columns according to the class queried; decoding the variants is left
//! to the caller, which hands the library what it could read of each column.

use vstd::prelude::*;

use crate::sensors::metric::Value;

verus! {

/// One sensor as LibreHardwareMonitor (or OpenHardwareMonitor) publishes it through WMI.
/// A column that is missing, or of an unexpected type, is `None`.
#[derive(Debug, Clone)]
pub struct WmiRow {
    /// Hierarchical identifier: `/intelcpu/0/temperature/0`, `/gpu-amd/0/load/0`.
    pub identifier: Option<String>,
    /// `Temperature`, `Power`, `Clock`, `Load`…
    pub sensor_type: Option<String>,
    /// Displayed label.
    pub name: Option<String>,
    pub value: Option<Value>,
}

/// The text of an optional column, empty when absent.
pub open spec fn column_text(c: Option<String>) -> Seq<char> {
    match c {
        Some(s) => s@,
        None => Seq::<char>::empty(),
    }
}

/// The text of an optional column, empty when absent.
pub fn column_or_empty(c: &Option<String>) -> (s: String)
    ensures
        s@ == column_text(*c),
{
    match c {
        Some(s) => s.clone(),
        None => String::new(),
    }
}

} // verus!
