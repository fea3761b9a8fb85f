//! A telemetry bridge between an environmental sensor box on a message bus
//! and a remote catalog service: identifier resolution against the catalog,
//! normalization of sensor reports into measurements, and the decisions of the
//! message-consumption loop.
use vstd::prelude::*;

pub mod bridge;
pub mod catalog;
pub mod channel;
pub mod report;

verus! {

/// Identifier of a device in the catalog.
pub type DeviceId = i32;

} // verus!
