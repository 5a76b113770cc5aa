//! Verified core of a vision coprocessor: a snapshot store that decouples the
//! capture loop from its consumers, the capture pipeline's planning and
//! assembly steps, and a telemetry bus client (topic registration and periodic
//! binary value publication with reconnect-on-failure).
//!
//! Everything here is pure logic on plain values. The unverified shell around
//! the library performs the camera, detector, HTTP and websocket I/O and hands
//! the results in.

use vstd::prelude::*;

pub mod config;
pub mod data;
pub mod frame;
pub mod metrics;
pub mod nt;
pub mod text;
pub mod web;

verus! {

/// The display-scale divisor between the working resolution and the reduced
/// preview and mask images served over HTTP.
pub const SCALE: u32 = 2;

} // verus!
