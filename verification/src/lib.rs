//! Core of a small access-point telemetry device: validation of the
//! access-point parameters, the bring-up state machine, and the shared
//! telemetry record with its periodic refresh.

pub mod bringup;
pub mod clock;
pub mod sensor;
pub mod wifi;
