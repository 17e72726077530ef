//! Monitors that compare successive snapshots and raise events.

pub mod appearance;
pub mod camera;
pub mod cargo;
pub mod explosion;
pub mod vending;
