//! Emulation of a linear array of infrared break-beam "air" sensors from
//! optical hand-tracking data.
//!
//! A tracking frame carries zero or more hands, each with a palm position and
//! digit joint positions. Each tracked point is bucketed into one of
//! [`config::NUM_SENSORS`] height bands; the frame's sensor state is the
//! logical OR of all bands hit by any point. A change gate suppresses
//! republication of unchanged states, and a lock-protected channel publishes
//! snapshots to a consumer thread without tearing.

pub mod binner;
pub mod channel;
pub mod config;
pub mod frame;
pub mod gate;
pub mod pump;
