//! Pole-detection controller: trigger evaluation over three ranging sensors,
//! the ordered axle commands it derives, the per-cycle dispatch state machine,
//! and the sensor bring-up plan.

pub mod sequencer;
pub mod dispatch;
pub mod bringup;
