//! Core of a small Bluetooth tag: a session controller that coordinates
//! connections, the hibernation timer, the alarm and the LED, and an audio
//! engine that turns alert sounds into a stream of tones for a PWM output.
//!
//! Nothing here touches hardware. Peripherals and radio are reached through
//! [`app::PeripheralsDriver`] and [`app::BleDriver`]; the one-shot timer
//! service and the PWM output are driven by the caller from the values that
//! the functions of this crate return.

/// Session controller and the interfaces of its collaborators
pub mod app;
/// Values of the characteristics that the tag offers
pub mod ble;
/// Hardware-independent part of the peripherals
pub mod peripherals;
