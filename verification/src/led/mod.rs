//! Driving the RPM shift-light LEDs of a Logitech G-series wheel over raw
//! USB HID.
//!
//! - [`curve`]: LED bar states.
//! - [`protocol`]: per-wheel-family HID report encoding.
//! - [`device`]: HID framing, choosing which enumerated interface to open,
//!   and the writer loop's state machine.
pub mod curve;
pub mod device;
pub mod protocol;
