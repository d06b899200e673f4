//! Verified core of a racing-game shift-light service: the Forza "Data Out"
//! packet parser, the Logitech wheel LED HID protocol and the decisions that
//! drive a wheel, and the service's configuration schema and search paths.
//!
//! - [`forza`]: byte-level parser for Forza's UDP telemetry and the source
//!   that republishes it.
//! - [`led`]: LED bar states, per-wheel HID report encoding, wheel
//!   selection among enumerated HID interfaces, and the writer's state
//!   machine.
//! - [`config`] and [`bus`]: configuration schema defaults and the event
//!   bus capacity.
//! - [`service`]: config-file search paths and the autostart fallback.
//! - [`diagnostics`]: developer tooling helpers.
pub mod bus;
pub mod config;
pub mod diagnostics;
pub mod forza;
pub mod led;
pub mod service;
