//! Telemetry source for Forza Horizon 5/6 and Forza Motorsport, via the
//! games' built-in "Data Out" UDP telemetry. All three titles share the
//! same wire format lineage, so one parser covers all of them.
pub mod packet;
pub mod source;

pub use source::ForzaSource;
