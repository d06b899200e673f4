//! Configuration schema defaults. Every field of the configuration has a
//! default so that an empty or missing file -- or a missing section within
//! it -- degrades gracefully instead of failing to parse.
use vstd::prelude::*;
use vstd::string::*;

use crate::bus::DEFAULT_CAPACITY;

verus! {

/// The telemetry sources section. A source is enabled by its sub-section
/// being present.
#[derive(Debug, Clone)]
pub struct SourcesConfig {
    pub forza: Option<ForzaSourceConfig>,
}

impl Default for SourcesConfig {
    /// No source configured.
    fn default() -> (config: Self)
        ensures
            config.forza is None,
    {
        SourcesConfig { forza: None }
    }
}

/// The Forza source's section.
#[derive(Debug, Clone)]
pub struct ForzaSourceConfig {
    /// UDP address to bind and listen on for Forza's "Data Out" feature.
    pub bind_addr: String,
}

/// Default capacity of the telemetry bus.
pub fn default_bus_capacity() -> (capacity: usize)
    ensures
        capacity == DEFAULT_CAPACITY,
{
    DEFAULT_CAPACITY
}

/// Default address the Forza source listens on: every interface, port
/// 5300 (what the games' Data Out setting is pointed at).
pub fn default_forza_bind() -> (addr: String)
    ensures
        addr@ == "0.0.0.0:5300"@,
{
    String::from_str("0.0.0.0:5300")
}

/// Default of the LED output's `enabled` switch.
pub fn default_true() -> (enabled: bool)
    ensures
        enabled,
{
    true
}

/// Default of the LED output's `blink_at_redline` switch.
pub fn default_blink() -> (blink: bool)
    ensures
        blink,
{
    true
}

} // verus!
