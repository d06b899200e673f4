//! The telemetry event bus is a single broadcast channel that every enabled
//! source publishes onto and every enabled output subscribes to
//! independently; this module holds its sizing.
use vstd::prelude::*;

verus! {

/// Default channel capacity: frames buffered per subscriber before a slow
/// subscriber starts lagging. At ~60 frames/sec this is a few seconds of
/// headroom.
pub const DEFAULT_CAPACITY: usize = 256;

} // verus!
