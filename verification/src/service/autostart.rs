//! The "start with the OS" toggle for platforms without a backend for it.
//! Only Windows has one (the per-user `Run` registry key); there the
//! application provides it, and everywhere else these are the answers:
//! not supported, never enabled, and enabling fails.
use vstd::prelude::*;

verus! {

/// Why the autostart setting could not be changed.
#[derive(Debug, Clone, Copy, PartialEq, Eq, Structural)]
pub enum AutostartError {
    /// No autostart backend exists for this platform yet.
    Unsupported,
}

/// Whether autostart is currently enabled: never, without a backend.
pub fn is_enabled() -> (enabled: bool)
    ensures
        !enabled,
{
    false
}

/// Changing the setting fails: autostart isn't implemented on this
/// platform.
pub fn set_enabled(enabled: bool) -> (result: Result<(), AutostartError>)
    ensures
        result == Err::<(), AutostartError>(AutostartError::Unsupported),
{
    Err(AutostartError::Unsupported)
}

/// Whether the platform has an autostart backend, which gates the tray
/// menu item: it does not.
pub fn is_supported() -> (supported: bool)
    ensures
        !supported,
{
    false
}

} // verus!
