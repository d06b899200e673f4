//! Service-level helpers: where configuration files are looked for and
//! saved, and the "start with the OS" toggle.
pub mod autostart;
pub mod config_paths;
