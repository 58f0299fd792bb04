//! The settings this layer reads at startup; loading them from files or
//! the environment is the host's business.

use vstd::prelude::*;

verus! {

/// The storage settings this layer reads: where the engine keeps its data,
/// and how to size the worker pools.  Everything else in the host's
/// configuration is passed through to the engine untouched.
#[derive(Clone, Debug, PartialEq, Eq)]
pub struct StorageSettings {
    pub storage_path: String,
    pub max_search_threads: usize,
    pub max_optimization_threads: usize,
}

/// The settings the embedded engine starts with.  Loading them from
/// configuration files and the environment is the host's business; this
/// layer only holds the values and their defaults.
#[derive(Clone, Debug, PartialEq, Eq)]
pub struct Settings {
    pub log_level: String,
    pub storage: StorageSettings,
    pub telemetry_disabled: bool,
}

/// The log level used when none is configured.
pub fn default_log_level() -> (r: String)
    ensures
        r@ == "INFO"@,
{
    "INFO".to_owned()
}

/// Whether telemetry is disabled when nothing is configured: it is not.
pub fn default_telemetry_disabled() -> (r: bool)
    ensures
        r == false,
{
    false
}

impl Settings {
    /// Settings with every defaulted field at its default.
    pub fn with_storage(storage: StorageSettings) -> (r: Settings)
        ensures
            r.log_level@ == "INFO"@,
            r.telemetry_disabled == false,
            r.storage == storage,
    {
        Settings {
            log_level: default_log_level(),
            storage,
            telemetry_disabled: default_telemetry_disabled(),
        }
    }
}

} // verus!
