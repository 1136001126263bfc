//! The settings the watchdog is started with.

use vstd::prelude::*;

verus! {

/// The two settings of the watchdog. Both are required and neither has a
/// default.
#[derive(Debug, PartialEq, Eq)]
pub struct Configuration {
    /// The directory whose volume is watched and whose tree is swept.
    pub base_dir: String,
    /// The directory in which the log file is kept.
    pub log_dir: String,
}

/// The setting without which the watchdog cannot start.
#[derive(Clone, Copy, Debug, PartialEq, Eq)]
pub enum MissingSetting {
    BaseDirectory,
    LogDirectory,
}

/// Puts the settings together from what the settings source holds for each.
/// It fails on the first that is missing, the base directory before the log
/// directory.
pub fn configure(base_dir: Option<String>, log_dir: Option<String>) -> (result: Result<
    Configuration,
    MissingSetting,
>)
    ensures
        result matches Ok(settings) ==> base_dir == Some(settings.base_dir) && log_dir == Some(
            settings.log_dir,
        ),
        result is Ok <==> base_dir is Some && log_dir is Some,
        result == Err::<Configuration, MissingSetting>(MissingSetting::BaseDirectory)
            <==> base_dir is None,
        result == Err::<Configuration, MissingSetting>(MissingSetting::LogDirectory)
            <==> base_dir is Some && log_dir is None,
{
    match base_dir {
        None => Err(MissingSetting::BaseDirectory),
        Some(base_dir) => match log_dir {
            None => Err(MissingSetting::LogDirectory),
            Some(log_dir) => Ok(Configuration { base_dir, log_dir }),
        },
    }
}

} // verus!
