//! The settings of an application: built-in defaults that a settings file,
//! the process variables and the command line may override, in this order.

use vstd::prelude::*;
use vstd::string::StringExecFns;

verus! {

/// What an application is configured with.
#[derive(Debug, PartialEq, Eq)]
pub struct AppConfig {
    pub debug: bool,
    pub log_level: String,
    pub log_file: String,
}

impl Default for AppConfig {
    /// The settings where nothing overrides them: no debugging, level
    /// `info`, log file `app.log`.
    fn default() -> (r: AppConfig)
        ensures
            !r.debug,
            r.log_level@ == "info"@,
            r.log_file@ == "app.log"@,
    {
        AppConfig {
            debug: false,
            log_level: String::from_str("info"),
            log_file: String::from_str("app.log"),
        }
    }
}

impl AppConfig {
    /// Applies the command line's debug switch: it can turn debugging on,
    /// never off.
    pub fn apply_debug_flag(&mut self, flag: bool)
        ensures
            final(self).debug == (old(self).debug || flag),
            final(self).log_level == old(self).log_level,
            final(self).log_file == old(self).log_file,
    {
        if flag {
            self.debug = true;
        }
    }
}

} // verus!
