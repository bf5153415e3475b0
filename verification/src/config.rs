//! Run configuration: the two interval lengths, with compiled-in defaults
//! substituted for missing or unusable (zero) values.

use vstd::prelude::*;

verus! {

/// Default work-interval length: 25 minutes, in milliseconds.
pub const DEFAULT_WORK_LENGTH_MS: u64 = 25 * 60 * 1000;

/// Default break-interval length: 5 minutes, in milliseconds.
pub const DEFAULT_BREAK_LENGTH_MS: u64 = 5 * 60 * 1000;

/// The two interval lengths of a run, in milliseconds. Both are positive;
/// use [`Config::sanitized`] to build one from untrusted input.
pub struct Config {
    pub work_length: u64,
    pub break_length: u64,
}

impl Config {
    /// Both lengths are positive.
    pub open spec fn wf(&self) -> bool {
        self.work_length > 0 && self.break_length > 0
    }

    /// Builds a configuration from possibly-unusable lengths (say, parsed
    /// from a configuration file or the command line), substituting the
    /// compiled-in default for each zero value.
    pub fn sanitized(work_length: u64, break_length: u64) -> (c: Config)
        ensures
            c.wf(),
            work_length > 0 ==> c.work_length == work_length,
            work_length == 0 ==> c.work_length == DEFAULT_WORK_LENGTH_MS,
            break_length > 0 ==> c.break_length == break_length,
            break_length == 0 ==> c.break_length == DEFAULT_BREAK_LENGTH_MS,
    {
        Config {
            work_length: if work_length > 0 { work_length } else { DEFAULT_WORK_LENGTH_MS },
            break_length: if break_length > 0 { break_length } else { DEFAULT_BREAK_LENGTH_MS },
        }
    }

    /// The compiled-in default configuration.
    pub fn default_config() -> (c: Config)
        ensures
            c.wf(),
            c.work_length == DEFAULT_WORK_LENGTH_MS,
            c.break_length == DEFAULT_BREAK_LENGTH_MS,
    {
        Config { work_length: DEFAULT_WORK_LENGTH_MS, break_length: DEFAULT_BREAK_LENGTH_MS }
    }
}

} // verus!
