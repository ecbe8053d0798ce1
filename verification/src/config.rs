//! Settings of the agent.

use crate::severity::{classify, severity_of, Severity};
use vstd::prelude::*;

verus! {

/// Seconds between two periodic checks when nothing else is configured.
pub const DEFAULT_INTERVAL_SECONDS: u32 = 1200;

/// Count from which updates are a warning when nothing else is configured.
pub const DEFAULT_WARNING_THRESHOLD: u32 = 25;

/// Count from which updates are critical when nothing else is configured.
pub const DEFAULT_CRITICAL_THRESHOLD: u32 = 100;

/// Settings read once at startup.
///
/// Nothing ties the two thresholds together: a critical threshold that
/// does not exceed the warning threshold is accepted, and the severity
/// rule says what it means.
#[derive(Clone, Copy, Debug, PartialEq, Eq, Structural)]
pub struct Config {
    pub interval_seconds: u32,
    pub warning_threshold: u32,
    pub critical_threshold: u32,
}

impl Default for Config {
    fn default() -> (config: Config)
        ensures
            config.interval_seconds == DEFAULT_INTERVAL_SECONDS,
            config.warning_threshold == DEFAULT_WARNING_THRESHOLD,
            config.critical_threshold == DEFAULT_CRITICAL_THRESHOLD,
    {
        Config {
            interval_seconds: DEFAULT_INTERVAL_SECONDS,
            warning_threshold: DEFAULT_WARNING_THRESHOLD,
            critical_threshold: DEFAULT_CRITICAL_THRESHOLD,
        }
    }
}

impl Config {
    /// The tier of `count` pending updates under these settings.
    pub open spec fn severity_of(&self, count: nat) -> Severity {
        severity_of(count, self.warning_threshold as nat, self.critical_threshold as nat)
    }

    /// Classifies a number of pending updates under these settings.
    pub fn classify(&self, count: usize) -> (severity: Severity)
        ensures
            severity == self.severity_of(count as nat),
    {
        classify(count, self.warning_threshold, self.critical_threshold)
    }

    /// Time between two periodic checks, in milliseconds.
    pub fn interval_millis(&self) -> (millis: u64)
        ensures
            millis == self.interval_seconds * 1000,
    {
        let seconds: u64 = self.interval_seconds as u64;
        seconds * 1000
    }
}

} // verus!
