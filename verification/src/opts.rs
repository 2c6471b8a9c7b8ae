//! The configuration surface the command line hands down: plain flags and
//! numbers, and the decisions the entry point derives from them.

use crate::standby::{StandbyListCleaner, WaitStrategy};
use crate::timer::TimerResolutionInfo;
use vstd::prelude::*;

verus! {

/// The options the process starts with. Parsing them from the command line
/// belongs to the surrounding binary; the decisions taken on them live
/// here.
#[derive(Debug, Clone)]
pub struct Opts {
    /// Show the actions that would be taken without modifying the system.
    pub pretend: bool,
    /// Install the program so that it runs on startup.
    pub install: bool,
    /// Undo the installation.
    pub uninstall: bool,
    /// A requested timer value in 100-nanosecond units, clamped into the
    /// kernel's allowed range before use.
    pub timer: Option<u32>,
    /// Enable the standby-list cleaner.
    pub clean_standby_list: bool,
    /// The cleaner's poll interval in seconds.
    pub clean_standby_list_poll_freq: u64,
    /// Standby-list threshold for the cleaner, in MB.
    pub clear_standby_cached_mem: u32,
    /// Free-memory threshold for the cleaner, in MB.
    pub clear_standby_free_mem: u32,
    /// Only print the possible timer value range, then exit.
    pub values: bool,
}

impl Opts {
    /// The timer value the process will apply: the requested one clamped
    /// into the fetched bounds, or — with no request — the finest allowed
    /// value.
    pub fn chosen_timer_value(&self, info: &TimerResolutionInfo) -> (r: u32)
        ensures
            r == match self.timer {
                Some(requested) => info.spec_clamp(requested),
                None => info.max,
            },
    {
        match self.timer {
            Some(requested) => info.clamp_timer_value(requested),
            None => info.max,
        }
    }

    /// The standby-list cleaner these options configure: both thresholds
    /// converted from MB, the poll interval from seconds, the polling wait
    /// strategy.
    pub fn configured_cleaner(&self) -> (r: StandbyListCleaner)
        requires
            self.clean_standby_list_poll_freq <= u64::MAX / 1000,
        ensures
            r.spec_standby_threshold() == self.clear_standby_cached_mem * 1_000_000,
            r.spec_free_threshold() == self.clear_standby_free_mem * 1_000_000,
            r.spec_poll_ms() == self.clean_standby_list_poll_freq * 1000,
            r.spec_strategy() == WaitStrategy::Poll,
            r.spec_last_wake() is None,
    {
        StandbyListCleaner::default()
            .standby_list_size_threshold(self.clear_standby_cached_mem)
            .free_memory_size_threshold(self.clear_standby_free_mem)
            .poll_interval(self.clean_standby_list_poll_freq)
    }
}

} // verus!
