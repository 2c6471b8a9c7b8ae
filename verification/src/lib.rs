//! Kernel-resource control for a single Windows host: negotiating and
//! applying the NT kernel's global timer-interrupt resolution, and monitoring
//! memory pressure to trigger a privileged purge of the standby list (the
//! kernel's reclaimable file-cache pages) when configured thresholds are
//! crossed.
//!
//! This crate holds the decision logic — clamping, threshold evaluation, the
//! monitor state machine, the anti-flood throttle, and the command-line data
//! that the installer registers — with contracts verified by Verus. The
//! kernel queries and commands themselves are platform calls issued by the
//! surrounding binary, which feeds their plain-value results back in.

pub mod logger;
pub mod opts;
pub mod standby;
pub mod start_args;
pub mod task;
pub mod timer;
