//! The standby-list cleaner: threshold configuration, memory-list snapshot
//! arithmetic, the purge decision, the monitor-loop state machine, and the
//! anti-flood throttle.
//!
//! The kernel queries and commands themselves (sampling the memory lists,
//! purging the standby list, sleeping, blocking on the low-memory
//! notification) are issued by the surrounding loop, which reports each
//! result back as a [`MonitorEvent`] and performs the [`MonitorAction`] the
//! step function hands out.

use vstd::arithmetic::mul::lemma_mul_upper_bound;
use vstd::prelude::*;

verus! {

/// The NTSTATUS value a kernel call reports on success.
pub const STATUS_SUCCESS: i32 = 0;

/// The NTSTATUS value (`STATUS_PRIVILEGE_NOT_HELD`, 0xC0000061) the purge
/// command reports when the calling process's token does not hold the
/// privilege it requires. This outcome is recoverable: the loop continues.
pub const STATUS_PRIVILEGE_NOT_HELD: i32 = -1073741727;

/// One reading of the kernel's memory-list statistics, in pages. Ephemeral:
/// re-read every iteration and never retained across iterations.
#[derive(Debug, Clone, Copy, PartialEq, Eq)]
pub struct MemoryListSnapshot {
    /// Pages zeroed and ready for reuse without write-back.
    pub zero_page_count: u64,
    /// Pages free for reuse without write-back, not yet zeroed.
    pub free_page_count: u64,
    /// Dirty pages pending write-back.
    pub modified_page_count: u64,
    /// Dirty pages pending write-back to the page file.
    pub modified_page_count_pagefile: u64,
    /// Pages the kernel has marked unusable.
    pub bad_page_count: u64,
    /// Standby-list pages bucketed by reclaim priority (0 = most
    /// reclaimable).
    pub page_count_by_priority: [u64; 8],
}

impl MemoryListSnapshot {
    /// Pages that are immediately reusable without write-back: the zeroed
    /// and the free ones.
    pub open spec fn spec_free_pages(self) -> int {
        self.zero_page_count + self.free_page_count
    }

    /// Standby-list pages summed over all eight reclaim priorities.
    pub open spec fn spec_standby_pages(self) -> int {
        self.page_count_by_priority[0] + self.page_count_by_priority[1]
            + self.page_count_by_priority[2] + self.page_count_by_priority[3]
            + self.page_count_by_priority[4] + self.page_count_by_priority[5]
            + self.page_count_by_priority[6] + self.page_count_by_priority[7]
    }

    /// Free memory in bytes: zeroed plus free pages, times the page size.
    pub fn free_memory_bytes(&self, page_size: u32) -> (r: u128)
        ensures
            r == self.spec_free_pages() * page_size,
    {
        let pages: u128 = self.zero_page_count as u128 + self.free_page_count as u128;
        proof {
            lemma_mul_upper_bound(pages as int, 0x2_0000_0000_0000_0000, page_size as int, 0xFFFF_FFFF);
        }
        pages * (page_size as u128)
    }

    /// Standby-list size in bytes: the per-priority page counts summed,
    /// times the page size.
    pub fn standby_list_bytes(&self, page_size: u32) -> (r: u128)
        ensures
            r == self.spec_standby_pages() * page_size,
    {
        let p = &self.page_count_by_priority;
        let pages: u128 = p[0] as u128 + p[1] as u128 + p[2] as u128 + p[3] as u128
            + p[4] as u128 + p[5] as u128 + p[6] as u128 + p[7] as u128;
        proof {
            lemma_mul_upper_bound(pages as int, 0x8_0000_0000_0000_0000, page_size as int, 0xFFFF_FFFF);
        }
        pages * (page_size as u128)
    }
}

/// How the monitor loop waits between iterations: a fixed sleep of the poll
/// interval, or a block on the OS low-memory notification guarded by the
/// anti-flood throttle. Selected at construction time so that both
/// strategies share one code path.
#[derive(Debug, Clone, Copy, PartialEq, Eq)]
pub enum WaitStrategy {
    /// Sleep for the poll interval.
    Poll,
    /// Block on the low-memory notification, throttled.
    Notify,
}

/// The phases of the monitor loop. The loop has no terminal phase except
/// [`MonitorPhase::Stopped`], reached only on an unrecoverable OS error.
#[derive(Debug, Clone, Copy, PartialEq, Eq)]
pub enum MonitorPhase {
    /// Raising the process privilege, once, before the first sample.
    Escalating,
    /// Querying the kernel's memory-list statistics.
    Sampling,
    /// Issuing the purge command. The call may block for several seconds
    /// while the kernel reclaims pages; that is normal, not a hang.
    Purging,
    /// Waiting out the interval until the next sample.
    Waiting,
    /// Terminal: an unrecoverable OS error was met.
    Stopped,
}

/// What the surrounding loop reports back after performing an action.
#[derive(Debug, Clone, Copy, PartialEq, Eq)]
pub enum MonitorEvent {
    /// The one-time privilege escalation finished — successfully or not. A
    /// failure here is deliberately not fatal: a purge attempted without
    /// the privilege surfaces later as a recoverable condition.
    EscalationFinished,
    /// The memory-list query succeeded with this reading.
    SampleTaken(MemoryListSnapshot),
    /// The memory-list query failed with this non-success status.
    SampleFailed(i32),
    /// The purge command returned this status.
    PurgeFinished(i32),
    /// The sleep or notification wait returned.
    WaitFinished,
}

/// What the loop must do next.
#[derive(Debug, Clone, Copy, PartialEq, Eq)]
pub enum MonitorAction {
    /// Enable the required privilege on the process token.
    EscalatePrivilege,
    /// Query the kernel's memory-list statistics.
    SampleMemory,
    /// Issue the purge command for the standby list.
    PurgeStandbyList,
    /// Wait for the next iteration: sleep the poll interval (polling mode),
    /// or sleep the throttle's remainder and then block on the low-memory
    /// notification (event-driven mode).
    Wait,
    /// Terminate with the fatal status carried by the triggering event.
    Fail(i32),
}

/// Which events may answer which phase: the loop reports exactly the result
/// of the action that the phase stands for.
pub open spec fn event_fits(phase: MonitorPhase, event: MonitorEvent) -> bool {
    match phase {
        MonitorPhase::Escalating => event is EscalationFinished,
        MonitorPhase::Sampling => match event {
            MonitorEvent::SampleTaken(_) => true,
            MonitorEvent::SampleFailed(status) => status != STATUS_SUCCESS,
            _ => false,
        },
        MonitorPhase::Purging => event matches MonitorEvent::PurgeFinished(_),
        MonitorPhase::Waiting => event is WaitFinished,
        MonitorPhase::Stopped => false,
    }
}

/// The standby-list cleaner: its thresholds, its poll interval, its wait
/// strategy, and the throttle's record of the previous wake. Immutable once
/// the loop starts, except for the throttle timestamp.
#[derive(Debug, Clone, PartialEq, Eq)]
pub struct StandbyListCleaner {
    standbylist_threshold: u64,
    freemem_threshold: u64,
    poll_freq_ms: u64,
    wait_strategy: WaitStrategy,
    last_memory_wait: Option<u64>,
}

impl StandbyListCleaner {
    /// Byte threshold the standby list must exceed for a purge.
    pub closed spec fn spec_standby_threshold(self) -> u64 {
        self.standbylist_threshold
    }

    /// Byte threshold free memory must fall below for a purge.
    pub closed spec fn spec_free_threshold(self) -> u64 {
        self.freemem_threshold
    }

    /// The poll interval in milliseconds.
    pub closed spec fn spec_poll_ms(self) -> u64 {
        self.poll_freq_ms
    }

    /// The configured wait strategy.
    pub closed spec fn spec_strategy(self) -> WaitStrategy {
        self.wait_strategy
    }

    /// The previous wake of the event-driven wait, in milliseconds of the
    /// loop's monotonic clock, if one was recorded.
    pub closed spec fn spec_last_wake(self) -> Option<u64> {
        self.last_memory_wait
    }

    /// The purge rule: a purge is warranted iff free memory has fallen
    /// below the free-memory threshold AND the standby list has grown past
    /// its threshold. Both conditions are required — a low-free-memory
    /// condition with a small cache, or a large cache beside ample free
    /// memory, does not trigger a purge.
    pub open spec fn spec_purge_warranted(self, free_memory_bytes: int, standby_list_bytes: int) -> bool {
        free_memory_bytes < self.spec_free_threshold() && standby_list_bytes > self.spec_standby_threshold()
    }

    /// Standby List size threshold in MB.
    pub fn standby_list_size_threshold(self, threshold: u32) -> (r: Self)
        ensures
            r.spec_standby_threshold() == threshold * 1_000_000,
            r.spec_free_threshold() == self.spec_free_threshold(),
            r.spec_poll_ms() == self.spec_poll_ms(),
            r.spec_strategy() == self.spec_strategy(),
            r.spec_last_wake() == self.spec_last_wake(),
    {
        Self { standbylist_threshold: threshold as u64 * 1_000_000, ..self }
    }

    /// Free memory threshold in MB.
    pub fn free_memory_size_threshold(self, threshold: u32) -> (r: Self)
        ensures
            r.spec_free_threshold() == threshold * 1_000_000,
            r.spec_standby_threshold() == self.spec_standby_threshold(),
            r.spec_poll_ms() == self.spec_poll_ms(),
            r.spec_strategy() == self.spec_strategy(),
            r.spec_last_wake() == self.spec_last_wake(),
    {
        Self { freemem_threshold: threshold as u64 * 1_000_000, ..self }
    }

    /// Configurable poll interval in seconds. The interval must fit the
    /// millisecond representation kept internally.
    pub fn poll_interval(self, interval: u64) -> (r: Self)
        requires
            interval <= u64::MAX / 1000,
        ensures
            r.spec_poll_ms() == interval * 1000,
            r.spec_standby_threshold() == self.spec_standby_threshold(),
            r.spec_free_threshold() == self.spec_free_threshold(),
            r.spec_strategy() == self.spec_strategy(),
            r.spec_last_wake() == self.spec_last_wake(),
    {
        Self { poll_freq_ms: interval * 1000, ..self }
    }

    /// Selects how the loop waits between iterations.
    pub fn with_wait_strategy(self, strategy: WaitStrategy) -> (r: Self)
        ensures
            r.spec_strategy() == strategy,
            r.spec_standby_threshold() == self.spec_standby_threshold(),
            r.spec_free_threshold() == self.spec_free_threshold(),
            r.spec_poll_ms() == self.spec_poll_ms(),
            r.spec_last_wake() == self.spec_last_wake(),
    {
        Self { wait_strategy: strategy, ..self }
    }

    /// The poll interval in milliseconds, for the loop's sleep.
    pub fn poll_millis(&self) -> (r: u64)
        ensures
            r == self.spec_poll_ms(),
    {
        self.poll_freq_ms
    }

    /// The configured wait strategy.
    pub fn strategy(&self) -> (r: WaitStrategy)
        ensures
            r == self.spec_strategy(),
    {
        self.wait_strategy
    }

    /// The value for the memory manager's `LowMemoryThreshold` registry
    /// entry when the low-memory notification is set up: the free-memory
    /// threshold, truncated to the 32 bits the registry entry stores.
    pub fn registry_low_memory_value(&self) -> (r: u32)
        ensures
            r == self.spec_free_threshold() as u32,
    {
        #[verifier::truncate]
        (self.freemem_threshold as u32)
    }

    /// Applies the purge rule to derived byte quantities.
    pub fn purge_warranted(&self, free_memory_bytes: u128, standby_list_bytes: u128) -> (r: bool)
        ensures
            r == self.spec_purge_warranted(free_memory_bytes as int, standby_list_bytes as int),
    {
        free_memory_bytes < self.freemem_threshold as u128
            && standby_list_bytes > self.standbylist_threshold as u128
    }

    /// Derives free-memory and standby-list bytes from a snapshot and
    /// applies the purge rule.
    pub fn should_purge(&self, snapshot: &MemoryListSnapshot, page_size: u32) -> (r: bool)
        ensures
            r == self.spec_purge_warranted(
                snapshot.spec_free_pages() * page_size,
                snapshot.spec_standby_pages() * page_size,
            ),
    {
        let free_memory_bytes = snapshot.free_memory_bytes(page_size);
        let standby_list_bytes = snapshot.standby_list_bytes(page_size);
        self.purge_warranted(free_memory_bytes, standby_list_bytes)
    }

    /// The sleep the anti-flood throttle demands before the next block on
    /// the low-memory notification: nothing when no wake was recorded yet
    /// or a full poll interval has already elapsed, else the remainder of
    /// the interval. The notification can fire thousands of times per
    /// second under sustained pressure; without this sleep the purge logic
    /// would starve the rest of the system by spinning.
    pub open spec fn spec_throttle_delay(self, now_ms: u64) -> int {
        match self.spec_last_wake() {
            None => 0,
            Some(last) => if now_ms - last >= self.spec_poll_ms() {
                0
            } else {
                self.spec_poll_ms() - (now_ms - last)
            },
        }
    }

    /// Computes the throttle's sleep for a wait beginning at `now_ms` on
    /// the loop's monotonic clock.
    pub fn throttle_delay(&self, now_ms: u64) -> (r: u64)
        requires
            self.spec_last_wake() matches Some(last) ==> last <= now_ms,
        ensures
            r == self.spec_throttle_delay(now_ms),
    {
        match self.last_memory_wait {
            None => 0,
            Some(last) => {
                let elapsed = now_ms - last;
                if elapsed >= self.poll_freq_ms {
                    0
                } else {
                    self.poll_freq_ms - elapsed
                }
            },
        }
    }

    /// Records the moment the event-driven wait woke, for the next
    /// throttle computation. Nothing else changes.
    pub fn record_wake(&mut self, now_ms: u64)
        ensures
            final(self).spec_last_wake() == Some(now_ms),
            final(self).spec_standby_threshold() == old(self).spec_standby_threshold(),
            final(self).spec_free_threshold() == old(self).spec_free_threshold(),
            final(self).spec_poll_ms() == old(self).spec_poll_ms(),
            final(self).spec_strategy() == old(self).spec_strategy(),
    {
        self.last_memory_wait = Some(now_ms);
    }

    /// The monitor loop's transition relation, one action's result to the
    /// next action. Sampling failures are fatal; a purge refused for want
    /// of the privilege is recoverable and the loop keeps running; any
    /// other purge failure is fatal.
    pub open spec fn spec_step(self, phase: MonitorPhase, event: MonitorEvent, page_size: u32) -> (MonitorPhase, MonitorAction) {
        match (phase, event) {
            (MonitorPhase::Escalating, MonitorEvent::EscalationFinished) => (
                MonitorPhase::Sampling,
                MonitorAction::SampleMemory,
            ),
            (MonitorPhase::Sampling, MonitorEvent::SampleTaken(snapshot)) => if self.spec_purge_warranted(
                snapshot.spec_free_pages() * page_size,
                snapshot.spec_standby_pages() * page_size,
            ) {
                (MonitorPhase::Purging, MonitorAction::PurgeStandbyList)
            } else {
                (MonitorPhase::Waiting, MonitorAction::Wait)
            },
            (MonitorPhase::Sampling, MonitorEvent::SampleFailed(status)) => (
                MonitorPhase::Stopped,
                MonitorAction::Fail(status),
            ),
            (MonitorPhase::Purging, MonitorEvent::PurgeFinished(status)) => if status == STATUS_SUCCESS
                || status == STATUS_PRIVILEGE_NOT_HELD {
                (MonitorPhase::Waiting, MonitorAction::Wait)
            } else {
                (MonitorPhase::Stopped, MonitorAction::Fail(status))
            },
            (MonitorPhase::Waiting, MonitorEvent::WaitFinished) => (
                MonitorPhase::Sampling,
                MonitorAction::SampleMemory,
            ),
            // Unreachable under `event_fits`; a mismatched report stops the
            // loop.
            _ => (MonitorPhase::Stopped, MonitorAction::Fail(STATUS_SUCCESS)),
        }
    }

    /// The first phase and action of the loop: privilege escalation, once,
    /// before any sampling.
    pub fn monitor_start(&self) -> (r: (MonitorPhase, MonitorAction))
        ensures
            r == (MonitorPhase::Escalating, MonitorAction::EscalatePrivilege),
    {
        (MonitorPhase::Escalating, MonitorAction::EscalatePrivilege)
    }

    /// One step of the monitor loop: takes the result of the previous
    /// action, returns the next phase and the next action.
    pub fn monitor_step(&self, phase: MonitorPhase, event: MonitorEvent, page_size: u32) -> (r: (
        MonitorPhase,
        MonitorAction,
    ))
        requires
            event_fits(phase, event),
        ensures
            r == self.spec_step(phase, event, page_size),
    {
        match (phase, event) {
            (MonitorPhase::Escalating, MonitorEvent::EscalationFinished) => (
                MonitorPhase::Sampling,
                MonitorAction::SampleMemory,
            ),
            (MonitorPhase::Sampling, MonitorEvent::SampleTaken(snapshot)) => if self.should_purge(
                &snapshot,
                page_size,
            ) {
                (MonitorPhase::Purging, MonitorAction::PurgeStandbyList)
            } else {
                (MonitorPhase::Waiting, MonitorAction::Wait)
            },
            (MonitorPhase::Sampling, MonitorEvent::SampleFailed(status)) => (
                MonitorPhase::Stopped,
                MonitorAction::Fail(status),
            ),
            (MonitorPhase::Purging, MonitorEvent::PurgeFinished(status)) => if status == STATUS_SUCCESS
                || status == STATUS_PRIVILEGE_NOT_HELD {
                (MonitorPhase::Waiting, MonitorAction::Wait)
            } else {
                (MonitorPhase::Stopped, MonitorAction::Fail(status))
            },
            (MonitorPhase::Waiting, MonitorEvent::WaitFinished) => (
                MonitorPhase::Sampling,
                MonitorAction::SampleMemory,
            ),
            _ => (MonitorPhase::Stopped, MonitorAction::Fail(STATUS_SUCCESS)),
        }
    }
}

impl Default for StandbyListCleaner {
    /// The built-in starting configuration: thresholds of 1024 bytes each
    /// (callers raise them through the MB builders), a poll interval of ten
    /// seconds, the polling wait strategy, and no wake recorded.
    fn default() -> (r: Self)
        ensures
            r.spec_standby_threshold() == 1024,
            r.spec_free_threshold() == 1024,
            r.spec_poll_ms() == 10_000,
            r.spec_strategy() == WaitStrategy::Poll,
            r.spec_last_wake() is None,
    {
        Self {
            standbylist_threshold: 1024,
            freemem_threshold: 1024,
            poll_freq_ms: 10_000,
            wait_strategy: WaitStrategy::Poll,
            last_memory_wait: None,
        }
    }
}

/// Law: fatal versus recoverable purge outcomes. A purge refused because
/// the privilege is not held leaves the loop running — the next iteration
/// is scheduled — while any other non-success status stops the loop with
/// that status.
pub proof fn lemma_purge_outcome_split(cleaner: StandbyListCleaner, status: i32, page_size: u32)
    ensures
        status == STATUS_PRIVILEGE_NOT_HELD ==> cleaner.spec_step(
            MonitorPhase::Purging,
            MonitorEvent::PurgeFinished(status),
            page_size,
        ) == (MonitorPhase::Waiting, MonitorAction::Wait),
        status != STATUS_SUCCESS && status != STATUS_PRIVILEGE_NOT_HELD ==> cleaner.spec_step(
            MonitorPhase::Purging,
            MonitorEvent::PurgeFinished(status),
            page_size,
        ) == (MonitorPhase::Stopped, MonitorAction::Fail(status)),
{
}

/// Law: the anti-flood throttle. If the event-driven wait wakes again
/// within half a poll interval of the previous wake, the sleep the throttle
/// demands defers the next evaluation to at least one full poll interval
/// after that previous wake.
pub proof fn lemma_anti_flood_throttle(cleaner: StandbyListCleaner, previous_wake_ms: u64, now_ms: u64)
    requires
        cleaner.spec_last_wake() == Some(previous_wake_ms),
        previous_wake_ms <= now_ms,
        now_ms - previous_wake_ms <= cleaner.spec_poll_ms() / 2,
    ensures
        now_ms + cleaner.spec_throttle_delay(now_ms) >= previous_wake_ms + cleaner.spec_poll_ms(),
{
}

} // verus!
