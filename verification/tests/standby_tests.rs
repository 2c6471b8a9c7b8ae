use timerset::standby::{
    MemoryListSnapshot, MonitorAction, MonitorEvent, MonitorPhase, StandbyListCleaner,
    WaitStrategy, STATUS_PRIVILEGE_NOT_HELD, STATUS_SUCCESS,
};

fn thresholds_of_one_gb() -> StandbyListCleaner {
    // 1000 MB = 1_000_000_000 bytes on either threshold.
    StandbyListCleaner::default()
        .standby_list_size_threshold(1000)
        .free_memory_size_threshold(1000)
}

fn pressured_snapshot() -> MemoryListSnapshot {
    // With a 4096-byte page: 100_000 reusable pages = 409_600_000 bytes free,
    // 600_000 standby pages = 2_457_600_000 bytes cached.
    MemoryListSnapshot {
        zero_page_count: 60_000,
        free_page_count: 40_000,
        modified_page_count: 1_000,
        modified_page_count_pagefile: 500,
        bad_page_count: 3,
        page_count_by_priority: [100_000, 200_000, 100_000, 100_000, 50_000, 25_000, 15_000, 10_000],
    }
}

#[test]
fn purge_triggers_on_low_free_memory_and_large_standby_list() {
    let cleaner = thresholds_of_one_gb();
    assert!(cleaner.purge_warranted(500_000_000, 2_000_000_000));
}

#[test]
fn purge_does_not_trigger_with_ample_free_memory() {
    let cleaner = thresholds_of_one_gb();
    assert!(!cleaner.purge_warranted(2_000_000_000, 2_000_000_000));
    assert!(!cleaner.purge_warranted(2_000_000_000, u64::MAX as u128));
}

#[test]
fn purge_does_not_trigger_with_a_small_standby_list() {
    let cleaner = thresholds_of_one_gb();
    assert!(!cleaner.purge_warranted(500_000_000, 500_000_000));
    // The boundary is strict on both sides.
    assert!(!cleaner.purge_warranted(1_000_000_000, 2_000_000_000));
    assert!(!cleaner.purge_warranted(500_000_000, 1_000_000_000));
}

#[test]
fn snapshot_byte_quantities_are_exact() {
    let snapshot = pressured_snapshot();
    assert_eq!(snapshot.free_memory_bytes(4096), 409_600_000);
    assert_eq!(snapshot.standby_list_bytes(4096), 2_457_600_000);
}

#[test]
fn should_purge_combines_snapshot_and_thresholds() {
    let cleaner = thresholds_of_one_gb();
    assert!(cleaner.should_purge(&pressured_snapshot(), 4096));
    // On a smaller page the standby list no longer exceeds its threshold.
    assert!(!cleaner.should_purge(&pressured_snapshot(), 512));
}

#[test]
fn builders_convert_megabytes_and_seconds() {
    let cleaner = StandbyListCleaner::default()
        .free_memory_size_threshold(1024)
        .poll_interval(10);
    assert_eq!(cleaner.poll_millis(), 10_000);
    // The registry entry takes the byte threshold truncated to 32 bits;
    // 1024 MB still fits untruncated.
    assert_eq!(cleaner.registry_low_memory_value(), 1_024_000_000);
}

#[test]
fn default_configuration_polls_every_ten_seconds() {
    let cleaner = StandbyListCleaner::default();
    assert_eq!(cleaner.poll_millis(), 10_000);
    assert_eq!(cleaner.strategy(), WaitStrategy::Poll);
}

#[test]
fn wait_strategy_is_selected_at_construction() {
    let cleaner = StandbyListCleaner::default().with_wait_strategy(WaitStrategy::Notify);
    assert_eq!(cleaner.strategy(), WaitStrategy::Notify);
}

#[test]
fn throttle_defers_a_wake_within_half_the_poll_interval() {
    let mut cleaner = StandbyListCleaner::default().poll_interval(10);
    // First wake at 100 s; the notification fires again 4 s later, well
    // within half the 10 s poll interval.
    cleaner.record_wake(100_000);
    let delay = cleaner.throttle_delay(104_000);
    assert_eq!(delay, 6_000);
    // The next evaluation begins no earlier than a full poll interval after
    // the previous wake.
    assert!(104_000 + delay >= 100_000 + cleaner.poll_millis());
}

#[test]
fn throttle_sleeps_nothing_once_the_interval_has_elapsed() {
    let mut cleaner = StandbyListCleaner::default().poll_interval(10);
    assert_eq!(cleaner.throttle_delay(50_000), 0);
    cleaner.record_wake(100_000);
    assert_eq!(cleaner.throttle_delay(110_000), 0);
    assert_eq!(cleaner.throttle_delay(200_000), 0);
}

#[test]
fn monitor_escalates_once_then_samples() {
    let cleaner = StandbyListCleaner::default();
    let (phase, action) = cleaner.monitor_start();
    assert_eq!(phase, MonitorPhase::Escalating);
    assert_eq!(action, MonitorAction::EscalatePrivilege);
    let (phase, action) = cleaner.monitor_step(phase, MonitorEvent::EscalationFinished, 4096);
    assert_eq!(phase, MonitorPhase::Sampling);
    assert_eq!(action, MonitorAction::SampleMemory);
}

#[test]
fn monitor_purges_when_a_sample_crosses_the_thresholds() {
    let cleaner = thresholds_of_one_gb();
    let (phase, action) = cleaner.monitor_step(
        MonitorPhase::Sampling,
        MonitorEvent::SampleTaken(pressured_snapshot()),
        4096,
    );
    assert_eq!(phase, MonitorPhase::Purging);
    assert_eq!(action, MonitorAction::PurgeStandbyList);
}

#[test]
fn monitor_skips_the_purge_when_free_memory_is_ample() {
    let cleaner = thresholds_of_one_gb();
    let mut relaxed = pressured_snapshot();
    relaxed.zero_page_count = 300_000;
    relaxed.free_page_count = 300_000;
    let (phase, action) = cleaner.monitor_step(
        MonitorPhase::Sampling,
        MonitorEvent::SampleTaken(relaxed),
        4096,
    );
    assert_eq!(phase, MonitorPhase::Waiting);
    assert_eq!(action, MonitorAction::Wait);
}

#[test]
fn sampling_failure_is_fatal() {
    let cleaner = StandbyListCleaner::default();
    let status = -1073741790; // a generic access-denied status
    let (phase, action) =
        cleaner.monitor_step(MonitorPhase::Sampling, MonitorEvent::SampleFailed(status), 4096);
    assert_eq!(phase, MonitorPhase::Stopped);
    assert_eq!(action, MonitorAction::Fail(status));
}

#[test]
fn purge_without_the_privilege_is_recoverable() {
    let cleaner = StandbyListCleaner::default();
    let (phase, action) = cleaner.monitor_step(
        MonitorPhase::Purging,
        MonitorEvent::PurgeFinished(STATUS_PRIVILEGE_NOT_HELD),
        4096,
    );
    // The loop keeps running: the next iteration is scheduled.
    assert_eq!(phase, MonitorPhase::Waiting);
    assert_eq!(action, MonitorAction::Wait);
    let (phase, action) = cleaner.monitor_step(phase, MonitorEvent::WaitFinished, 4096);
    assert_eq!(phase, MonitorPhase::Sampling);
    assert_eq!(action, MonitorAction::SampleMemory);
}

#[test]
fn any_other_purge_failure_stops_the_loop() {
    let cleaner = StandbyListCleaner::default();
    let status = -1073741790;
    let (phase, action) = cleaner.monitor_step(
        MonitorPhase::Purging,
        MonitorEvent::PurgeFinished(status),
        4096,
    );
    assert_eq!(phase, MonitorPhase::Stopped);
    assert_eq!(action, MonitorAction::Fail(status));
}

#[test]
fn a_successful_purge_schedules_the_next_wait() {
    let cleaner = StandbyListCleaner::default();
    let (phase, action) = cleaner.monitor_step(
        MonitorPhase::Purging,
        MonitorEvent::PurgeFinished(STATUS_SUCCESS),
        4096,
    );
    assert_eq!(phase, MonitorPhase::Waiting);
    assert_eq!(action, MonitorAction::Wait);
}
