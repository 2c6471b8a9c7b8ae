use timerset::logger::Logger;
use timerset::opts::Opts;
use timerset::task::{ExecAction, LogonTrigger};
use timerset::timer::TimerResolutionInfo;

fn base_opts() -> Opts {
    Opts {
        pretend: false,
        install: false,
        uninstall: false,
        timer: None,
        clean_standby_list: true,
        clean_standby_list_poll_freq: 10,
        clear_standby_cached_mem: 1024,
        clear_standby_free_mem: 1024,
        values: false,
    }
}

#[test]
fn chosen_timer_value_clamps_a_request() {
    let info = TimerResolutionInfo { cur: 156250, min: 156250, max: 5000 };
    let mut opts = base_opts();
    opts.timer = Some(100);
    assert_eq!(opts.chosen_timer_value(&info), 5000);
    opts.timer = Some(10000);
    assert_eq!(opts.chosen_timer_value(&info), 10000);
}

#[test]
fn chosen_timer_value_defaults_to_the_finest_allowed() {
    let info = TimerResolutionInfo { cur: 156250, min: 156250, max: 5000 };
    assert_eq!(base_opts().chosen_timer_value(&info), 5000);
}

#[test]
fn configured_cleaner_takes_thresholds_and_interval_from_the_options() {
    let mut opts = base_opts();
    opts.clear_standby_cached_mem = 1000;
    opts.clear_standby_free_mem = 1000;
    opts.clean_standby_list_poll_freq = 30;
    let cleaner = opts.configured_cleaner();
    assert_eq!(cleaner.poll_millis(), 30_000);
    assert_eq!(cleaner.registry_low_memory_value(), 1_000_000_000);
    // 1000 MB thresholds: low free memory beside an oversized standby list.
    assert!(cleaner.purge_warranted(999_999_999, 1_000_000_001));
    assert!(!cleaner.purge_warranted(1_000_000_000, 1_000_000_001));
}

#[test]
fn logger_initialises_once() {
    let mut logger = Logger::new();
    assert!(!logger.is_initialized());
    logger.mark_initialized();
    assert!(logger.is_initialized());
}

#[test]
fn exec_action_setters_fill_their_own_field_only() {
    let mut action = ExecAction::new();
    assert_eq!(action.path(), &None);
    assert_eq!(action.arguments(), &None);
    assert_eq!(action.working_directory(), &None);
    action.set_path("timerset.exe".to_string());
    assert_eq!(action.path().as_deref(), Some("timerset.exe"));
    assert_eq!(action.arguments(), &None);
    action.set_arguments("--islc".to_string());
    assert_eq!(action.arguments().as_deref(), Some("--islc"));
    action.set_working_directory("C:\\Program Files\\TimerSet".to_string());
    assert_eq!(
        action.working_directory().as_deref(),
        Some("C:\\Program Files\\TimerSet")
    );
    assert_eq!(action.path().as_deref(), Some("timerset.exe"));
}

#[test]
fn logon_trigger_setters_fill_their_own_field_only() {
    let mut trigger = LogonTrigger::new();
    assert_eq!(trigger.delay(), &None);
    assert_eq!(trigger.user_id(), &None);
    trigger.set_delay("PT10S".to_string());
    assert_eq!(trigger.delay().as_deref(), Some("PT10S"));
    assert_eq!(trigger.user_id(), &None);
    trigger.set_user_id("NT AUTHORITY\\SYSTEM".to_string());
    assert_eq!(trigger.user_id().as_deref(), Some("NT AUTHORITY\\SYSTEM"));
    assert_eq!(trigger.delay().as_deref(), Some("PT10S"));
}
