use replay_control::background::BackgroundManager;
use replay_control::tuning::{env_duration_secs, env_flag};

#[test]
fn flags_accept_the_documented_spellings() {
    for v in ["1", "true", "TRUE", "yes", "YES"] {
        assert!(env_flag(Some(v)), "{v}");
    }
    for v in ["0", "false", "True", "Yes", "on", "", " 1"] {
        assert!(!env_flag(Some(v)), "{v}");
    }
    assert!(!env_flag(None));
}

#[test]
fn first_run_seed_is_skipped_only_by_the_flag() {
    assert!(BackgroundManager::first_run_seed_enabled(None));
    assert!(BackgroundManager::first_run_seed_enabled(Some("no")));
    assert!(!BackgroundManager::first_run_seed_enabled(Some("1")));
}

#[test]
fn numbers_parse_as_std_does() {
    assert_eq!(env_duration_secs(Some("42"), 1, 0), 42);
    assert_eq!(env_duration_secs(Some("+7"), 1, 0), 7);
    assert_eq!(env_duration_secs(Some("18446744073709551615"), 1, 0), u64::MAX);
    assert_eq!(env_duration_secs(Some("18446744073709551616"), 1, 0), 1);
    assert_eq!(env_duration_secs(Some("-1"), 1, 0), 1);
    assert_eq!(env_duration_secs(Some(""), 1, 0), 1);
    assert_eq!(env_duration_secs(Some("4x"), 1, 0), 1);
    assert_eq!(BackgroundManager::identity_worker_count(Some("3")), 3);
    assert_eq!(BackgroundManager::identity_worker_count(Some("abc")), 2);
    assert_eq!(env_duration_secs(Some("+"), 9, 0), 9);
    assert_eq!(env_duration_secs(Some("0042"), 9, 0), 42);
    assert_eq!(env_duration_secs(Some(" 42"), 9, 0), 9);
    assert_eq!(BackgroundManager::identity_worker_count(Some("99999999999999999999999")), 2);
}

#[test]
fn durations_fall_back_and_clamp() {
    assert_eq!(env_duration_secs(None, 60, 0), 60);
    assert_eq!(env_duration_secs(Some("oops"), 60, 0), 60);
    assert_eq!(env_duration_secs(Some("5"), 60, 0), 5);
    assert_eq!(env_duration_secs(Some("0"), 86400, 1), 1);
    assert_eq!(BackgroundManager::update_initial_delay(None), 60);
    assert_eq!(BackgroundManager::update_initial_delay(Some("0")), 0);
    assert_eq!(BackgroundManager::update_interval(None), 86400);
    assert_eq!(BackgroundManager::update_interval(Some("0")), 1);
    assert_eq!(BackgroundManager::update_interval(Some("3600")), 3600);
}

#[test]
fn identity_workers_are_between_one_and_four() {
    assert_eq!(BackgroundManager::identity_worker_count(None), 2);
    assert_eq!(BackgroundManager::identity_worker_count(Some("1")), 1);
    assert_eq!(BackgroundManager::identity_worker_count(Some("4")), 4);
    assert_eq!(BackgroundManager::identity_worker_count(Some("0")), 2);
    assert_eq!(BackgroundManager::identity_worker_count(Some("5")), 2);
    assert_eq!(BackgroundManager::identity_worker_count(Some("many")), 2);
}
