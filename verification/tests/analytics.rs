use replay_control::analytics::{build_analytics_ping, should_mark_version_reported, AnalyticsSettings};

const VERSION: &str = "0.5.0";
const FRESH: &str = "6f1c2d3e-4a5b-4c6d-8e7f-901234567890";

fn settings(
    enabled: bool,
    install_id: Option<&str>,
    reported: Option<&str>,
) -> AnalyticsSettings {
    AnalyticsSettings {
        analytics_enabled: enabled,
        install_id: install_id.map(|s| s.to_string()),
        version_last_reported: reported.map(|s| s.to_string()),
    }
}

#[test]
fn build_ping_returns_install_on_new_version() {
    let s = settings(true, None, None);
    let p = build_analytics_ping(&s, FRESH.to_string(), VERSION, "aarch64", "stable").unwrap();
    assert!(p.is_install);
    assert_eq!(p.ping.event, "install");
    assert_eq!(p.ping.version, VERSION);
    assert_eq!(p.ping.arch, "aarch64");
    assert_eq!(p.ping.channel, "stable");
}

#[test]
fn build_ping_returns_heartbeat_after_version_reported() {
    let s = settings(true, None, Some(VERSION));
    let p = build_analytics_ping(&s, FRESH.to_string(), VERSION, "x86_64", "beta").unwrap();
    assert!(!p.is_install);
    assert_eq!(p.ping.event, "heartbeat");
}

#[test]
fn build_ping_reports_install_again_after_upgrade() {
    let s = settings(true, None, Some("0.4.9"));
    let p = build_analytics_ping(&s, FRESH.to_string(), VERSION, "x86_64", "stable").unwrap();
    assert!(p.is_install);
    assert_eq!(p.ping.event, "install");
}

#[test]
fn build_ping_returns_none_when_opted_out() {
    let s = settings(false, Some(FRESH), None);
    assert!(build_analytics_ping(&s, FRESH.to_string(), VERSION, "x86_64", "stable").is_none());
}

#[test]
fn build_ping_replaces_invalid_uuid() {
    let s = settings(true, Some("not-a-uuid"), None);
    let p = build_analytics_ping(&s, FRESH.to_string(), VERSION, "x86_64", "stable").unwrap();
    uuid::Uuid::parse_str(&p.ping.install_id).expect("install_id should be a valid UUID");
    assert_eq!(p.ping.install_id, FRESH);
    assert!(p.persist_install_id, "invalid UUID should have been replaced");
}

#[test]
fn build_ping_keeps_valid_uuid_in_canonical_form() {
    let stored = "A1B2C3D4-E5F6-4A7B-8C9D-0E1F2A3B4C5D";
    let s = settings(true, Some(stored), None);
    let p = build_analytics_ping(&s, FRESH.to_string(), VERSION, "x86_64", "stable").unwrap();
    assert_eq!(p.ping.install_id, "a1b2c3d4-e5f6-4a7b-8c9d-0e1f2a3b4c5d");
    assert!(!p.persist_install_id);
}

#[test]
fn build_ping_without_stored_id_persists_fresh_one() {
    let s = settings(true, None, Some(VERSION));
    let p = build_analytics_ping(&s, FRESH.to_string(), VERSION, "x86_64", "stable").unwrap();
    assert_eq!(p.ping.install_id, FRESH);
    assert!(p.persist_install_id);
}

#[test]
fn mark_version_reported_persists_version() {
    assert!(should_mark_version_reported(true, true));
    assert!(!should_mark_version_reported(true, false));
    assert!(!should_mark_version_reported(false, true));
    assert!(!should_mark_version_reported(false, false));
}
