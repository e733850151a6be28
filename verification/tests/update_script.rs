use replay_control::background::BackgroundManager;

const UPDATE_DIR: &str = "/var/tmp/replay-control-update";

#[test]
fn script_includes_catalog_handling_when_path_some() {
    let script = BackgroundManager::generate_update_script(
        "/tmp/extracted/replay-control-app",
        "/tmp/extracted/site",
        Some("/tmp/extracted/catalog.sqlite"),
        "0.5.0",
        UPDATE_DIR,
    );
    assert!(script.contains(r#"CATALOG_SRC="/tmp/extracted/catalog.sqlite""#));
    assert!(script.contains(r#"CATALOG_DST="/usr/local/bin/catalog.sqlite""#));
    assert!(script.contains(r#"backup "$CATALOG_DST""#));
    assert!(script.contains(r#"swap "$CATALOG_SRC" "$CATALOG_DST""#));
    assert!(script.contains(r#"restore "$CATALOG_DST""#));
    assert!(script.contains("chmod 644"));
}

#[test]
fn script_omits_catalog_swap_when_path_none() {
    let script = BackgroundManager::generate_update_script(
        "/tmp/extracted/replay-control-app",
        "/tmp/extracted/site",
        None,
        "0.5.0",
        UPDATE_DIR,
    );
    assert!(script.contains(r#"CATALOG_SRC="""#));
    assert!(script.contains(r#"swap()"#));
}

#[test]
fn script_validates_version() {
    let script = BackgroundManager::generate_update_script("/tmp/binary", "/tmp/site", None, "0.5.0", UPDATE_DIR);
    assert!(script.contains(r#"validate_version "0.5.0""#));
    assert!(script.contains("Invalid version string"));
}

#[test]
fn script_fills_in_every_path() {
    let script = BackgroundManager::generate_update_script(
        "/tmp/x/replay-control-app",
        "/tmp/x/site",
        None,
        "1.2.3",
        UPDATE_DIR,
    );
    assert!(script.starts_with("#!/bin/bash"));
    assert!(script.contains("/tmp/x/replay-control-app"));
    assert!(script.contains("/tmp/x/site"));
    assert_eq!(script.matches(UPDATE_DIR).count(), 2);
    assert_eq!(script.matches("1.2.3").count(), 2);
}
