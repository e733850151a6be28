use replay_control::app_state::{
    config_file_path, storage_changed, storage_kind_for_mode, StorageKind, DEFAULT_CONFIG_PATH,
};

#[test]
fn config_path_priority() {
    assert_eq!(config_file_path(Some("/etc/replay.cfg"), Some("/mnt/usb")), "/etc/replay.cfg");
    assert_eq!(config_file_path(None, Some("/mnt/usb")), "/mnt/usb/config/replay.cfg");
    assert_eq!(config_file_path(None, Some("/mnt/usb/")), "/mnt/usb/config/replay.cfg");
    assert_eq!(config_file_path(None, Some("")), "config/replay.cfg");
    assert_eq!(config_file_path(None, None), DEFAULT_CONFIG_PATH);
    assert_eq!(
        config_file_path(None, Some("/mnt/usb")),
        std::path::Path::new("/mnt/usb").join("config/replay.cfg").display().to_string()
    );
}

#[test]
fn storage_modes() {
    assert_eq!(storage_kind_for_mode("usb"), StorageKind::Usb);
    assert_eq!(storage_kind_for_mode("nfs"), StorageKind::Nfs);
    assert_eq!(storage_kind_for_mode("sd"), StorageKind::Sd);
    assert_eq!(storage_kind_for_mode("USB"), StorageKind::Sd);
    assert_eq!(storage_kind_for_mode(""), StorageKind::Sd);
}

#[test]
fn storage_change_detection() {
    assert!(!storage_changed(false, "/media/sd", StorageKind::Sd, "/media/sd", StorageKind::Sd));
    assert!(storage_changed(false, "/media/sd", StorageKind::Sd, "/media/usb", StorageKind::Usb));
    assert!(storage_changed(false, "/media/x", StorageKind::Sd, "/media/x", StorageKind::Nfs));
    assert!(!storage_changed(true, "/media/sd", StorageKind::Sd, "/media/usb", StorageKind::Usb));
}
