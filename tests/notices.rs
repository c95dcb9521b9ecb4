use zed::{config_error_notice, launch_failure_detail, ConfigFile};

#[test]
fn keymap_error_notice() {
    let n = config_error_notice(ConfigFile::Keymap, Some("expected `,`")).unwrap();
    assert_eq!(n.message, "Invalid keymap file\nexpected `,`");
    assert_eq!(n.click_message, "Open keymap file");
    assert_eq!(n.opens, ConfigFile::Keymap);
}

#[test]
fn settings_error_notice() {
    let n = config_error_notice(ConfigFile::Settings, Some("bad")).unwrap();
    assert_eq!(n.message, "Invalid settings file\nbad");
    assert_eq!(n.click_message, "Open settings file");
    assert_eq!(n.opens, ConfigFile::Settings);
}

#[test]
fn parsed_file_dismisses_notice() {
    assert!(config_error_notice(ConfigFile::Settings, None).is_none());
}

#[test]
fn launch_failure_text() {
    assert_eq!(
        launch_failure_detail("disk full"),
        "disk full\n\nFor help resolving this, please open an issue on https://github.com/zed-industries/zed"
    );
}
