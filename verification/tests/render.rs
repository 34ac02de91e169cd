use watchmate::coordinator::{State, ViewState};

#[test]
fn titles_and_pages_follow_the_view() {
    let cases = [
        (ViewState::Main, "WatchMate", "main_view"),
        (ViewState::Scan, "Devices", "scan_view"),
        (ViewState::FileChooser, "Choose DFU file", "file_view"),
        (ViewState::FirmwareUpdate, "Firmware Upgrade", "fwupd_view"),
    ];
    for (view, title, page) in cases {
        let state = State { active_view: view, is_connected: false };
        let description = state.render();
        assert_eq!(description.title, title);
        assert_eq!(description.page, page);
    }
}

#[test]
fn button_visibility_follows_the_view() {
    let main = State { active_view: ViewState::Main, is_connected: false }.render();
    assert!(!main.back_visible);
    assert!(main.devices_visible);
    assert!(!main.open_visible);

    let scan = State { active_view: ViewState::Scan, is_connected: false }.render();
    assert!(scan.back_visible);
    assert!(!scan.devices_visible);
    assert!(!scan.open_visible);

    let chooser = State { active_view: ViewState::FileChooser, is_connected: false }.render();
    assert!(chooser.back_visible);
    assert!(!chooser.devices_visible);
    assert!(chooser.open_visible);
}

#[test]
fn devices_icon_reflects_the_connection_flag() {
    let connected = State { active_view: ViewState::Main, is_connected: true }.render();
    assert_eq!(connected.devices_icon, "bluetooth-symbolic");
    let disconnected = State { active_view: ViewState::Main, is_connected: false }.render();
    assert_eq!(disconnected.devices_icon, "bluetooth-disconnected-symbolic");
}
