use codex_shim::desktop::{find_deep_link, on_close_requested, tray_icon_enabled, CloseAction};

#[test]
fn the_first_link_is_found() {
    let argv: Vec<String> = ["jan", "x jan://no", "jan://one", "jan://two"].iter().map(|s| s.to_string()).collect();
    assert_eq!(find_deep_link(&argv).map(|s| s.as_str()), Some("jan://one"));
    assert_eq!(find_deep_link(&argv[..2]), None);
    assert_eq!(find_deep_link(&[]), None);
}

#[test]
fn only_true_enables_the_tray_icon() {
    assert!(tray_icon_enabled(Some("true")));
    assert!(!tray_icon_enabled(Some("TRUE")));
    assert!(!tray_icon_enabled(Some("false")));
    assert!(!tray_icon_enabled(None));
}

#[test]
fn windows_hide_where_there_is_a_tray_icon() {
    assert_eq!(on_close_requested(true), CloseAction::Hide);
    assert_eq!(on_close_requested(false), CloseAction::Close);
}
