use gbf_pake::tray::{
    shortcut_press, tray_click_toggles, tray_item_cancels_reveal, tray_item_id, tray_item_title,
    tray_menu_action, tray_menu_items, ShortcutPress, TrayMenuItem,
};

#[test]
fn tray_menu_offers_new_window_only_with_multi_window() {
    assert_eq!(
        tray_menu_items(true),
        vec![TrayMenuItem::NewWindow, TrayMenuItem::Hide, TrayMenuItem::Show, TrayMenuItem::Quit]
    );
    assert_eq!(
        tray_menu_items(false),
        vec![TrayMenuItem::Hide, TrayMenuItem::Show, TrayMenuItem::Quit]
    );
}

#[test]
fn tray_ids_round_trip() {
    for item in tray_menu_items(true) {
        assert_eq!(tray_menu_action(tray_item_id(item)), Some(item));
    }
    assert_eq!(tray_item_id(TrayMenuItem::NewWindow), "tray_new_window");
    assert_eq!(tray_item_title(TrayMenuItem::NewWindow), "New Window");
    assert_eq!(tray_menu_action("new_window"), None);
}

#[test]
fn tray_reveal_and_clicks() {
    assert!(tray_item_cancels_reveal(TrayMenuItem::Hide));
    assert!(tray_item_cancels_reveal(TrayMenuItem::Show));
    assert!(!tray_item_cancels_reveal(TrayMenuItem::Quit));
    assert!(tray_click_toggles(true, true));
    assert!(!tray_click_toggles(true, false));
    assert!(!tray_click_toggles(false, true));
}

#[test]
fn shortcut_debounce() {
    assert_eq!(shortcut_press(299_999_999, true), ShortcutPress::Ignored);
    assert_eq!(shortcut_press(300_000_000, true), ShortcutPress::Counted { toggle: true });
    assert_eq!(shortcut_press(5_000_000_000, false), ShortcutPress::Counted { toggle: false });
}
