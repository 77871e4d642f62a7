use gbf_pake::state::{panel_page, panel_shows_page, PanelKind, PanelTier, PanelToggle, SidebarState};

#[test]
fn fresh_state_defaults() {
    let s = SidebarState::new();
    assert!(!s.is_tray_enabled());
    assert!(!s.is_desktop_client());
    assert!(!s.is_mobile_half());
    assert!(!s.is_sidebar_debug());
    assert_eq!(s.theme(), "midnight");
    assert!(!s.is_collapsed("pake"));
    assert!(s.is_wiki_outside("pake"));
    assert!(!s.panel_is_open("pake"));
    assert_eq!(s.game_hash("pake"), "");
    let d = SidebarState::default();
    assert_eq!(d.theme(), "midnight");
    assert!(!d.is_tray_enabled());
}

#[test]
fn process_wide_flags_round_trip() {
    let mut s = SidebarState::new();
    s.set_tray_enabled(true);
    s.set_desktop_client(true);
    s.set_mobile_half(true);
    s.set_sidebar_debug(true);
    assert!(s.is_tray_enabled() && s.is_desktop_client() && s.is_mobile_half() && s.is_sidebar_debug());
    s.set_tray_enabled(false);
    assert!(!s.is_tray_enabled());
}

#[test]
fn theme_is_normalised() {
    let mut s = SidebarState::new();
    s.set_theme("  EMBER ");
    assert_eq!(s.theme(), "ember");
    s.set_theme("Tide");
    assert_eq!(s.theme(), "tide");
    s.set_theme("neon");
    assert_eq!(s.theme(), "midnight");
}

#[test]
fn opening_one_panel_closes_the_others() {
    let mut s = SidebarState::new();
    s.set_wiki_open("pake", true);
    assert!(s.wiki_is_open("pake"));
    s.set_about_open("pake", true);
    assert!(s.about_is_open("pake") && !s.wiki_is_open("pake"));
    s.set_options_open("pake", true);
    assert!(s.options_is_open("pake") && !s.about_is_open("pake") && !s.wiki_is_open("pake"));
    s.set_options_open("pake", false);
    assert!(!s.panel_is_open("pake"));
}

#[test]
fn windows_do_not_share_flags() {
    let mut s = SidebarState::new();
    s.toggle("pake");
    s.set_locked("pake-1", true);
    assert!(s.is_collapsed("pake"));
    assert!(!s.is_collapsed("pake-1"));
    assert!(s.is_locked("pake-1"));
    assert!(!s.is_locked("pake"));
}

#[test]
fn toggle_returns_new_state_and_takes_ownership() {
    let mut s = SidebarState::new();
    s.collapse_for_panel("pake");
    assert!(s.is_collapsed("pake"));
    assert!(!s.toggle("pake"));
    assert!(s.toggle("pake"));
    // The manual toggle owns the rail now: closing panels does not expand it.
    s.restore_collapse_for_panel("pake");
    assert!(s.is_collapsed("pake"));
}

#[test]
fn collapse_for_panel_is_restored_when_panel_closes() {
    let mut s = SidebarState::new();
    s.collapse_for_panel("pake");
    s.set_wiki_open("pake", true);
    s.restore_collapse_for_panel("pake");
    assert!(s.is_collapsed("pake"), "still collapsed while the wiki is open");
    s.set_wiki_open("pake", false);
    s.restore_collapse_for_panel("pake");
    assert!(!s.is_collapsed("pake"));
}

#[test]
fn own_resize_echo_is_not_a_drag() {
    let mut s = SidebarState::new();
    s.set_about_open("pake", true);
    s.note_our_resize("pake", 1000);
    s.note_user_resize("pake", 1006);
    assert!(!s.take_panel_user_resized("pake"));
    s.note_user_resize("pake", 1200);
    assert!(s.take_panel_user_resized("pake"));
    assert!(!s.take_panel_user_resized("pake"));
}

#[test]
fn resize_during_hug_is_ignored() {
    let mut s = SidebarState::new();
    s.set_wiki_open("pake", true);
    s.set_hug_busy("pake", true);
    assert!(s.hug_busy("pake"));
    s.note_user_resize("pake", 500);
    assert!(!s.take_panel_user_resized("pake"));
}

#[test]
fn drag_without_panel_is_not_recorded() {
    let mut s = SidebarState::new();
    s.note_user_resize("pake", 500);
    assert!(!s.take_panel_user_resized("pake"));
}

#[test]
fn slim_hug_generation_moves_on() {
    let mut s = SidebarState::new();
    assert_eq!(s.panel_fit_gen("pake"), 0);
    assert_eq!(s.bump_panel_fit_gen("pake"), 1);
    s.set_about_open("pake", false);
    assert_eq!(s.panel_fit_gen("pake"), 2);
    s.set_wiki_open("pake", true);
    assert_eq!(s.panel_fit_gen("pake"), 3);
    s.set_about_open("pake", true);
    assert_eq!(s.panel_fit_gen("pake"), 3);
}

#[test]
fn lock_css_is_pushed_only_on_change() {
    let mut s = SidebarState::new();
    assert!(s.note_lock_css("pake", Some(false)));
    assert!(!s.note_lock_css("pake", Some(false)));
    assert!(s.note_lock_css("pake", None));
    s.set_locked("pake", true);
    assert_eq!(s.lock_css_to_push("pake"), Some(true));
    assert_eq!(s.lock_css_to_push("pake"), None);
}

#[test]
fn native_mode_drops_lock_css() {
    let mut s = SidebarState::new();
    s.set_locked("pake", true);
    s.set_automatic("pake", true);
    assert!(s.native_mode("pake"));
    assert!(!s.reapply_lock_state("pake"));
    s.set_mobile("pake", true);
    assert!(!s.native_mode("pake"));
    assert!(s.reapply_lock_state("pake"));
}

#[test]
fn automatic_lock_follows_panels() {
    let mut s = SidebarState::new();
    assert_eq!(s.panel_lock_step("pake", true), Some(true));
    s.set_lock_state("pake", true);
    assert!(s.lock_was_auto("pake"));
    s.set_wiki_open("pake", true);
    assert_eq!(s.panel_lock_step("pake", false), None, "a panel is still open");
    s.set_wiki_open("pake", false);
    assert_eq!(s.panel_lock_step("pake", false), Some(false));
    assert!(!s.lock_was_auto("pake"));
    assert_eq!(s.panel_lock_step("pake", false), None);
}

#[test]
fn manual_lock_is_not_undone_by_panels() {
    let mut s = SidebarState::new();
    assert_eq!(s.begin_toggle_lock("pake"), Some(true));
    s.set_lock_state("pake", true);
    assert_eq!(s.panel_lock_step("pake", true), None);
    assert_eq!(s.panel_lock_step("pake", false), None);
    assert!(s.is_locked("pake"));
}

#[test]
fn lock_toggle_refused_on_mobile() {
    let mut s = SidebarState::new();
    s.set_mobile("pake", true);
    assert_eq!(s.begin_toggle_lock("pake"), None);
}

#[test]
fn unlocking_clears_hug_in_flight() {
    let mut s = SidebarState::new();
    s.set_lock_state("pake", true);
    s.set_hug_busy("pake", true);
    s.set_lock_state("pake", false);
    assert!(!s.is_locked("pake"));
    assert!(!s.hug_busy("pake"));
}

#[test]
fn going_native_closes_panels() {
    let mut s = SidebarState::new();
    s.collapse_for_panel("pake");
    s.set_options_open("pake", true);
    assert_eq!(s.note_automatic("pake", true), (false, true));
    assert!(!s.panel_is_open("pake"));
    assert!(!s.is_collapsed("pake"));
    assert_eq!(s.note_automatic("pake", true), (true, false));
    assert_eq!(s.note_automatic("pake", false), (true, false));
}

#[test]
fn mobile_client_never_goes_native() {
    let mut s = SidebarState::new();
    s.set_mobile("pake", true);
    s.set_wiki_open("pake", true);
    assert_eq!(s.note_automatic("pake", true), (false, false));
    assert!(s.wiki_is_open("pake"));
}

#[test]
fn close_panels_reports_what_was_open() {
    let mut s = SidebarState::new();
    assert!(!s.close_panels_for_automatic("pake"));
    s.set_about_open("pake", true);
    assert!(s.close_panels_for_automatic("pake"));
    assert!(!s.about_is_open("pake"));
}

#[test]
fn panel_toggle_open_close_and_refuse() {
    let mut s = SidebarState::new();
    assert_eq!(s.begin_panel_toggle("pake", PanelKind::Wiki), PanelToggle::Open);
    s.finish_panel_open("pake", PanelKind::Wiki, true);
    assert!(s.panel_open("pake", PanelKind::Wiki));
    assert_eq!(s.begin_panel_toggle("pake", PanelKind::Wiki), PanelToggle::Closed);
    assert!(!s.wiki_is_open("pake"));
    s.set_automatic("pake", true);
    assert_eq!(s.begin_panel_toggle("pake", PanelKind::About), PanelToggle::Refused);
    assert!(!s.about_is_open("pake"));
}

#[test]
fn refused_panel_undoes_its_collapse() {
    let mut s = SidebarState::new();
    s.collapse_for_panel("pake");
    s.finish_panel_open("pake", PanelKind::Options, false);
    assert!(!s.is_collapsed("pake"));
    assert!(!s.options_is_open("pake"));
    s.collapse_for_panel("pake");
    s.undo_collapse_for_panel("pake");
    assert!(!s.is_collapsed("pake"));
}

#[test]
fn game_hash_reports_changes() {
    let mut s = SidebarState::new();
    assert!(s.set_game_hash("pake", "#mypage".to_string()));
    assert!(!s.set_game_hash("pake", "#mypage".to_string()));
    assert!(s.set_game_hash("pake", "#quest".to_string()));
    assert_eq!(s.game_hash("pake"), "#quest");
    assert_eq!(s.game_hash("pake-1"), "");
}

#[test]
fn desktop_client_choice_reports_change() {
    let mut s = SidebarState::new();
    assert!(!s.choose_desktop_client(false));
    assert!(s.choose_desktop_client(true));
    assert!(s.is_desktop_client());
    assert!(!s.choose_desktop_client(true));
}

#[test]
fn wiki_outside_per_window() {
    let mut s = SidebarState::new();
    s.set_wiki_outside("pake", false);
    assert!(!s.is_wiki_outside("pake"));
    assert!(s.is_wiki_outside("pake-1"));
}

#[test]
fn game_report_records_hash_and_client() {
    let mut s = SidebarState::new();
    assert!(s.note_game_report("pake", Some(true), Some("#a".to_string())));
    assert!(s.is_mobile("pake"));
    assert_eq!(s.game_hash("pake"), "#a");
    assert!(!s.note_game_report("pake", None, Some("#a".to_string())));
    assert!(!s.note_game_report("pake", Some(false), None));
    assert!(!s.is_mobile("pake"));
}

#[test]
fn panel_pages() {
    assert_eq!(panel_page(PanelKind::About), Some("gbf-about.html"));
    assert_eq!(panel_page(PanelKind::Options), Some("gbf-options.html"));
    assert_eq!(panel_page(PanelKind::Wiki), None);
    assert!(panel_shows_page("/gbf-about.html", "gbf-about.html"));
    assert!(!panel_shows_page("/gbf-about.html", "gbf-options.html"));
    assert!(!panel_shows_page("", "gbf-options.html"));
}

#[test]
fn panel_fit_prefers_width_then_collapse_then_minimum() {
    let mut s = SidebarState::new();
    assert_eq!(s.plan_panel_fit("pake", true, true, true, true), Some((PanelTier::Preferred, false)));
    assert!(!s.is_collapsed("pake"));
    assert_eq!(s.plan_panel_fit("pake", false, true, true, true), Some((PanelTier::Preferred, true)));
    assert!(s.is_collapsed("pake"));
    // Already collapsed: collapsing again cannot help.
    assert_eq!(s.plan_panel_fit("pake", false, true, true, true), Some((PanelTier::Minimum, false)));
    assert_eq!(s.plan_panel_fit("pake", false, true, false, true), None);
    let mut t = SidebarState::new();
    assert_eq!(t.plan_panel_fit("pake", false, false, false, true), Some((PanelTier::Minimum, true)));
    assert_eq!(SidebarState::new().plan_panel_fit("pake", false, false, false, false), None);
}
