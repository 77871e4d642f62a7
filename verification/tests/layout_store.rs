use gbf_pake::label_map::LabelMap;
use gbf_pake::layout_store::{
    default_wiki_outside, persist_layout_entries, restore_layout_desktop_client,
    restore_layout_locked, restore_layout_mobile_half, restore_layout_sidebar_debug,
    restore_layout_theme, restore_layout_tray, restore_layout_wiki_outside, LayoutStates,
    SavedLayout,
};
use gbf_pake::state::SidebarState;

fn saved(locked: bool, wiki_outside: bool, placement_chosen: bool, tray: bool, theme: &str) -> SavedLayout {
    SavedLayout {
        locked,
        wiki_outside,
        placement_chosen,
        tray,
        desktop_client: tray,
        mobile_half: tray,
        theme: theme.to_string(),
        sidebar_debug: tray,
    }
}

#[test]
fn empty_store_gives_defaults() {
    let states: LayoutStates = LabelMap::new();
    assert!(!restore_layout_locked(&states, "pake"));
    assert!(restore_layout_wiki_outside(&states, "pake"));
    assert!(!restore_layout_tray(&states));
    assert!(!restore_layout_desktop_client(&states));
    assert!(!restore_layout_mobile_half(&states));
    assert!(!restore_layout_sidebar_debug(&states));
    assert_eq!(restore_layout_theme(&states), "midnight");
    assert!(default_wiki_outside());
}

#[test]
fn main_window_entry_wins_for_process_wide_flags() {
    let mut states: LayoutStates = LabelMap::new();
    states.insert("pake-1", saved(false, true, true, false, "tide"));
    states.insert("pake", saved(true, true, true, true, " Ember"));
    assert!(restore_layout_tray(&states));
    assert!(restore_layout_desktop_client(&states));
    assert!(restore_layout_mobile_half(&states));
    assert!(restore_layout_sidebar_debug(&states));
    assert_eq!(restore_layout_theme(&states), "ember");
    assert!(restore_layout_locked(&states, "pake"));
    assert!(!restore_layout_locked(&states, "pake-1"));
    assert!(!restore_layout_locked(&states, "pake-2"));
}

#[test]
fn any_entry_stands_in_for_missing_main_window() {
    let mut states: LayoutStates = LabelMap::new();
    states.insert("pake-1", saved(false, true, true, true, "tide"));
    assert!(restore_layout_tray(&states));
    assert_eq!(restore_layout_theme(&states), "tide");
}

#[test]
fn leftover_placement_reads_as_default() {
    let mut states: LayoutStates = LabelMap::new();
    states.insert("pake", saved(false, false, false, false, ""));
    assert!(restore_layout_wiki_outside(&states, "pake"));
    states.insert("pake", saved(false, false, true, false, ""));
    assert!(!restore_layout_wiki_outside(&states, "pake"));
    // Another window falls back to the first entry.
    assert!(!restore_layout_wiki_outside(&states, "pake-3"));
}

#[test]
fn persist_then_restore_round_trip() {
    let mut state = SidebarState::new();
    state.set_tray_enabled(true);
    state.set_mobile_half(true);
    state.set_theme("TIDE");
    state.set_locked("pake", true);
    state.set_wiki_outside("pake-1", false);
    let mut states: LayoutStates = LabelMap::new();
    states.insert("old-window", saved(true, true, true, false, "ember"));
    let labels = vec!["pake".to_string(), "pake-1".to_string()];
    persist_layout_entries(&mut states, &labels, &state);
    assert_eq!(states.len(), 3);
    assert!(restore_layout_tray(&states));
    assert!(restore_layout_mobile_half(&states));
    assert!(!restore_layout_desktop_client(&states));
    assert!(!restore_layout_sidebar_debug(&states));
    assert_eq!(restore_layout_theme(&states), "tide");
    assert!(restore_layout_locked(&states, "pake"));
    assert!(!restore_layout_locked(&states, "pake-1"));
    assert!(restore_layout_wiki_outside(&states, "pake"));
    assert!(!restore_layout_wiki_outside(&states, "pake-1"));
    // Windows not open now keep their entries.
    assert!(restore_layout_locked(&states, "old-window"));
}

#[test]
fn label_map_replaces_and_lists_entries() {
    let mut m: LabelMap<u32> = LabelMap::new();
    m.insert("a", 1);
    m.insert("b", 2);
    m.insert("a", 3);
    assert_eq!(m.len(), 2);
    assert_eq!(m.get("a"), Some(&3));
    assert_eq!(m.get("c"), None);
    assert_eq!(m.entry(0), ("a", &3));
    assert_eq!(m.entry(1), ("b", &2));
    assert_eq!(m.first(), Some(&3));
}
