//! Properties that span several operations.

use vstd::prelude::*;
use crate::labels::child_marker;
use crate::layout_store::{persisted, preferred_entry, saved_from, SavedLayoutView};
use crate::linux_env::{disabled_env_value, force_wayland_wanted, non_empty_env_value, safe_mode_wanted};
use crate::startup::{cancel_outcome, claim_outcome};
use crate::state::{
    abs_diff, any_panel_open, begin_panel_toggle_spec, close_panels_step, collapse_for_panel_step,
    default_flags, echo_slack, flags_of, lock_wanted, native_mode_spec, note_user_resize_step,
    panel_open_of, panels_exclusive, restore_collapse_step, set_about_open_step, set_lock_step,
    set_options_open_step, set_panel_step, set_wiki_open_step, toggle_step, undo_collapse_step,
    hash_of, panel_fit_spec, with_flags, PanelTier, PanelKind, SidebarView, WindowFlags,
};
use crate::text::contains_seq;
use crate::theme::{lemma_normalize_theme_idempotent, normalized_theme};
use crate::tray::{item_id_spec, TrayMenuItem};
use crate::page_scripts::{
    holds_field, lemma_options_state_fields, lemma_sidebar_state_fields, options_state_spec,
    sidebar_state_spec,
};
use crate::startup::{main_label, page_load_plan_spec, PageReveal};
use crate::tray::{cancels_reveal_spec, tray_menu_spec};
use crate::scripts::bool_text;
use crate::state::PanelToggle;

verus! {

/// The first automatic reveal on a fresh latch shows the window, and every
/// later one is refused.
pub proof fn law_first_claim_wins(revealed: bool)
    ensures
        claim_outcome(false).0,
        !claim_outcome(claim_outcome(revealed).1).0,
{
}

/// Once the user has taken visibility control (any number of times, before
/// or after a claim), no automatic reveal shows the window.
pub proof fn law_cancel_blocks_reveal(revealed: bool)
    ensures
        !claim_outcome(cancel_outcome(revealed)).0,
        !claim_outcome(cancel_outcome(cancel_outcome(revealed))).0,
{
}

/// Every step on a window's flags keeps at most one panel open, starting
/// from a window never touched.
pub proof fn law_panels_exclusive(f: WindowFlags, kind: PanelKind, open: bool, w: u32, on: bool)
    requires
        panels_exclusive(f),
    ensures
        panels_exclusive(default_flags()),
        panels_exclusive(set_panel_step(f, kind, open)),
        panels_exclusive(toggle_step(f)),
        panels_exclusive(note_user_resize_step(f, w)),
        panels_exclusive(collapse_for_panel_step(f)),
        panels_exclusive(restore_collapse_step(f)),
        panels_exclusive(undo_collapse_step(f)),
        panels_exclusive(close_panels_step(f)),
        panels_exclusive(set_lock_step(f, on)),
        panels_exclusive(begin_panel_toggle_spec(f, kind).1),
{
}

/// Opening a panel leaves it the only one open.
pub proof fn law_open_panel_is_only_one(f: WindowFlags, kind: PanelKind, other: PanelKind)
    requires
        other != kind,
    ensures
        panel_open_of(set_panel_step(f, kind, true), kind),
        !panel_open_of(set_panel_step(f, kind, true), other),
{
}

/// Closing a panel gives it nothing else: no panel is open afterwards when
/// at most one was open before.
pub proof fn law_close_leaves_none_open(f: WindowFlags, kind: PanelKind)
    requires
        panels_exclusive(f),
        panel_open_of(f, kind),
    ensures
        !any_panel_open(set_panel_step(f, kind, false)),
{
}

/// Two manual toggles give the rail back as it was, and a manual toggle
/// takes the rail out of a panel's hands.
pub proof fn law_toggle_twice(f: WindowFlags)
    ensures
        toggle_step(toggle_step(f)).collapsed == f.collapsed,
        !toggle_step(f).collapsed_for_panel,
        restore_collapse_step(toggle_step(f)) == toggle_step(f),
{
}

/// A sidebar collapsed to make room for a panel expands again once that
/// panel closes.
pub proof fn law_collapse_for_panel_is_undone(f: WindowFlags, kind: PanelKind)
    ensures
        !restore_collapse_step(
            set_panel_step(set_panel_step(collapse_for_panel_step(f), kind, true), kind, false),
        ).collapsed,
        !undo_collapse_step(collapse_for_panel_step(f)).collapsed,
{
}

/// Closing About or Options, and opening the wiki, start a new slim-hug
/// generation, so a slim-hug scheduled before is dropped.
pub proof fn law_panel_change_cancels_slim_hug(f: WindowFlags)
    ensures
        set_about_open_step(f, false).panel_fit_gen != f.panel_fit_gen,
        set_options_open_step(f, false).panel_fit_gen != f.panel_fit_gen,
        set_wiki_open_step(f, true).panel_fit_gen != f.panel_fit_gen,
{
}

/// Our own resize echoing back is not a drag: it does not mark the borrowed
/// width as the player's, and it is consumed.
pub proof fn law_own_resize_echo(f: WindowFlags, ours: u32, seen: u32)
    requires
        ours != 0,
        !f.hug_busy,
        abs_diff(seen, ours) <= echo_slack(),
    ensures
        note_user_resize_step(WindowFlags { last_set_phys_w: ours, ..f }, seen).panel_user_resized
            == f.panel_user_resized,
        note_user_resize_step(WindowFlags { last_set_phys_w: ours, ..f }, seen).last_set_phys_w
            == 0,
{
}

/// A real drag while a panel is open marks the width as the player's, so it
/// is not given back when the panel closes.
pub proof fn law_drag_with_panel_open(f: WindowFlags, seen: u32)
    requires
        !f.hug_busy,
        f.last_set_phys_w == 0,
        any_panel_open(f),
    ensures
        note_user_resize_step(f, seen).panel_user_resized,
{
}

/// Opening a panel on an unlocked window locks it automatically, and closing
/// that panel unlocks it again.
pub proof fn law_automatic_lock_round_trip(f: WindowFlags, kind: PanelKind)
    requires
        !f.locked,
        !any_panel_open(f),
    ensures
        ({
            let g = set_lock_step(WindowFlags { lock_was_auto: true, ..f }, true);
            let h = set_panel_step(set_panel_step(g, kind, true), kind, false);
            &&& !any_panel_open(h)
            &&& h.lock_was_auto
            &&& h.locked
        }),
{
}

/// On a bare window (desktop client, Automatic Resizing) the game page never
/// carries the lock CSS.
pub proof fn law_native_mode_never_locks_page(f: WindowFlags)
    requires
        native_mode_spec(f),
    ensures
        !lock_wanted(f),
{
}

/// Changing one window's flags leaves every other window's flags alone.
pub proof fn law_windows_are_independent(
    v: SidebarView,
    a: Seq<char>,
    b: Seq<char>,
    f: WindowFlags,
)
    requires
        a != b,
    ensures
        flags_of(with_flags(v, a, f), b) == flags_of(v, b),
        flags_of(with_flags(v, a, f), a) == f,
{
}

/// The theme read back is the theme set, normalised, and always one of
/// the three.
pub proof fn law_theme_round_trip(v: SidebarView, theme: Seq<char>)
    ensures
        normalized_theme(SidebarView { theme: normalized_theme(theme), ..v }.theme)
            == normalized_theme(theme),
        normalized_theme(theme) == "ember"@ || normalized_theme(theme) == "tide"@
            || normalized_theme(theme) == "midnight"@,
{
    lemma_normalize_theme_idempotent(theme);
}

proof fn lemma_persisted_has(
    m: Map<Seq<char>, SavedLayoutView>,
    labels: Seq<Seq<char>>,
    v: SidebarView,
    l: Seq<char>,
)
    requires
        labels.contains(l),
    ensures
        persisted(m, labels, v).contains_key(l),
        persisted(m, labels, v)[l] == saved_from(v, l),
    decreases labels.len(),
{
    if labels.last() != l {
        let k = choose|k: int| 0 <= k < labels.len() && labels[k] == l;
        assert(labels.drop_last()[k] == l);
        lemma_persisted_has(m, labels.drop_last(), v, l);
    }
}

/// What the next launch reads back is what was saved: for every window that
/// was open, its lock and panel placement; and from the main window's entry,
/// the tray, client, mobile size, footer diagnostics and theme.
pub proof fn law_persist_then_restore(
    m: Map<Seq<char>, SavedLayoutView>,
    first: Option<SavedLayoutView>,
    labels: Seq<Seq<char>>,
    v: SidebarView,
    l: Seq<char>,
)
    requires
        labels.contains(l),
        labels.contains("pake"@),
    ensures
        ({
            let p = persisted(m, labels, v);
            &&& p.contains_key(l) && p[l].locked == flags_of(v, l).locked
            &&& (match preferred_entry(p, first, l) {
                Some(s) => !s.placement_chosen || s.wiki_outside,
                None => true,
            }) == !flags_of(v, l).wiki_inside
            &&& preferred_entry(p, first, "pake"@) matches Some(s) && s.tray == v.tray
                && s.desktop_client == v.desktop_client && s.mobile_half == v.mobile_half
                && s.sidebar_debug == v.sidebar_debug && normalized_theme(s.theme)
                == normalized_theme(v.theme)
        }),
{
    lemma_persisted_has(m, labels, v, l);
    lemma_persisted_has(m, labels, v, "pake"@);
    lemma_normalize_theme_idempotent(v.theme);
}

/// A non-blank explicit safe-mode setting decides alone; niri sockets and
/// desktop names only matter without one.
pub proof fn law_explicit_safe_mode_wins(
    safe_mode: Seq<char>,
    socket_a: Option<Seq<char>>,
    socket_b: Option<Seq<char>>,
    desktops_a: Seq<Option<&str>>,
    desktops_b: Seq<Option<&str>>,
)
    requires
        non_empty_env_value(Some(safe_mode)),
    ensures
        safe_mode_wanted(Some(safe_mode), socket_a, desktops_a) == safe_mode_wanted(
            Some(safe_mode),
            socket_b,
            desktops_b,
        ),
        safe_mode_wanted(Some(safe_mode), socket_a, desktops_a) == !disabled_env_value(safe_mode),
{
}

/// Without any session hints, safe mode stays on.
pub proof fn law_safe_mode_default_on(desktops: Seq<Option<&str>>)
    requires
        forall|i: int| 0 <= i < desktops.len() ==> #[trigger] desktops[i] is None,
    ensures
        safe_mode_wanted(None, None, desktops),
{
}

/// An explicit GDK backend is never overridden.
pub proof fn law_explicit_gdk_backend_respected(
    gdk: Seq<char>,
    wayland: Option<Seq<char>>,
    display: Option<Seq<char>>,
)
    requires
        non_empty_env_value(Some(gdk)),
    ensures
        !force_wayland_wanted(Some(gdk), wayland, display),
{
}

/// The sidebar, wiki and panel labels of a window are never taken for a game
/// webview.
pub proof fn law_child_labels_are_not_game(window: Seq<char>)
    ensures
        contains_seq(window + "--gbf-sidebar"@, child_marker()),
        contains_seq(window + "--gbf-wiki"@, child_marker()),
        contains_seq(window + "--gbf-panel"@, child_marker()),
{
    reveal_strlit("--gbf-sidebar");
    reveal_strlit("--gbf-wiki");
    reveal_strlit("--gbf-panel");
    reveal_strlit("--gbf-");
    let n = window.len() as int;
    assert((window + "--gbf-sidebar"@).subrange(n, n + 6) =~= child_marker());
    assert((window + "--gbf-wiki"@).subrange(n, n + 6) =~= child_marker());
    assert((window + "--gbf-panel"@).subrange(n, n + 6) =~= child_marker());
}


/// Lock CSS is pushed into the page only when it changes: right after a
/// push, the same flags ask for no second one.
pub proof fn law_lock_css_pushed_once(f: WindowFlags)
    ensures
        ({
            let g = WindowFlags { lock_css: Some(lock_wanted(f)), ..f };
            g.lock_css == Some(lock_wanted(g))
        }),
{
}

/// The game hash read back is the last one recorded, and recording the same
/// hash again is no change.
pub proof fn law_game_hash_round_trip(v: SidebarView, label: Seq<char>, hash: Seq<char>)
    ensures
        ({
            let w = SidebarView { game_hash: v.game_hash.insert(label, hash), ..v };
            &&& hash_of(w, label) == hash
            &&& w.game_hash.contains_key(label) && w.game_hash[label] == hash
        }),
{
}

/// No two tray items share a menu event id, so an id names one item.
pub proof fn law_tray_ids_distinct(a: TrayMenuItem, b: TrayMenuItem)
    requires
        a != b,
    ensures
        item_id_spec(a) != item_id_spec(b),
{
    reveal_strlit("tray_new_window");
    reveal_strlit("hide_app");
    reveal_strlit("show_app");
    reveal_strlit("quit");
    assert("tray_new_window"@.len() != "hide_app"@.len());
    assert("tray_new_window"@.len() != "quit"@.len());
    assert("hide_app"@.len() != "quit"@.len());
    assert("show_app"@.len() != "quit"@.len());
    assert("tray_new_window"@.len() != "show_app"@.len());
    assert("hide_app"@[0] != "show_app"@[0]);
}


/// A panel opens at its preferred width without touching the rail when it
/// can; the rail is only collapsed when it was expanded; and a panel is
/// refused only when no width fits either way.
pub proof fn law_panel_fit_order(c: bool, fp: bool, fpc: bool, fm: bool, fmc: bool)
    ensures
        fp ==> panel_fit_spec(c, fp, fpc, fm, fmc) == Some((PanelTier::Preferred, false)),
        panel_fit_spec(c, fp, fpc, fm, fmc) matches Some((_, true)) ==> !c,
        panel_fit_spec(c, fp, fpc, fm, fmc) is None <==> (!fp && !fm && (c || (!fpc && !fmc))),
{
}


/// Clicking the button of the open panel closes it, and a sidebar that was
/// collapsed to make room for that panel expands again: no panel is left
/// open and the rail is the player's again.
pub proof fn law_closing_panel_expands_rail(f: WindowFlags, kind: PanelKind)
    requires
        panel_open_of(f, kind),
        f.collapsed_for_panel,
        panels_exclusive(f),
    ensures
        begin_panel_toggle_spec(f, kind).0 == PanelToggle::Closed,
        !begin_panel_toggle_spec(f, kind).1.collapsed,
        !begin_panel_toggle_spec(f, kind).1.collapsed_for_panel,
        !any_panel_open(begin_panel_toggle_spec(f, kind).1),
{
}

/// Closing a panel the player opened beside a rail they chose leaves the
/// rail as it was.
pub proof fn law_closing_panel_keeps_players_rail(f: WindowFlags, kind: PanelKind)
    requires
        panel_open_of(f, kind),
        !f.collapsed_for_panel,
        panels_exclusive(f),
    ensures
        begin_panel_toggle_spec(f, kind).1.collapsed == f.collapsed,
        !any_panel_open(begin_panel_toggle_spec(f, kind).1),
{
}

/// The sidebar is collapsed for a panel only when the width chosen does not
/// fit beside the rail as it is but does beside a collapsed one; a width that
/// fits as it is never collapses the rail.
pub proof fn law_collapse_only_when_needed(c: bool, fp: bool, fpc: bool, fm: bool, fmc: bool)
    ensures
        panel_fit_spec(c, fp, fpc, fm, fmc) == Some((PanelTier::Preferred, true)) ==> !c && !fp
            && fpc,
        panel_fit_spec(c, fp, fpc, fm, fmc) == Some((PanelTier::Minimum, true)) ==> !c && !fm
            && fmc,
        fm && !(!c && fpc) ==> panel_fit_spec(c, fp, fpc, fm, fmc) matches Some((_, false)),
        fm && !fp && !(!c && fpc) ==> panel_fit_spec(c, fp, fpc, fm, fmc) == Some(
            (PanelTier::Minimum, false),
        ),
        (fp || (!c && fpc)) ==> panel_fit_spec(c, fp, fpc, fm, fmc) matches Some(
            (PanelTier::Preferred, _),
        ),
{
}

/// The game page carries the chat-hiding lock CSS only on a locked window
/// that is not bare; a locked window on the mobile client or without
/// Automatic Resizing always carries it.
pub proof fn law_lock_css_only_when_locked(f: WindowFlags)
    ensures
        !f.locked ==> !lock_wanted(f),
        f.locked && (f.mobile || !f.automatic) ==> lock_wanted(f),
        default_flags().lock_css is None && !lock_wanted(default_flags()),
{
}

/// Going bare closes every panel, and a rail collapsed for a panel expands.
pub proof fn law_going_native_closes_every_panel(f: WindowFlags)
    ensures
        !close_panels_step(f).wiki_open,
        !close_panels_step(f).about_open,
        !close_panels_step(f).options_open,
        f.collapsed_for_panel ==> !close_panels_step(f).collapsed,
        close_panels_step(f).locked == f.locked,
        close_panels_step(f).automatic == f.automatic,
{
}

/// The sidebar's state script lights each panel button from that panel's
/// own flag, and shows the rail and the lock as they are.
pub proof fn law_sidebar_script_reports_each_panel(v: SidebarView, label: Seq<char>)
    ensures
        holds_field(sidebar_state_spec(v, label), ",wikiOpen:"@, bool_text(flags_of(v, label).wiki_open)),
        holds_field(sidebar_state_spec(v, label), ",aboutOpen:"@, bool_text(flags_of(v, label).about_open)),
        holds_field(
            sidebar_state_spec(v, label),
            ",optionsOpen:"@,
            bool_text(flags_of(v, label).options_open),
        ),
        holds_field(sidebar_state_spec(v, label), ",locked:"@, bool_text(flags_of(v, label).locked)),
        holds_field(sidebar_state_spec(v, label), ",mobile:"@, bool_text(flags_of(v, label).mobile)),
{
    lemma_sidebar_state_fields(v, label);
}

/// The Options page shows the tray, client and debug choices as they are,
/// and the wiki side of this window.
pub proof fn law_options_script_reports_choices(v: SidebarView, label: Seq<char>)
    ensures
        holds_field(options_state_spec(v, label), ",tray:"@, bool_text(v.tray)),
        holds_field(options_state_spec(v, label), ",desktopClient:"@, bool_text(v.desktop_client)),
        holds_field(options_state_spec(v, label), ",mobile:"@, bool_text(flags_of(v, label).mobile)),
        holds_field(options_state_spec(v, label), ",sidebarDebug:"@, bool_text(v.sidebar_debug)),
        holds_field(
            options_state_spec(v, label),
            "); window.__gbfOptions && window.__gbfOptions.setState({wikiOutside:"@,
            bool_text(!flags_of(v, label).wiki_inside),
        ),
{
    lemma_options_state_fields(v, label);
}

/// A window never touched has no panel open, an expanded rail and no lock.
pub proof fn law_fresh_window_is_bare(v: SidebarView, label: Seq<char>)
    requires
        !v.windows.contains_key(label),
    ensures
        !any_panel_open(flags_of(v, label)),
        !flags_of(v, label).collapsed,
        !flags_of(v, label).collapsed_for_panel,
        !flags_of(v, label).locked,
        !lock_wanted(flags_of(v, label)),
{
}

/// Locking and unlocking set the lock and nothing the player sees besides:
/// panels and the rail stay; unlocking also ends a hug in flight.
pub proof fn law_lock_sets_only_the_lock(f: WindowFlags, on: bool)
    ensures
        set_lock_step(f, on).locked == on,
        !on ==> !set_lock_step(f, on).hug_busy,
        set_lock_step(f, on).wiki_open == f.wiki_open,
        set_lock_step(f, on).about_open == f.about_open,
        set_lock_step(f, on).options_open == f.options_open,
        set_lock_step(f, on).collapsed == f.collapsed,
{
}

/// Opening or closing a panel leaves the rail and the lock alone; closing
/// one leaves the others as they were.
pub proof fn law_panel_step_keeps_rail_and_lock(
    f: WindowFlags,
    kind: PanelKind,
    other: PanelKind,
    open: bool,
)
    ensures
        set_panel_step(f, kind, open).collapsed == f.collapsed,
        set_panel_step(f, kind, open).collapsed_for_panel == f.collapsed_for_panel,
        set_panel_step(f, kind, open).locked == f.locked,
        panel_open_of(set_panel_step(f, kind, open), kind) == open,
        other != kind ==> panel_open_of(set_panel_step(f, kind, false), other) == panel_open_of(
            f,
            other,
        ),
{
}

/// A collapse made for a panel is kept while a panel is still open.
pub proof fn law_rail_stays_collapsed_while_panel_open(f: WindowFlags)
    requires
        any_panel_open(f),
    ensures
        restore_collapse_step(f) == f,
{
}

/// A click on a closed panel's button changes nothing yet: it is refused
/// on a bare window and otherwise asks for the panel to be opened.
pub proof fn law_opening_click_changes_nothing(f: WindowFlags, kind: PanelKind)
    requires
        !panel_open_of(f, kind),
    ensures
        begin_panel_toggle_spec(f, kind).1 == f,
        native_mode_spec(f) ==> begin_panel_toggle_spec(f, kind).0 == PanelToggle::Refused,
        !native_mode_spec(f) ==> begin_panel_toggle_spec(f, kind).0 == PanelToggle::Open,
{
}

/// Only a finished load of a real page acts; the main window reveals itself
/// unless it starts in the tray with the tray on, a clone is revealed as a
/// built window, and the page of any other webview reveals nothing.
pub proof fn law_page_load_reveals(
    finished: bool,
    placeholder: bool,
    label: Seq<char>,
    game_label: bool,
    to_tray: bool,
    tray: bool,
)
    ensures
        !finished || placeholder ==> page_load_plan_spec(
            finished,
            placeholder,
            label,
            game_label,
            to_tray,
            tray,
        ).reveal == PageReveal::Nothing && !page_load_plan_spec(
            finished,
            placeholder,
            label,
            game_label,
            to_tray,
            tray,
        ).game_page_finished,
        finished && !placeholder && label == main_label() ==> page_load_plan_spec(
            finished,
            placeholder,
            label,
            game_label,
            to_tray,
            tray,
        ).reveal == (if to_tray && tray {
            PageReveal::Nothing
        } else {
            PageReveal::MainStartup
        }),
        !game_label ==> !page_load_plan_spec(
            finished,
            placeholder,
            label,
            game_label,
            to_tray,
            tray,
        ).game_page_finished,
        finished && !placeholder && label == main_label() && game_label ==> page_load_plan_spec(
            finished,
            placeholder,
            label,
            game_label,
            to_tray,
            tray,
        ).game_page_finished,
{
}

/// The tray menu offers New Window exactly when extra windows are allowed,
/// always ends with Quit, and only Hide and Show take control of the reveal.
pub proof fn law_tray_menu_shape(multi: bool)
    ensures
        tray_menu_spec(multi).contains(TrayMenuItem::NewWindow) == multi,
        tray_menu_spec(multi).last() == TrayMenuItem::Quit,
        tray_menu_spec(multi).contains(TrayMenuItem::Hide),
        tray_menu_spec(multi).contains(TrayMenuItem::Show),
        cancels_reveal_spec(TrayMenuItem::Hide) && cancels_reveal_spec(TrayMenuItem::Show),
        !cancels_reveal_spec(TrayMenuItem::Quit) && !cancels_reveal_spec(TrayMenuItem::NewWindow),
{
    let m = tray_menu_spec(multi);
    if multi {
        assert(m[0] == TrayMenuItem::NewWindow);
        assert(m[1] == TrayMenuItem::Hide);
        assert(m[2] == TrayMenuItem::Show);
    } else {
        assert(m[0] == TrayMenuItem::Hide);
        assert(m[1] == TrayMenuItem::Show);
        assert forall|i: int| 0 <= i < m.len() implies m[i] != TrayMenuItem::NewWindow by {}
    }
}

} // verus!
