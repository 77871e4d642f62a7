//! Startup reveal: the main window is built hidden and shown once, by the
//! first of the page-load and fallback paths, unless the user has already
//! taken control of its visibility.

use vstd::prelude::*;
use crate::labels::is_game_label;
use crate::text::{
    concat_str, contains_seq, eq_ignore_ascii_case, starts_with, str_contains, str_eq,
    str_eq_ignore_ascii_case, str_starts_with,
};

verus! {

/// The once-only latch behind the automatic startup reveal. `true` once the
/// window has been revealed, or once the user took visibility control.
pub struct StartupReveal {
    revealed: bool,
}

impl View for StartupReveal {
    type V = bool;

    closed spec fn view(&self) -> bool {
        self.revealed
    }
}

impl StartupReveal {
    pub fn new(revealed: bool) -> (r: StartupReveal)
        ensures
            r@ == revealed,
    {
        StartupReveal { revealed }
    }

    pub fn is_revealed(&self) -> (r: bool)
        ensures
            r == self@,
    {
        self.revealed
    }
}

/// A claim on a latch in state `revealed`: whether to show, and the latch
/// after it.
pub open spec fn claim_outcome(revealed: bool) -> (bool, bool) {
    (!revealed, true)
}

/// The latch after a cancel.
pub open spec fn cancel_outcome(revealed: bool) -> bool {
    true
}

/// First automatic reveal wins. Returns true if the caller should show the
/// window; the latch is set either way.
pub fn claim_startup_reveal(revealed: &mut StartupReveal) -> (show: bool)
    ensures
        (show, final(revealed)@) == claim_outcome(old(revealed)@),
{
    let was = revealed.revealed;
    revealed.revealed = true;
    !was
}

/// The user took control of the main window's visibility (tray, shortcut,
/// dock, second instance, hide-on-close): drop any pending automatic reveal.
pub fn cancel_startup_reveal(revealed: &mut StartupReveal)
    ensures
        final(revealed)@ == cancel_outcome(old(revealed)@),
{
    revealed.revealed = true;
}

/// What the page-load logic reads of a URL.
pub struct PageUrl {
    pub scheme: String,
    pub host: Option<String>,
    pub fragment: Option<String>,
    pub path: String,
}

/// Placeholder documents used before the real target URL navigates (e.g.
/// about:blank). Revealing on these would show a blank window.
pub open spec fn placeholder_scheme(scheme: Seq<char>) -> bool {
    eq_ignore_ascii_case(scheme, "about"@)
}

pub fn is_placeholder_startup_url(url: &PageUrl) -> (r: bool)
    ensures
        r == placeholder_scheme(url.scheme@),
{
    str_eq_ignore_ascii_case(url.scheme.as_str(), "about")
}

/// Which window a finished page load reveals.
#[derive(Debug, Clone, Copy, PartialEq, Eq)]
pub enum PageReveal {
    /// No window is shown.
    Nothing,
    /// The main window "pake", through the once-only startup latch.
    MainStartup,
    /// A `--multi-window` clone ("pake-N") built hidden.
    BuiltWindow,
}

/// What to do when a webview reports a page-load event.
#[derive(Debug, Clone, Copy, PartialEq, Eq)]
pub struct PageLoadPlan {
    /// Run the game-page hook (lock CSS, hash, edge report).
    pub game_page_finished: bool,
    pub reveal: PageReveal,
}

pub open spec fn main_label() -> Seq<char> {
    "pake"@
}

pub open spec fn clone_prefix() -> Seq<char> {
    "pake-"@
}

pub open spec fn page_load_plan_spec(
    finished: bool,
    placeholder: bool,
    label: Seq<char>,
    game_label: bool,
    want_start_to_tray: bool,
    tray_enabled: bool,
) -> PageLoadPlan {
    if !finished || placeholder {
        PageLoadPlan { game_page_finished: false, reveal: PageReveal::Nothing }
    } else {
        let game = (label == main_label() || starts_with(label, clone_prefix())) && game_label;
        let reveal = if label == main_label() {
            if want_start_to_tray && tray_enabled {
                PageReveal::Nothing
            } else {
                PageReveal::MainStartup
            }
        } else if starts_with(label, clone_prefix()) {
            PageReveal::BuiltWindow
        } else {
            PageReveal::Nothing
        };
        PageLoadPlan { game_page_finished: game, reveal }
    }
}

/// Decide what a page-load event does. Only `Finished` on a real (non
/// placeholder) URL acts. The main window's reveal is skipped when it is meant
/// to start in the tray and the tray is on.
pub fn page_load_plan(
    finished: bool,
    url: &PageUrl,
    label: &str,
    want_start_to_tray: bool,
    tray_enabled: bool,
) -> (r: PageLoadPlan)
    ensures
        r == page_load_plan_spec(
            finished,
            placeholder_scheme(url.scheme@),
            label@,
            !crate::text::contains_seq(label@, crate::labels::child_marker()),
            want_start_to_tray,
            tray_enabled,
        ),
{
    if !finished || is_placeholder_startup_url(url) {
        return PageLoadPlan { game_page_finished: false, reveal: PageReveal::Nothing };
    }
    let is_main = str_eq(label, "pake");
    let is_clone = str_starts_with(label, "pake-");
    let game = (is_main || is_clone) && is_game_label(label);
    let reveal = if is_main {
        if want_start_to_tray && tray_enabled {
            PageReveal::Nothing
        } else {
            PageReveal::MainStartup
        }
    } else if is_clone {
        PageReveal::BuiltWindow
    } else {
        PageReveal::Nothing
    };
    PageLoadPlan { game_page_finished: game, reveal }
}

/// A close request on the main window hides it instead of closing, when
/// hide-on-close is configured and the tray is on.
pub fn close_request_hides(hide_on_close: bool, label: &str, tray_enabled: bool) -> (r: bool)
    ensures
        r == (hide_on_close && label@ == main_label() && tray_enabled),
{
    hide_on_close && str_eq(label, "pake") && tray_enabled
}


/// What a finished load of the game webview does.
#[derive(Debug, PartialEq, Eq)]
pub enum GamePageAction {
    /// Not the game webview (sidebar, wiki, panel): nothing.
    NotGame,
    /// A Granblue page: record its hash (`#fragment`, when the URL has one),
    /// re-push the lock CSS and ask for an edge report.
    OnGranblue { hash: Option<String> },
    /// Another page (a login page, say): forget the game edge and lay out,
    /// so the sidebar does not sit over it.
    OffGranblue,
}

/// The URL's host names Granblue.
pub open spec fn on_granblue(url: PageUrl) -> bool {
    match url.host {
        Some(h) => contains_seq(h@, "granbluefantasy"@),
        None => false,
    }
}

pub fn game_page_finished_plan(label: &str, url: &PageUrl) -> (r: GamePageAction)
    ensures
        contains_seq(label@, crate::labels::child_marker()) ==> r == GamePageAction::NotGame,
        !contains_seq(label@, crate::labels::child_marker()) && !on_granblue(*url) ==> r
            == GamePageAction::OffGranblue,
        !contains_seq(label@, crate::labels::child_marker()) && on_granblue(*url) ==> (r matches GamePageAction::OnGranblue { hash } && (match hash {
            Some(h) => url.fragment matches Some(f) && h@ == seq!['#'] + f@,
            None => url.fragment is None,
        })),
{
    if !is_game_label(label) {
        return GamePageAction::NotGame;
    }
    let on_gbf = match &url.host {
        Some(h) => str_contains(h.as_str(), "granbluefantasy"),
        None => false,
    };
    if !on_gbf {
        return GamePageAction::OffGranblue;
    }
    let hash = match &url.fragment {
        Some(f) => {
            proof {
                reveal_strlit("#");
            }
            let h = concat_str("#", f.as_str());
            assert(h@ =~= seq!['#'] + f@);
            Some(h)
        },
        None => None,
    };
    GamePageAction::OnGranblue { hash }
}


/// The wiki webview is built on about:blank; its first opening loads the
/// wiki. A webview whose URL cannot be read is treated as blank too.
pub fn wiki_needs_first_load(current: Option<&PageUrl>) -> (r: bool)
    ensures
        r == (match current {
            Some(u) => u.scheme@ == "about"@,
            None => true,
        }),
{
    match current {
        Some(u) => str_eq(u.scheme.as_str(), "about"),
        None => true,
    }
}

} // verus!
