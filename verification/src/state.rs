//! The sidebar's state: per-window flags (each `--multi-window` clone has its
//! own) and the process-wide choices.
//!
//! Every per-window change is a step function on `WindowFlags`; the methods
//! apply it to the named window and leave every other window as it was.

use vstd::prelude::*;
use crate::label_map::LabelMap;
use crate::theme::{normalize_theme, normalized_theme};

verus! {

/// The per-window flags that are not pixel geometry.
#[derive(Clone, Copy, Debug, PartialEq, Eq)]
pub struct WindowFlags {
    pub collapsed: bool,
    pub wiki_open: bool,
    pub about_open: bool,
    pub options_open: bool,
    /// True = panel between the game and the sidebar. Default false = the
    /// panel sits to the right of the sidebar.
    pub wiki_inside: bool,
    pub locked: bool,
    pub lock_was_auto: bool,
    /// We collapsed the sidebar ourselves to free width for a panel.
    pub collapsed_for_panel: bool,
    /// True between our own resize and the layout that follows it.
    pub hug_busy: bool,
    /// Cancels a delayed About/Options slim-hug if the player moved on.
    pub panel_fit_gen: u64,
    /// Lock CSS last pushed into the game page; `None` = unknown.
    pub lock_css: Option<bool>,
    /// Granblue's Automatic Resizing.
    pub automatic: bool,
    /// Granblue served its mobile client.
    pub mobile: bool,
    /// Physical inner width of the last resize we performed; 0 = none.
    pub last_set_phys_w: u32,
    /// The player resized the window while a panel was open.
    pub panel_user_resized: bool,
}

/// A window we know nothing about reads as this.
pub open spec fn default_flags() -> WindowFlags {
    WindowFlags {
        collapsed: false,
        wiki_open: false,
        about_open: false,
        options_open: false,
        wiki_inside: false,
        locked: false,
        lock_was_auto: false,
        collapsed_for_panel: false,
        hug_busy: false,
        panel_fit_gen: 0,
        lock_css: None,
        automatic: false,
        mobile: false,
        last_set_phys_w: 0,
        panel_user_resized: false,
    }
}

fn new_flags() -> (r: WindowFlags)
    ensures
        r == default_flags(),
{
    WindowFlags {
        collapsed: false,
        wiki_open: false,
        about_open: false,
        options_open: false,
        wiki_inside: false,
        locked: false,
        lock_was_auto: false,
        collapsed_for_panel: false,
        hug_busy: false,
        panel_fit_gen: 0,
        lock_css: None,
        automatic: false,
        mobile: false,
        last_set_phys_w: 0,
        panel_user_resized: false,
    }
}

pub open spec fn wrap_inc(g: u64) -> u64 {
    if g == u64::MAX {
        0
    } else {
        (g + 1) as u64
    }
}

pub open spec fn any_panel_open(f: WindowFlags) -> bool {
    f.wiki_open || f.about_open || f.options_open
}

/// At most one of the wiki, About and Options is open.
pub open spec fn panels_exclusive(f: WindowFlags) -> bool {
    &&& !(f.wiki_open && f.about_open)
    &&& !(f.wiki_open && f.options_open)
    &&& !(f.about_open && f.options_open)
}

/// Collapse or expand by hand; a manual toggle takes ownership of the rail.
pub open spec fn toggle_step(f: WindowFlags) -> WindowFlags {
    WindowFlags { collapsed: !f.collapsed, collapsed_for_panel: false, ..f }
}

/// Opening the wiki closes About and Options.
pub open spec fn set_wiki_open_step(f: WindowFlags, open: bool) -> WindowFlags {
    if open {
        WindowFlags {
            wiki_open: true,
            about_open: false,
            options_open: false,
            panel_fit_gen: wrap_inc(f.panel_fit_gen),
            ..f
        }
    } else {
        WindowFlags { wiki_open: false, ..f }
    }
}

/// Opening About closes the wiki and Options.
pub open spec fn set_about_open_step(f: WindowFlags, open: bool) -> WindowFlags {
    if open {
        WindowFlags { about_open: true, wiki_open: false, options_open: false, ..f }
    } else {
        WindowFlags { about_open: false, panel_fit_gen: wrap_inc(f.panel_fit_gen), ..f }
    }
}

/// Opening Options closes the wiki and About.
pub open spec fn set_options_open_step(f: WindowFlags, open: bool) -> WindowFlags {
    if open {
        WindowFlags { options_open: true, wiki_open: false, about_open: false, ..f }
    } else {
        WindowFlags { options_open: false, panel_fit_gen: wrap_inc(f.panel_fit_gen), ..f }
    }
}

/// How far apart two physical widths may be and still be our own resize.
pub open spec fn echo_slack() -> u32 {
    8
}

pub open spec fn abs_diff(a: u32, b: u32) -> u32 {
    if a >= b {
        (a - b) as u32
    } else {
        (b - a) as u32
    }
}

/// A window resize was seen. Our own resize echoing back is not a drag; a
/// real drag while a panel is open marks the borrowed width as the player's.
pub open spec fn note_user_resize_step(f: WindowFlags, phys_w: u32) -> WindowFlags {
    if f.hug_busy {
        f
    } else if f.last_set_phys_w != 0 && abs_diff(phys_w, f.last_set_phys_w) <= echo_slack() {
        WindowFlags { last_set_phys_w: 0, ..f }
    } else {
        WindowFlags {
            last_set_phys_w: 0,
            panel_user_resized: f.panel_user_resized || any_panel_open(f),
            ..f
        }
    }
}

pub open spec fn collapse_for_panel_step(f: WindowFlags) -> WindowFlags {
    WindowFlags { collapsed: true, collapsed_for_panel: true, ..f }
}

/// Expand again if we collapsed for a panel and no panel is open any more.
pub open spec fn restore_collapse_step(f: WindowFlags) -> WindowFlags {
    if f.collapsed_for_panel && !any_panel_open(f) {
        WindowFlags { collapsed: false, collapsed_for_panel: false, ..f }
    } else {
        f
    }
}

/// Undo a collapse forced for a panel that did not open.
pub open spec fn undo_collapse_step(f: WindowFlags) -> WindowFlags {
    WindowFlags { collapsed: false, collapsed_for_panel: false, ..f }
}

/// Desktop Automatic is a bare window: every panel closes.
pub open spec fn close_panels_step(f: WindowFlags) -> WindowFlags {
    let closed = WindowFlags {
        wiki_open: false,
        about_open: false,
        options_open: false,
        panel_user_resized: false,
        ..f
    };
    if f.collapsed_for_panel {
        WindowFlags { collapsed: false, collapsed_for_panel: false, ..closed }
    } else {
        closed
    }
}

/// The lock flag, as `set_lock` leaves it: unlocking also clears a hug in
/// flight, since nothing would clear it afterwards.
pub open spec fn set_lock_step(f: WindowFlags, on: bool) -> WindowFlags {
    if on {
        WindowFlags { locked: true, ..f }
    } else {
        WindowFlags { locked: false, hug_busy: false, ..f }
    }
}

/// Desktop client + Automatic Resizing: nothing of ours runs in the page.
pub open spec fn native_mode_spec(f: WindowFlags) -> bool {
    f.automatic && !f.mobile
}

/// Lock CSS the game page should carry.
pub open spec fn lock_wanted(f: WindowFlags) -> bool {
    f.locked && !native_mode_spec(f)
}

/// The three panels. About and Options share one webview.
#[derive(Clone, Copy, Debug, PartialEq, Eq)]
pub enum PanelKind {
    Wiki,
    About,
    Options,
}

pub open spec fn panel_open_of(f: WindowFlags, kind: PanelKind) -> bool {
    match kind {
        PanelKind::Wiki => f.wiki_open,
        PanelKind::About => f.about_open,
        PanelKind::Options => f.options_open,
    }
}

pub open spec fn set_panel_step(f: WindowFlags, kind: PanelKind, open: bool) -> WindowFlags {
    match kind {
        PanelKind::Wiki => set_wiki_open_step(f, open),
        PanelKind::About => set_about_open_step(f, open),
        PanelKind::Options => set_options_open_step(f, open),
    }
}

pub open spec fn panel_page_spec(kind: PanelKind) -> Option<Seq<char>> {
    match kind {
        PanelKind::Wiki => None,
        PanelKind::About => Some("gbf-about.html"@),
        PanelKind::Options => Some("gbf-options.html"@),
    }
}

/// The local page the shared About/Options webview shows for a panel; the
/// wiki has its own webview.
pub fn panel_page(kind: PanelKind) -> (r: Option<&'static str>)
    ensures
        (match r {
            Some(p) => Some(p@),
            None => None,
        }) == panel_page_spec(kind),
{
    match kind {
        PanelKind::Wiki => None,
        PanelKind::About => Some("gbf-about.html"),
        PanelKind::Options => Some("gbf-options.html"),
    }
}

/// The shared panel already shows `page` when its path ends with it.
pub fn panel_shows_page(current_path: &str, page: &str) -> (r: bool)
    ensures
        r == (page@.len() <= current_path@.len() && current_path@.subrange(
            current_path@.len() - page@.len(),
            current_path@.len() as int,
        ) == page@),
{
    let n = current_path.unicode_len();
    let m = page.unicode_len();
    if m > n {
        return false;
    }
    crate::text::str_eq(current_path.substring_char(n - m, n), page)
}

/// The two widths a panel can open at.
#[derive(Clone, Copy, Debug, PartialEq, Eq)]
pub enum PanelTier {
    Preferred,
    Minimum,
}

/// Which width a panel opens at, and whether the sidebar must collapse for
/// it: the preferred width beats collapsing, collapsing beats the minimum
/// width, and with no fit at all the panel is refused. `fits_*` say whether
/// that width fits beside the rail as it is, `fits_*_collapsed` beside a
/// collapsed rail.
pub open spec fn panel_fit_spec(
    collapsed: bool,
    fits_preferred: bool,
    fits_preferred_collapsed: bool,
    fits_minimum: bool,
    fits_minimum_collapsed: bool,
) -> Option<(PanelTier, bool)> {
    if fits_preferred {
        Some((PanelTier::Preferred, false))
    } else if !collapsed && fits_preferred_collapsed {
        Some((PanelTier::Preferred, true))
    } else if fits_minimum {
        Some((PanelTier::Minimum, false))
    } else if !collapsed && fits_minimum_collapsed {
        Some((PanelTier::Minimum, true))
    } else {
        None
    }
}

/// What a click on a panel's button starts.
#[derive(Clone, Copy, Debug, PartialEq, Eq)]
pub enum PanelToggle {
    /// Opening is refused on a bare (native-mode) window.
    Refused,
    /// The panel was open and is now closed.
    Closed,
    /// The panel is to be opened, once the window has room for it.
    Open,
}

pub open spec fn begin_panel_toggle_spec(f: WindowFlags, kind: PanelKind) -> (PanelToggle, WindowFlags) {
    if panel_open_of(f, kind) {
        (PanelToggle::Closed, restore_collapse_step(set_panel_step(f, kind, false)))
    } else if native_mode_spec(f) {
        (PanelToggle::Refused, f)
    } else {
        (PanelToggle::Open, f)
    }
}

/// What the sidebar's state looks like from outside.
pub struct SidebarView {
    pub windows: Map<Seq<char>, WindowFlags>,
    pub tray: bool,
    pub desktop_client: bool,
    pub mobile_half: bool,
    /// As stored; read through `normalized_theme`.
    pub theme: Seq<char>,
    pub sidebar_debug: bool,
    pub game_hash: Map<Seq<char>, Seq<char>>,
}

/// The flags of `label`, or the defaults for a window never touched.
pub open spec fn flags_of(v: SidebarView, label: Seq<char>) -> WindowFlags {
    if v.windows.contains_key(label) {
        v.windows[label]
    } else {
        default_flags()
    }
}

/// `v` with the flags of `label` replaced.
pub open spec fn with_flags(v: SidebarView, label: Seq<char>, f: WindowFlags) -> SidebarView {
    SidebarView { windows: v.windows.insert(label, f), ..v }
}

/// The last game hash recorded for `label`, or empty.
pub open spec fn hash_of(v: SidebarView, label: Seq<char>) -> Seq<char> {
    if v.game_hash.contains_key(label) {
        v.game_hash[label]
    } else {
        Seq::empty()
    }
}

/// Per-window flags plus the process-wide choices.
pub struct SidebarState {
    windows: LabelMap<WindowFlags>,
    tray: bool,
    desktop_client: bool,
    mobile_half: bool,
    theme: String,
    sidebar_debug: bool,
    game_hash: LabelMap<String>,
}

impl View for SidebarState {
    type V = SidebarView;

    closed spec fn view(&self) -> SidebarView {
        SidebarView {
            windows: self.windows.as_map(),
            tray: self.tray,
            desktop_client: self.desktop_client,
            mobile_half: self.mobile_half,
            theme: self.theme@,
            sidebar_debug: self.sidebar_debug,
            game_hash: self.game_hash.as_map().map_values(|s: String| s@),
        }
    }
}

/// The state a fresh process starts from.
pub open spec fn initial_view() -> SidebarView {
    SidebarView {
        windows: Map::empty(),
        tray: false,
        desktop_client: false,
        mobile_half: false,
        theme: Seq::empty(),
        sidebar_debug: false,
        game_hash: Map::empty(),
    }
}

impl Default for SidebarState {
    fn default() -> (r: SidebarState)
        ensures
            r@ == initial_view(),
    {
        SidebarState::new()
    }
}

impl SidebarState {
    pub fn new() -> (r: SidebarState)
        ensures
            r@ == initial_view(),
    {
        let r = SidebarState {
            windows: LabelMap::new(),
            tray: false,
            desktop_client: false,
            mobile_half: false,
            theme: String::new(),
            sidebar_debug: false,
            game_hash: LabelMap::new(),
        };
        assert(r@.game_hash =~= Map::<Seq<char>, Seq<char>>::empty());
        r
    }

    /// The flags of one window (defaults when never touched).
    pub fn flags(&self, label: &str) -> (r: WindowFlags)
        ensures
            r == flags_of(self@, label@),
    {
        match self.windows.get(label) {
            Some(f) => *f,
            None => new_flags(),
        }
    }

    fn put_flags(&mut self, label: &str, f: WindowFlags)
        ensures
            final(self)@ == with_flags(old(self)@, label@, f),
    {
        self.windows.insert(label, f);
    }

    // ---- process-wide ----

    pub fn is_tray_enabled(&self) -> (r: bool)
        ensures
            r == self@.tray,
    {
        self.tray
    }

    pub fn set_tray_enabled(&mut self, on: bool)
        ensures
            final(self)@ == (SidebarView { tray: on, ..old(self)@ }),
    {
        self.tray = on;
    }

    pub fn is_desktop_client(&self) -> (r: bool)
        ensures
            r == self@.desktop_client,
    {
        self.desktop_client
    }

    pub fn set_desktop_client(&mut self, on: bool)
        ensures
            final(self)@ == (SidebarView { desktop_client: on, ..old(self)@ }),
    {
        self.desktop_client = on;
    }

    pub fn is_mobile_half(&self) -> (r: bool)
        ensures
            r == self@.mobile_half,
    {
        self.mobile_half
    }

    pub fn set_mobile_half(&mut self, on: bool)
        ensures
            final(self)@ == (SidebarView { mobile_half: on, ..old(self)@ }),
    {
        self.mobile_half = on;
    }

    /// The theme, always one of "midnight", "ember" and "tide".
    pub fn theme(&self) -> (r: String)
        ensures
            r@ == normalized_theme(self@.theme),
    {
        normalize_theme(self.theme.as_str())
    }

    pub fn set_theme(&mut self, theme: &str)
        ensures
            final(self)@ == (SidebarView { theme: normalized_theme(theme@), ..old(self)@ }),
    {
        self.theme = normalize_theme(theme);
    }

    pub fn is_sidebar_debug(&self) -> (r: bool)
        ensures
            r == self@.sidebar_debug,
    {
        self.sidebar_debug
    }

    pub fn set_sidebar_debug(&mut self, on: bool)
        ensures
            final(self)@ == (SidebarView { sidebar_debug: on, ..old(self)@ }),
    {
        self.sidebar_debug = on;
    }

    /// The last game hash reported for a window, or empty.
    pub fn game_hash(&self, label: &str) -> (r: String)
        ensures
            r@ == hash_of(self@, label@),
    {
        match self.game_hash.get(label) {
            Some(h) => h.clone(),
            None => String::new(),
        }
    }

    /// Record the game hash; true when it differs from the one stored (or
    /// none was).
    pub fn set_game_hash(&mut self, label: &str, hash: String) -> (changed: bool)
        ensures
            changed == !(old(self)@.game_hash.contains_key(label@) && old(self)@.game_hash[label@]
                == hash@),
            final(self)@ == (SidebarView {
                game_hash: old(self)@.game_hash.insert(label@, hash@),
                ..old(self)@
            }),
    {
        let changed = match self.game_hash.get(label) {
            Some(old) => !crate::text::str_eq(old.as_str(), hash.as_str()),
            None => true,
        };
        let ghost hv = hash@;
        self.game_hash.insert(label, hash);
        assert(self@.game_hash =~= old(self)@.game_hash.insert(label@, hv));
        changed
    }

    // ---- per window ----

    pub fn is_collapsed(&self, label: &str) -> (r: bool)
        ensures
            r == flags_of(self@, label@).collapsed,
    {
        self.flags(label).collapsed
    }

    /// Collapse or expand by hand. Returns the new collapsed state.
    pub fn toggle(&mut self, label: &str) -> (r: bool)
        ensures
            final(self)@ == with_flags(old(self)@, label@, toggle_step(flags_of(old(self)@, label@))),
            r == !flags_of(old(self)@, label@).collapsed,
    {
        let f = self.flags(label);
        let nf = WindowFlags { collapsed: !f.collapsed, collapsed_for_panel: false, ..f };
        self.put_flags(label, nf);
        nf.collapsed
    }

    pub fn wiki_is_open(&self, label: &str) -> (r: bool)
        ensures
            r == flags_of(self@, label@).wiki_open,
    {
        self.flags(label).wiki_open
    }

    pub fn set_wiki_open(&mut self, label: &str, open: bool)
        ensures
            final(self)@ == with_flags(
                old(self)@,
                label@,
                set_wiki_open_step(flags_of(old(self)@, label@), open),
            ),
    {
        let f = self.flags(label);
        let nf = if open {
            WindowFlags {
                wiki_open: true,
                about_open: false,
                options_open: false,
                panel_fit_gen: f.panel_fit_gen.wrapping_add(1),
                ..f
            }
        } else {
            WindowFlags { wiki_open: false, ..f }
        };
        self.put_flags(label, nf);
    }

    pub fn about_is_open(&self, label: &str) -> (r: bool)
        ensures
            r == flags_of(self@, label@).about_open,
    {
        self.flags(label).about_open
    }

    pub fn set_about_open(&mut self, label: &str, open: bool)
        ensures
            final(self)@ == with_flags(
                old(self)@,
                label@,
                set_about_open_step(flags_of(old(self)@, label@), open),
            ),
    {
        let f = self.flags(label);
        let nf = if open {
            WindowFlags { about_open: true, wiki_open: false, options_open: false, ..f }
        } else {
            WindowFlags { about_open: false, panel_fit_gen: f.panel_fit_gen.wrapping_add(1), ..f }
        };
        self.put_flags(label, nf);
    }

    pub fn options_is_open(&self, label: &str) -> (r: bool)
        ensures
            r == flags_of(self@, label@).options_open,
    {
        self.flags(label).options_open
    }

    pub fn set_options_open(&mut self, label: &str, open: bool)
        ensures
            final(self)@ == with_flags(
                old(self)@,
                label@,
                set_options_open_step(flags_of(old(self)@, label@), open),
            ),
    {
        let f = self.flags(label);
        let nf = if open {
            WindowFlags { options_open: true, wiki_open: false, about_open: false, ..f }
        } else {
            WindowFlags {
                options_open: false,
                panel_fit_gen: f.panel_fit_gen.wrapping_add(1),
                ..f
            }
        };
        self.put_flags(label, nf);
    }

    pub fn panel_is_open(&self, label: &str) -> (r: bool)
        ensures
            r == any_panel_open(flags_of(self@, label@)),
    {
        let f = self.flags(label);
        f.wiki_open || f.about_open || f.options_open
    }

    pub fn is_locked(&self, label: &str) -> (r: bool)
        ensures
            r == flags_of(self@, label@).locked,
    {
        self.flags(label).locked
    }

    /// Panels sit to the right of the sidebar (the default).
    pub fn is_wiki_outside(&self, label: &str) -> (r: bool)
        ensures
            r == !flags_of(self@, label@).wiki_inside,
    {
        !self.flags(label).wiki_inside
    }

    pub fn set_wiki_outside(&mut self, label: &str, on: bool)
        ensures
            final(self)@ == with_flags(
                old(self)@,
                label@,
                WindowFlags { wiki_inside: !on, ..flags_of(old(self)@, label@) },
            ),
    {
        let f = self.flags(label);
        self.put_flags(label, WindowFlags { wiki_inside: !on, ..f });
    }

    pub fn set_locked(&mut self, label: &str, on: bool)
        ensures
            final(self)@ == with_flags(
                old(self)@,
                label@,
                WindowFlags { locked: on, ..flags_of(old(self)@, label@) },
            ),
    {
        let f = self.flags(label);
        self.put_flags(label, WindowFlags { locked: on, ..f });
    }

    pub fn lock_was_auto(&self, label: &str) -> (r: bool)
        ensures
            r == flags_of(self@, label@).lock_was_auto,
    {
        self.flags(label).lock_was_auto
    }

    pub fn set_lock_was_auto(&mut self, label: &str, on: bool)
        ensures
            final(self)@ == with_flags(
                old(self)@,
                label@,
                WindowFlags { lock_was_auto: on, ..flags_of(old(self)@, label@) },
            ),
    {
        let f = self.flags(label);
        self.put_flags(label, WindowFlags { lock_was_auto: on, ..f });
    }

    pub fn is_automatic(&self, label: &str) -> (r: bool)
        ensures
            r == flags_of(self@, label@).automatic,
    {
        self.flags(label).automatic
    }

    pub fn set_automatic(&mut self, label: &str, on: bool)
        ensures
            final(self)@ == with_flags(
                old(self)@,
                label@,
                WindowFlags { automatic: on, ..flags_of(old(self)@, label@) },
            ),
    {
        let f = self.flags(label);
        self.put_flags(label, WindowFlags { automatic: on, ..f });
    }

    pub fn is_mobile(&self, label: &str) -> (r: bool)
        ensures
            r == flags_of(self@, label@).mobile,
    {
        self.flags(label).mobile
    }

    pub fn set_mobile(&mut self, label: &str, on: bool)
        ensures
            final(self)@ == with_flags(
                old(self)@,
                label@,
                WindowFlags { mobile: on, ..flags_of(old(self)@, label@) },
            ),
    {
        let f = self.flags(label);
        self.put_flags(label, WindowFlags { mobile: on, ..f });
    }

    pub fn hug_busy(&self, label: &str) -> (r: bool)
        ensures
            r == flags_of(self@, label@).hug_busy,
    {
        self.flags(label).hug_busy
    }

    pub fn set_hug_busy(&mut self, label: &str, on: bool)
        ensures
            final(self)@ == with_flags(
                old(self)@,
                label@,
                WindowFlags { hug_busy: on, ..flags_of(old(self)@, label@) },
            ),
    {
        let f = self.flags(label);
        self.put_flags(label, WindowFlags { hug_busy: on, ..f });
    }

    /// Record a resize we are about to perform, so its echo is not read as a
    /// drag.
    pub fn note_our_resize(&mut self, label: &str, phys_w: u32)
        ensures
            final(self)@ == with_flags(
                old(self)@,
                label@,
                WindowFlags { last_set_phys_w: phys_w, ..flags_of(old(self)@, label@) },
            ),
    {
        let f = self.flags(label);
        self.put_flags(label, WindowFlags { last_set_phys_w: phys_w, ..f });
    }

    /// A resize of the window was seen (physical inner width `phys_w`).
    pub fn note_user_resize(&mut self, label: &str, phys_w: u32)
        ensures
            final(self)@ == with_flags(
                old(self)@,
                label@,
                note_user_resize_step(flags_of(old(self)@, label@), phys_w),
            ),
    {
        let f = self.flags(label);
        if f.hug_busy {
            self.put_flags(label, f);
            return ;
        }
        let last = f.last_set_phys_w;
        let diff = if phys_w >= last {
            phys_w - last
        } else {
            last - phys_w
        };
        if last != 0 && diff <= 8 {
            self.put_flags(label, WindowFlags { last_set_phys_w: 0, ..f });
            return ;
        }
        let resized = f.panel_user_resized || f.wiki_open || f.about_open || f.options_open;
        self.put_flags(label, WindowFlags { last_set_phys_w: 0, panel_user_resized: resized, ..f });
    }

    pub fn panel_fit_gen(&self, label: &str) -> (r: u64)
        ensures
            r == flags_of(self@, label@).panel_fit_gen,
    {
        self.flags(label).panel_fit_gen
    }

    /// Start a new slim-hug generation and return it.
    pub fn bump_panel_fit_gen(&mut self, label: &str) -> (r: u64)
        ensures
            r == wrap_inc(flags_of(old(self)@, label@).panel_fit_gen),
            final(self)@ == with_flags(
                old(self)@,
                label@,
                WindowFlags { panel_fit_gen: r, ..flags_of(old(self)@, label@) },
            ),
    {
        let f = self.flags(label);
        let g = f.panel_fit_gen.wrapping_add(1);
        self.put_flags(label, WindowFlags { panel_fit_gen: g, ..f });
        g
    }

    /// Whether the player resized while a panel was open; clears it.
    pub fn take_panel_user_resized(&mut self, label: &str) -> (r: bool)
        ensures
            r == flags_of(old(self)@, label@).panel_user_resized,
            final(self)@ == with_flags(
                old(self)@,
                label@,
                WindowFlags { panel_user_resized: false, ..flags_of(old(self)@, label@) },
            ),
    {
        let f = self.flags(label);
        self.put_flags(label, WindowFlags { panel_user_resized: false, ..f });
        f.panel_user_resized
    }

    /// Record the lock CSS we pushed (`None`: the page's copy is unknown
    /// again, as after a page load); true when that is a change.
    pub fn note_lock_css(&mut self, label: &str, on: Option<bool>) -> (changed: bool)
        ensures
            changed == (flags_of(old(self)@, label@).lock_css != on),
            final(self)@ == with_flags(
                old(self)@,
                label@,
                WindowFlags { lock_css: on, ..flags_of(old(self)@, label@) },
            ),
    {
        let f = self.flags(label);
        let changed = match (f.lock_css, on) {
            (None, None) => false,
            (Some(a), Some(b)) => a != b,
            _ => true,
        };
        self.put_flags(label, WindowFlags { lock_css: on, ..f });
        changed
    }

    /// Collapse the sidebar to make room for a panel.
    pub fn collapse_for_panel(&mut self, label: &str)
        ensures
            final(self)@ == with_flags(
                old(self)@,
                label@,
                collapse_for_panel_step(flags_of(old(self)@, label@)),
            ),
    {
        let f = self.flags(label);
        self.put_flags(label, WindowFlags { collapsed: true, collapsed_for_panel: true, ..f });
    }

    /// Expand again after the panel we collapsed for has closed.
    pub fn restore_collapse_for_panel(&mut self, label: &str)
        ensures
            final(self)@ == with_flags(
                old(self)@,
                label@,
                restore_collapse_step(flags_of(old(self)@, label@)),
            ),
    {
        let f = self.flags(label);
        if f.collapsed_for_panel && !f.wiki_open && !f.about_open && !f.options_open {
            self.put_flags(label, WindowFlags { collapsed: false, collapsed_for_panel: false, ..f });
        } else {
            self.put_flags(label, f);
        }
    }

    /// Undo a collapse forced for a panel that then did not open.
    pub fn undo_collapse_for_panel(&mut self, label: &str)
        ensures
            final(self)@ == with_flags(
                old(self)@,
                label@,
                undo_collapse_step(flags_of(old(self)@, label@)),
            ),
    {
        let f = self.flags(label);
        self.put_flags(label, WindowFlags { collapsed: false, collapsed_for_panel: false, ..f });
    }

    /// Desktop Automatic is a bare window: close every panel. Returns
    /// whether one was open.
    pub fn close_panels_for_automatic(&mut self, label: &str) -> (had: bool)
        ensures
            had == any_panel_open(flags_of(old(self)@, label@)),
            !flags_of(final(self)@, label@).wiki_open,
            !flags_of(final(self)@, label@).about_open,
            !flags_of(final(self)@, label@).options_open,
            flags_of(old(self)@, label@).collapsed_for_panel ==> !flags_of(final(self)@, label@).collapsed,
            final(self)@ == with_flags(
                old(self)@,
                label@,
                close_panels_step(flags_of(old(self)@, label@)),
            ),
    {
        let f = self.flags(label);
        let had = f.wiki_open || f.about_open || f.options_open;
        let closed = WindowFlags {
            wiki_open: false,
            about_open: false,
            options_open: false,
            panel_user_resized: false,
            ..f
        };
        let nf = if f.collapsed_for_panel {
            WindowFlags { collapsed: false, collapsed_for_panel: false, ..closed }
        } else {
            closed
        };
        self.put_flags(label, nf);
        had
    }

    /// Desktop client on Automatic Resizing: a bare window, no sidebar, no
    /// panels. The mobile client is never this mode.
    pub fn native_mode(&self, label: &str) -> (r: bool)
        ensures
            r == native_mode_spec(flags_of(self@, label@)),
    {
        let f = self.flags(label);
        f.automatic && !f.mobile
    }

    /// Locked mode's flags as `set_lock` leaves them.
    pub fn set_lock_state(&mut self, label: &str, on: bool)
        ensures
            final(self)@ == with_flags(old(self)@, label@, set_lock_step(flags_of(old(self)@, label@), on)),
    {
        let f = self.flags(label);
        let nf = if on {
            WindowFlags { locked: true, ..f }
        } else {
            WindowFlags { locked: false, hug_busy: false, ..f }
        };
        self.put_flags(label, nf);
    }

    /// A panel opening locks an unlocked window automatically; the last panel
    /// closing undoes a lock that was automatic. Returns the lock change to
    /// make, if any.
    pub fn panel_lock_step(&mut self, label: &str, opening: bool) -> (r: Option<bool>)
        ensures
            ({
                let f = flags_of(old(self)@, label@);
                if opening && !f.locked {
                    r == Some(true) && final(self)@ == with_flags(
                        old(self)@,
                        label@,
                        WindowFlags { lock_was_auto: true, ..f },
                    )
                } else if !opening && !any_panel_open(f) && f.lock_was_auto {
                    r == Some(false) && final(self)@ == with_flags(
                        old(self)@,
                        label@,
                        WindowFlags { lock_was_auto: false, ..f },
                    )
                } else {
                    r is None && final(self)@ == old(self)@
                }
            }),
    {
        let f = self.flags(label);
        if opening {
            if !f.locked {
                self.put_flags(label, WindowFlags { lock_was_auto: true, ..f });
                return Some(true);
            }
            return None;
        }
        if !(f.wiki_open || f.about_open || f.options_open) && f.lock_was_auto {
            self.put_flags(label, WindowFlags { lock_was_auto: false, ..f });
            return Some(false);
        }
        None
    }

    /// A manual lock toggle: refused on the mobile client; otherwise the new
    /// lock state, and the lock is no longer automatic.
    pub fn begin_toggle_lock(&mut self, label: &str) -> (r: Option<bool>)
        ensures
            ({
                let f = flags_of(old(self)@, label@);
                if f.mobile {
                    r is None && final(self)@ == old(self)@
                } else {
                    r == Some(!f.locked) && final(self)@ == with_flags(
                        old(self)@,
                        label@,
                        WindowFlags { lock_was_auto: false, ..f },
                    )
                }
            }),
    {
        let f = self.flags(label);
        if f.mobile {
            return None;
        }
        self.put_flags(label, WindowFlags { lock_was_auto: false, ..f });
        Some(!f.locked)
    }

    /// The lock CSS to push into the game page: only when the page's copy
    /// does not already match what it should carry.
    pub fn lock_css_to_push(&mut self, label: &str) -> (r: Option<bool>)
        ensures
            ({
                let f = flags_of(old(self)@, label@);
                &&& final(self)@ == with_flags(
                    old(self)@,
                    label@,
                    WindowFlags { lock_css: Some(lock_wanted(f)), ..f },
                )
                &&& r == (if f.lock_css == Some(lock_wanted(f)) {
                    None
                } else {
                    Some(lock_wanted(f))
                })
            }),
            r == Some(true) ==> flags_of(old(self)@, label@).locked,
            flags_of(final(self)@, label@).lock_css == Some(true) ==> flags_of(
                old(self)@,
                label@,
            ).locked && !native_mode_spec(flags_of(old(self)@, label@)),
            !flags_of(old(self)@, label@).locked && flags_of(old(self)@, label@).lock_css is None
                ==> r == Some(false),
    {
        let f = self.flags(label);
        let want = f.locked && !(f.automatic && !f.mobile);
        if self.note_lock_css(label, Some(want)) {
            Some(want)
        } else {
            None
        }
    }

    /// After a page load the page holds no lock CSS of ours: the state to
    /// push, recorded as what the page now carries.
    pub fn reapply_lock_state(&mut self, label: &str) -> (r: bool)
        ensures
            r == lock_wanted(flags_of(old(self)@, label@)),
            r ==> flags_of(old(self)@, label@).locked,
            r ==> !(flags_of(old(self)@, label@).automatic && !flags_of(old(self)@, label@).mobile),
            flags_of(old(self)@, label@).locked && !flags_of(old(self)@, label@).automatic ==> r,
            flags_of(old(self)@, label@).locked && flags_of(old(self)@, label@).mobile ==> r,
            final(self)@ == with_flags(
                old(self)@,
                label@,
                WindowFlags { lock_css: Some(r), ..flags_of(old(self)@, label@) },
            ),
    {
        let f = self.flags(label);
        let locked = f.locked && !(f.automatic && !f.mobile);
        self.put_flags(label, WindowFlags { lock_css: Some(locked), ..f });
        locked
    }

    /// Record what the game page says of Automatic Resizing. Returns the
    /// previous value and whether the desktop client just went native, in
    /// which case every panel is closed.
    pub fn note_automatic(&mut self, label: &str, automatic: bool) -> (r: (bool, bool))
        ensures
            ({
                let f = flags_of(old(self)@, label@);
                let went = automatic && !f.automatic && !f.mobile;
                let g = WindowFlags { automatic, ..f };
                &&& r == (f.automatic, went)
                &&& went ==> !any_panel_open(flags_of(final(self)@, label@))
                &&& flags_of(final(self)@, label@).automatic == automatic
                &&& final(self)@ == with_flags(
                    old(self)@,
                    label@,
                    if went {
                        close_panels_step(g)
                    } else {
                        g
                    },
                )
            }),
    {
        let f = self.flags(label);
        let prev = f.automatic;
        self.put_flags(label, WindowFlags { automatic, ..f });
        let went = automatic && !prev && !f.mobile;
        if went {
            let _ = self.close_panels_for_automatic(label);
            assert(self@.windows =~= old(self)@.windows.insert(
                label@,
                close_panels_step(WindowFlags { automatic, ..f }),
            ));
        }
        (prev, went)
    }

    /// Choose the Granblue client. Returns false (and changes nothing) when it
    /// is already the chosen one.
    pub fn choose_desktop_client(&mut self, desktop: bool) -> (changed: bool)
        ensures
            changed == (old(self)@.desktop_client != desktop),
            final(self)@ == (SidebarView { desktop_client: desktop, ..old(self)@ }),
    {
        if self.desktop_client == desktop {
            return false;
        }
        self.desktop_client = desktop;
        true
    }

    pub fn panel_open(&self, label: &str, kind: PanelKind) -> (r: bool)
        ensures
            r == panel_open_of(flags_of(self@, label@), kind),
    {
        match kind {
            PanelKind::Wiki => self.wiki_is_open(label),
            PanelKind::About => self.about_is_open(label),
            PanelKind::Options => self.options_is_open(label),
        }
    }

    pub fn set_panel_open(&mut self, label: &str, kind: PanelKind, open: bool)
        ensures
            final(self)@ == with_flags(
                old(self)@,
                label@,
                set_panel_step(flags_of(old(self)@, label@), kind, open),
            ),
    {
        match kind {
            PanelKind::Wiki => self.set_wiki_open(label, open),
            PanelKind::About => self.set_about_open(label, open),
            PanelKind::Options => self.set_options_open(label, open),
        }
    }

    /// A panel button was clicked. An open panel closes (and a collapse made
    /// for it is undone); a closed one is refused on a bare window, or is to
    /// be opened.
    pub fn begin_panel_toggle(&mut self, label: &str, kind: PanelKind) -> (r: PanelToggle)
        ensures
            ({
                let (t, g) = begin_panel_toggle_spec(flags_of(old(self)@, label@), kind);
                &&& r == t
                &&& final(self)@ == if t == PanelToggle::Closed {
                    with_flags(old(self)@, label@, g)
                } else {
                    old(self)@
                }
            }),
            ({
                let f = flags_of(old(self)@, label@);
                let h = flags_of(final(self)@, label@);
                panel_open_of(f, kind) && panels_exclusive(f) ==> {
                    &&& r == PanelToggle::Closed
                    &&& !any_panel_open(h)
                    &&& (f.collapsed_for_panel ==> !h.collapsed && !h.collapsed_for_panel)
                    &&& (!f.collapsed_for_panel ==> h.collapsed == f.collapsed)
                }
            }),
            !panel_open_of(flags_of(old(self)@, label@), kind) ==> final(self)@ == old(self)@,
    {
        if self.panel_open(label, kind) {
            self.set_panel_open(label, kind, false);
            self.restore_collapse_for_panel(label);
            assert(self@.windows =~= old(self)@.windows.insert(
                label@,
                begin_panel_toggle_spec(flags_of(old(self)@, label@), kind).1,
            ));
            return PanelToggle::Closed;
        }
        if self.native_mode(label) {
            return PanelToggle::Refused;
        }
        PanelToggle::Open
    }

    /// The window was fitted for the panel (`fitted`), or it was refused: the
    /// panel opens, or a collapse made for it is undone.
    pub fn finish_panel_open(&mut self, label: &str, kind: PanelKind, fitted: bool)
        ensures
            final(self)@ == with_flags(
                old(self)@,
                label@,
                if fitted {
                    set_panel_step(flags_of(old(self)@, label@), kind, true)
                } else {
                    restore_collapse_step(flags_of(old(self)@, label@))
                },
            ),
    {
        if fitted {
            self.set_panel_open(label, kind, true);
        } else {
            self.restore_collapse_for_panel(label);
        }
    }

    /// The first part of a game edge report: the hash (when sent) and which
    /// client Granblue served (when sent). Returns whether the hash changed.
    pub fn note_game_report(&mut self, label: &str, mobile: Option<bool>, hash: Option<String>) -> (hash_changed: bool)
        ensures
            ({
                let v1 = match hash {
                    Some(h) => SidebarView {
                        game_hash: old(self)@.game_hash.insert(label@, h@),
                        ..old(self)@
                    },
                    None => old(self)@,
                };
                let v2 = match mobile {
                    Some(m) => with_flags(v1, label@, WindowFlags { mobile: m, ..flags_of(v1, label@) }),
                    None => v1,
                };
                &&& final(self)@ == v2
                &&& hash_changed == (match hash {
                    Some(h) => !(old(self)@.game_hash.contains_key(label@)
                        && old(self)@.game_hash[label@] == h@),
                    None => false,
                })
            }),
    {
        let changed = match hash {
            Some(h) => self.set_game_hash(label, h),
            None => false,
        };
        match mobile {
            Some(m) => self.set_mobile(label, m),
            None => {},
        }
        changed
    }

    /// Choose the panel's width tier, collapsing the sidebar when that is
    /// what makes it fit.
    pub fn plan_panel_fit(
        &mut self,
        label: &str,
        fits_preferred: bool,
        fits_preferred_collapsed: bool,
        fits_minimum: bool,
        fits_minimum_collapsed: bool,
    ) -> (r: Option<(PanelTier, bool)>)
        ensures
            r == panel_fit_spec(
                flags_of(old(self)@, label@).collapsed,
                fits_preferred,
                fits_preferred_collapsed,
                fits_minimum,
                fits_minimum_collapsed,
            ),
            final(self)@ == if r matches Some((_, true)) {
                with_flags(old(self)@, label@, collapse_for_panel_step(flags_of(old(self)@, label@)))
            } else {
                old(self)@
            },
            fits_preferred ==> r == Some((PanelTier::Preferred, false)),
            fits_minimum && !(!flags_of(old(self)@, label@).collapsed && fits_preferred_collapsed)
                ==> r matches Some((_, false)),
            r matches Some((PanelTier::Preferred, true)) ==> !flags_of(old(self)@, label@).collapsed
                && !fits_preferred && fits_preferred_collapsed,
            r matches Some((PanelTier::Minimum, true)) ==> !flags_of(old(self)@, label@).collapsed
                && !fits_minimum && fits_minimum_collapsed,
            r matches Some((PanelTier::Minimum, _)) ==> !fits_preferred && !(!flags_of(
                old(self)@,
                label@,
            ).collapsed && fits_preferred_collapsed),
            r matches Some((_, false)) ==> flags_of(final(self)@, label@).collapsed == flags_of(
                old(self)@,
                label@,
            ).collapsed,
            r matches Some((_, true)) ==> flags_of(final(self)@, label@).collapsed,
    {
        let collapsed = self.is_collapsed(label);
        let r = if fits_preferred {
            Some((PanelTier::Preferred, false))
        } else if !collapsed && fits_preferred_collapsed {
            Some((PanelTier::Preferred, true))
        } else if fits_minimum {
            Some((PanelTier::Minimum, false))
        } else if !collapsed && fits_minimum_collapsed {
            Some((PanelTier::Minimum, true))
        } else {
            None
        };
        if let Some((_, true)) = r {
            self.collapse_for_panel(label);
        }
        r
    }
}

} // verus!
