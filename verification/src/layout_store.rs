//! What is saved of each window's layout between launches, and how the next
//! launch reads it back.

use vstd::prelude::*;
use crate::label_map::LabelMap;
use crate::state::{flags_of, SidebarState, SidebarView};
use crate::theme::{normalize_theme, normalized_theme};

verus! {

/// One window's saved layout.
#[derive(Debug)]
pub struct SavedLayout {
    pub locked: bool,
    /// Panels sit to the right of the sidebar. False = between game and sidebar.
    pub wiki_outside: bool,
    /// True once placement was written by this build; an older file's
    /// `wiki_outside: false` is a leftover default, not a choice.
    pub placement_chosen: bool,
    /// System tray icon. Process-wide; stored on each window entry.
    pub tray: bool,
    /// Ask Granblue for its desktop client. Process-wide.
    pub desktop_client: bool,
    /// Mobile size: false = Default, true = Half. Process-wide.
    pub mobile_half: bool,
    /// Chrome theme. Process-wide. Missing or unknown = midnight.
    pub theme: String,
    /// Sidebar footer diagnostics. Process-wide.
    pub sidebar_debug: bool,
}

pub struct SavedLayoutView {
    pub locked: bool,
    pub wiki_outside: bool,
    pub placement_chosen: bool,
    pub tray: bool,
    pub desktop_client: bool,
    pub mobile_half: bool,
    pub theme: Seq<char>,
    pub sidebar_debug: bool,
}

impl View for SavedLayout {
    type V = SavedLayoutView;

    open spec fn view(&self) -> SavedLayoutView {
        SavedLayoutView {
            locked: self.locked,
            wiki_outside: self.wiki_outside,
            placement_chosen: self.placement_chosen,
            tray: self.tray,
            desktop_client: self.desktop_client,
            mobile_half: self.mobile_half,
            theme: self.theme@,
            sidebar_debug: self.sidebar_debug,
        }
    }
}

/// A file that does not say where panels go gets them right of the sidebar.
pub fn default_wiki_outside() -> (r: bool)
    ensures
        r,
{
    true
}

/// Saved layouts, one per window label.
pub type LayoutStates = LabelMap<SavedLayout>;

pub open spec fn states_view(states: LayoutStates) -> Map<Seq<char>, SavedLayoutView> {
    states.as_map().map_values(|s: SavedLayout| s@)
}

pub open spec fn first_view(states: LayoutStates) -> Option<SavedLayoutView> {
    match states.first_value() {
        Some(s) => Some(s@),
        None => None,
    }
}

/// The entry for `label`, else the first entry, else none.
pub open spec fn preferred_entry(
    m: Map<Seq<char>, SavedLayoutView>,
    first: Option<SavedLayoutView>,
    label: Seq<char>,
) -> Option<SavedLayoutView> {
    if m.contains_key(label) {
        Some(m[label])
    } else {
        first
    }
}

/// What is saved for `label` from the current state.
pub open spec fn saved_from(v: SidebarView, label: Seq<char>) -> SavedLayoutView {
    let f = flags_of(v, label);
    SavedLayoutView {
        locked: f.locked,
        wiki_outside: !f.wiki_inside,
        placement_chosen: true,
        tray: v.tray,
        desktop_client: v.desktop_client,
        mobile_half: v.mobile_half,
        theme: normalized_theme(v.theme),
        sidebar_debug: v.sidebar_debug,
    }
}

/// `m` with an entry from the current state for each label.
pub open spec fn persisted(
    m: Map<Seq<char>, SavedLayoutView>,
    labels: Seq<Seq<char>>,
    v: SidebarView,
) -> Map<Seq<char>, SavedLayoutView>
    decreases labels.len(),
{
    if labels.len() == 0 {
        m
    } else {
        persisted(m, labels.drop_last(), v).insert(labels.last(), saved_from(v, labels.last()))
    }
}

pub open spec fn labels_view(labels: Seq<String>) -> Seq<Seq<char>> {
    labels.map_values(|l: String| l@)
}

fn saved_layout_for(state: &SidebarState, label: &str) -> (r: SavedLayout)
    ensures
        r@ == saved_from(state@, label@),
{
    SavedLayout {
        locked: state.is_locked(label),
        wiki_outside: state.is_wiki_outside(label),
        placement_chosen: true,
        tray: state.is_tray_enabled(),
        desktop_client: state.is_desktop_client(),
        mobile_half: state.is_mobile_half(),
        theme: state.theme(),
        sidebar_debug: state.is_sidebar_debug(),
    }
}

/// Write each open window's layout over the saved ones, so the next launch
/// matches. Entries for windows not open now are kept.
pub fn persist_layout_entries(states: &mut LayoutStates, labels: &Vec<String>, state: &SidebarState)
    ensures
        states_view(*final(states)) == persisted(states_view(*old(states)), labels_view(labels@), state@),
{
    let n = labels.len();
    let mut i: usize = 0;
    while i < n
        invariant
            n == labels@.len(),
            i <= n,
            states_view(*states) == persisted(
                states_view(*old(states)),
                labels_view(labels@).take(i as int),
                state@,
            ),
        decreases n - i,
    {
        let label = labels[i].as_str();
        let saved = saved_layout_for(state, label);
        let ghost before = states_view(*states);
        states.insert(label, saved);
        proof {
            let lv = labels_view(labels@);
            assert(lv.take(i + 1).drop_last() =~= lv.take(i as int));
            assert(lv.take(i + 1).last() == label@);
            assert(states_view(*states) =~= before.insert(label@, saved_from(state@, label@)));
        }
        i = i + 1;
    }
    assert(labels_view(labels@).take(n as int) =~= labels_view(labels@));
}

fn preferred<'a>(states: &'a LayoutStates, label: &str) -> (r: Option<&'a SavedLayout>)
    ensures
        (match r {
            Some(s) => Some(s@),
            None => None::<SavedLayoutView>,
        }) == preferred_entry(states_view(*states), first_view(*states), label@),
{
    match states.get(label) {
        Some(s) => Some(s),
        None => states.first(),
    }
}

/// Locked mode, per window. Default off.
pub fn restore_layout_locked(states: &LayoutStates, label: &str) -> (r: bool)
    ensures
        r == (states_view(*states).contains_key(label@) && states_view(*states)[label@].locked),
{
    match states.get(label) {
        Some(s) => s.locked,
        None => false,
    }
}

/// Panel placement, per window, falling back to the first saved window. An
/// entry written before placement was chosen reads as the default (outside).
pub fn restore_layout_wiki_outside(states: &LayoutStates, label: &str) -> (r: bool)
    ensures
        r == (match preferred_entry(states_view(*states), first_view(*states), label@) {
            Some(s) => !s.placement_chosen || s.wiki_outside,
            None => true,
        }),
{
    match preferred(states, label) {
        Some(s) => {
            if s.placement_chosen {
                s.wiki_outside
            } else {
                true
            }
        },
        None => true,
    }
}

/// Mobile size. Process-wide: the main window's entry, else any. Default
/// Large.
pub fn restore_layout_mobile_half(states: &LayoutStates) -> (r: bool)
    ensures
        r == (match preferred_entry(states_view(*states), first_view(*states), "pake"@) {
            Some(s) => s.mobile_half,
            None => false,
        }),
{
    match preferred(states, "pake") {
        Some(s) => s.mobile_half,
        None => false,
    }
}

/// Which Granblue client to request. Default false = mobile.
pub fn restore_layout_desktop_client(states: &LayoutStates) -> (r: bool)
    ensures
        r == (match preferred_entry(states_view(*states), first_view(*states), "pake"@) {
            Some(s) => s.desktop_client,
            None => false,
        }),
{
    match preferred(states, "pake") {
        Some(s) => s.desktop_client,
        None => false,
    }
}

/// The tray flag. Default off.
pub fn restore_layout_tray(states: &LayoutStates) -> (r: bool)
    ensures
        r == (match preferred_entry(states_view(*states), first_view(*states), "pake"@) {
            Some(s) => s.tray,
            None => false,
        }),
{
    match preferred(states, "pake") {
        Some(s) => s.tray,
        None => false,
    }
}

/// The chrome theme, normalised. Default midnight.
pub fn restore_layout_theme(states: &LayoutStates) -> (r: String)
    ensures
        r@ == normalized_theme(
            match preferred_entry(states_view(*states), first_view(*states), "pake"@) {
                Some(s) => s.theme,
                None => Seq::<char>::empty(),
            },
        ),
{
    match preferred(states, "pake") {
        Some(s) => normalize_theme(s.theme.as_str()),
        None => {
            proof {
                reveal_strlit("");
                assert(""@ =~= Seq::<char>::empty());
            }
            normalize_theme("")
        },
    }
}

/// The sidebar footer diagnostics. Default off.
pub fn restore_layout_sidebar_debug(states: &LayoutStates) -> (r: bool)
    ensures
        r == (match preferred_entry(states_view(*states), first_view(*states), "pake"@) {
            Some(s) => s.sidebar_debug,
            None => false,
        }),
{
    match preferred(states, "pake") {
        Some(s) => s.sidebar_debug,
        None => false,
    }
}

} // verus!
