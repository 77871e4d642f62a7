//! The system tray and the activation shortcut: which menu items exist, what
//! each does, and which clicks and key presses count.

use vstd::prelude::*;
use crate::startup::StartupReveal;
use crate::text::str_eq;

verus! {

#[verifier::external_type_specification]
#[verifier::external_body]
#[verifier::reject_recursive_types(T)]
pub struct ExMutex<T: ?Sized>(std::sync::Mutex<T>);

/// Values needed to rebuild the tray after startup.
pub struct TrayRuntime {
    pub icon_path: String,
    pub init_fullscreen: bool,
    pub multi_window: bool,
    pub startup_revealed: std::sync::Arc<std::sync::Mutex<StartupReveal>>,
}

/// The tray menu's items.
#[derive(Clone, Copy, Debug, PartialEq, Eq)]
pub enum TrayMenuItem {
    NewWindow,
    Hide,
    Show,
    Quit,
}

pub open spec fn tray_menu_spec(allow_multi_window: bool) -> Seq<TrayMenuItem> {
    if allow_multi_window {
        seq![TrayMenuItem::NewWindow, TrayMenuItem::Hide, TrayMenuItem::Show, TrayMenuItem::Quit]
    } else {
        seq![TrayMenuItem::Hide, TrayMenuItem::Show, TrayMenuItem::Quit]
    }
}

/// The menu, top to bottom. New Window is only offered when extra windows
/// are allowed.
pub fn tray_menu_items(allow_multi_window: bool) -> (r: Vec<TrayMenuItem>)
    ensures
        r@ == tray_menu_spec(allow_multi_window),
{
    let mut items = Vec::new();
    if allow_multi_window {
        items.push(TrayMenuItem::NewWindow);
    }
    items.push(TrayMenuItem::Hide);
    items.push(TrayMenuItem::Show);
    items.push(TrayMenuItem::Quit);
    assert(items@ =~= tray_menu_spec(allow_multi_window));
    items
}

pub open spec fn item_id_spec(item: TrayMenuItem) -> Seq<char> {
    match item {
        TrayMenuItem::NewWindow => "tray_new_window"@,
        TrayMenuItem::Hide => "hide_app"@,
        TrayMenuItem::Show => "show_app"@,
        TrayMenuItem::Quit => "quit"@,
    }
}

/// The menu event id of an item. The tray's New Window must not share the
/// app menu's "new_window" id, or one click would open two windows.
pub fn tray_item_id(item: TrayMenuItem) -> (r: &'static str)
    ensures
        r@ == item_id_spec(item),
{
    match item {
        TrayMenuItem::NewWindow => "tray_new_window",
        TrayMenuItem::Hide => "hide_app",
        TrayMenuItem::Show => "show_app",
        TrayMenuItem::Quit => "quit",
    }
}

pub open spec fn item_title_spec(item: TrayMenuItem) -> Seq<char> {
    match item {
        TrayMenuItem::NewWindow => "New Window"@,
        TrayMenuItem::Hide => "Hide"@,
        TrayMenuItem::Show => "Show"@,
        TrayMenuItem::Quit => "Quit"@,
    }
}

pub fn tray_item_title(item: TrayMenuItem) -> (r: &'static str)
    ensures
        r@ == item_title_spec(item),
{
    match item {
        TrayMenuItem::NewWindow => "New Window",
        TrayMenuItem::Hide => "Hide",
        TrayMenuItem::Show => "Show",
        TrayMenuItem::Quit => "Quit",
    }
}

/// The item a menu event id stands for; other ids are ignored.
pub fn tray_menu_action(id: &str) -> (r: Option<TrayMenuItem>)
    ensures
        r matches Some(item) ==> item_id_spec(item) == id@,
        r is None ==> (forall|item: TrayMenuItem| #[trigger] item_id_spec(item) != id@),
{
    if str_eq(id, "tray_new_window") {
        Some(TrayMenuItem::NewWindow)
    } else if str_eq(id, "hide_app") {
        Some(TrayMenuItem::Hide)
    } else if str_eq(id, "show_app") {
        Some(TrayMenuItem::Show)
    } else if str_eq(id, "quit") {
        Some(TrayMenuItem::Quit)
    } else {
        assert forall|item: TrayMenuItem| #[trigger] item_id_spec(item) != id@ by {
            match item {
                TrayMenuItem::NewWindow => {},
                TrayMenuItem::Hide => {},
                TrayMenuItem::Show => {},
                TrayMenuItem::Quit => {},
            }
        }
        None
    }
}

/// Hide and Show take visibility control from the startup reveal.
pub open spec fn cancels_reveal_spec(item: TrayMenuItem) -> bool {
    item == TrayMenuItem::Hide || item == TrayMenuItem::Show
}

pub fn tray_item_cancels_reveal(item: TrayMenuItem) -> (r: bool)
    ensures
        r == cancels_reveal_spec(item),
{
    match item {
        TrayMenuItem::Hide | TrayMenuItem::Show => true,
        _ => false,
    }
}

/// Windows reports a click twice (button down, then up); only the left
/// button's release toggles the windows.
pub fn tray_click_toggles(left_button: bool, released: bool) -> (r: bool)
    ensures
        r == (left_button && released),
{
    left_button && released
}

/// Presses closer together than this are one press.
pub open spec fn shortcut_debounce_nanos() -> u128 {
    300_000_000
}

/// What a press of the activation shortcut does.
#[derive(Clone, Copy, Debug, PartialEq, Eq)]
pub enum ShortcutPress {
    /// Too soon after the last counted press: ignored, and not counted.
    Ignored,
    /// Counted (the press time is recorded); `toggle` says whether it is our
    /// shortcut, which toggles the windows and cancels the startup reveal.
    Counted { toggle: bool },
}

pub fn shortcut_press(since_last_nanos: u128, is_our_shortcut: bool) -> (r: ShortcutPress)
    ensures
        since_last_nanos < shortcut_debounce_nanos() ==> r == ShortcutPress::Ignored,
        since_last_nanos >= shortcut_debounce_nanos() ==> r == (ShortcutPress::Counted {
            toggle: is_our_shortcut,
        }),
{
    if since_last_nanos < 300_000_000 {
        ShortcutPress::Ignored
    } else {
        ShortcutPress::Counted { toggle: is_our_shortcut }
    }
}

} // verus!
