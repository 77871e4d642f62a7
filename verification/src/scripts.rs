//! The JavaScript snippets pushed into the game and sidebar webviews, and the
//! notices shown to the player.

use vstd::prelude::*;
use crate::json::{json_literal_or, json_string};

verus! {

pub open spec fn bool_text(b: bool) -> Seq<char> {
    if b {
        "true"@
    } else {
        "false"@
    }
}

pub fn bool_str(b: bool) -> (r: &'static str)
    ensures
        r@ == bool_text(b),
{
    if b {
        "true"
    } else {
        "false"
    }
}

/// Id of the one style element locked mode adds to Granblue's document.
pub open spec fn lock_style_id() -> Seq<char> {
    "gbf-native-locked"@
}

/// Granblue's own chat column, hidden while locked.
pub open spec fn lock_selector() -> Seq<char> {
    "#submenu,#general-chat{display:none !important;}"@
}

pub open spec fn lock_js_spec(on: bool) -> Seq<char> {
    "(function(){var id=\""@ + lock_style_id()
        + "\";var el=document.getElementById(id);         if("@ + bool_text(on)
        + "){if(!el){el=document.createElement('style');el.id=id;         el.textContent=\""@
        + lock_selector()
        + "\";(document.head||document.documentElement).appendChild(el);}}         else if(el&&el.parentNode){el.parentNode.removeChild(el);}})()"@
}

/// Locked mode: add (on) or remove (off) our one style element, which hides
/// Granblue's chat column. Nothing else in the page is touched.
pub fn lock_js(on: bool) -> (r: String)
    ensures
        r@ == lock_js_spec(on),
{
    let mut out = String::from_str("(function(){var id=\"");
    out.append("gbf-native-locked");
    out.append("\";var el=document.getElementById(id);         if(");
    out.append(bool_str(on));
    out.append(
        "){if(!el){el=document.createElement('style');el.id=id;         el.textContent=\"",
    );
    out.append("#submenu,#general-chat{display:none !important;}");
    out.append(
        "\";(document.head||document.documentElement).appendChild(el);}}         else if(el&&el.parentNode){el.parentNode.removeChild(el);}})()",
    );
    out
}

pub open spec fn hug_js_spec(on: bool) -> Seq<char> {
    "window.__gbfSetHug && window.__gbfSetHug("@ + bool_text(on) + ")"@
}

/// Turn the game page's edge-report burst on or off.
pub fn hug_js(on: bool) -> (r: String)
    ensures
        r@ == hug_js_spec(on),
{
    let mut out = String::from_str("window.__gbfSetHug && window.__gbfSetHug(");
    out.append(bool_str(on));
    out.append(")");
    out
}

pub open spec fn no_room_notice_spec(mobile: bool) -> Seq<char> {
    if mobile {
        "Not enough room. Widen the window."@
    } else {
        "Not enough room. In Granblue's Browser Settings, pick a smaller Window Size."@
    }
}

/// Why a panel refused to open: on the mobile client the window is too
/// narrow; on the desktop client Granblue's own Window Size is too large.
pub fn panel_no_room_notice(mobile: bool) -> (r: String)
    ensures
        r@ == no_room_notice_spec(mobile),
{
    if mobile {
        String::from_str("Not enough room. Widen the window.")
    } else {
        String::from_str(
            "Not enough room. In Granblue's Browser Settings, pick a smaller Window Size.",
        )
    }
}

/// Shown when a panel is asked for while the desktop client is on Automatic
/// Resizing.
pub open spec fn panel_needs_fixed_size_spec() -> Seq<char> {
    "NOTICE Wiki, Options and About are unavailable while the desktop client is on Automatic Resizing."@
}

pub fn panel_needs_fixed_size() -> (r: String)
    ensures
        r@ == panel_needs_fixed_size_spec(),
{
    String::from_str(
        "NOTICE Wiki, Options and About are unavailable while the desktop client is on Automatic Resizing.",
    )
}

/// Route a nav click: assign the game's `location.hash`, which is what
/// Granblue's own menu does, and does not reload the page.
pub fn game_nav_script(hash: &str) -> (r: String)
    ensures
        r@ == "location.hash = "@ + json_string(hash@),
{
    let encoded = json_literal_or(hash, "\"\"");
    let mut out = String::from_str("location.hash = ");
    out.append(encoded.as_str());
    out
}

/// Tell the sidebar which game hash is current, so its nav row lights up.
pub fn sidebar_game_hash_script(hash: &str) -> (r: String)
    ensures
        r@ == "window.__gbfSidebar && window.__gbfSidebar.setGameHash("@ + json_string(hash@)
            + ")"@,
{
    let encoded = json_literal_or(hash, "\"\"");
    let mut out = String::from_str("window.__gbfSidebar && window.__gbfSidebar.setGameHash(");
    out.append(encoded.as_str());
    out.append(")");
    out
}

} // verus!
