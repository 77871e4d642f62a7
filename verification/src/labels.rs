//! Webview labels. Every child webview of a window is `<window>--gbf-<what>`;
//! the game webview is the one whose label is the window's own label.

use vstd::prelude::*;
use crate::text::{concat_str, contains_seq, str_contains};

verus! {

/// The text that marks one of our own child webviews.
pub open spec fn child_marker() -> Seq<char> {
    "--gbf-"@
}

/// One sidebar per window, so `--multi-window` keeps working: each window gets
/// its own game webview and its own sidebar beside it.
pub fn sidebar_label(window_label: &str) -> (r: String)
    ensures
        r@ == window_label@ + "--gbf-sidebar"@,
{
    concat_str(window_label, "--gbf-sidebar")
}

/// The wiki gets its own webview too, one per window.
pub fn wiki_label(window_label: &str) -> (r: String)
    ensures
        r@ == window_label@ + "--gbf-wiki"@,
{
    concat_str(window_label, "--gbf-wiki")
}

/// About and Options share one webview per window.
pub fn panel_label(window_label: &str) -> (r: String)
    ensures
        r@ == window_label@ + "--gbf-panel"@,
{
    concat_str(window_label, "--gbf-panel")
}

/// True for the GAME webview, false for the sidebar, wiki and panel: the
/// label holds no `--gbf-`.
pub fn is_game_label(label: &str) -> (r: bool)
    ensures
        r == !contains_seq(label@, child_marker()),
{
    !str_contains(label, "--gbf-")
}

} // verus!
