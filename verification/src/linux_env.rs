//! Decisions taken from environment values before the first window exists:
//! whether to force the Wayland GDK backend, and whether to keep WebKitGTK's
//! safe rendering mode on.

use vstd::prelude::*;
use crate::text::{
    eq_ignore_ascii_case, lower, str_eq, str_eq_ignore_ascii_case, to_ascii_lowercase, trim, trim_str,
};

verus! {

/// The words that turn a switch off, once trimmed and lower-cased.
pub open spec fn is_disabled_word(w: Seq<char>) -> bool {
    ||| w == "0"@
    ||| w == "false"@
    ||| w == "off"@
    ||| w == "no"@
    ||| w == "native"@
    ||| w == "disabled"@
}

pub open spec fn disabled_env_value(v: Seq<char>) -> bool {
    is_disabled_word(lower(trim(v)))
}

/// Present and not blank.
pub open spec fn non_empty_env_value(v: Option<Seq<char>>) -> bool {
    match v {
        Some(s) => trim(s).len() > 0,
        None => false,
    }
}

pub open spec fn opt_view(v: Option<&str>) -> Option<Seq<char>> {
    match v {
        Some(s) => Some(s@),
        None => None,
    }
}

/// True when `value` asks to turn a switch off: "0", "false", "off", "no",
/// "native" or "disabled", ignoring surrounding white space and ASCII case.
pub fn is_disabled_env_value(value: &str) -> (r: bool)
    ensures
        r == disabled_env_value(value@),
{
    let t = trim_str(value);
    let l = to_ascii_lowercase(t);
    let w = l.as_str();
    str_eq(w, "0") || str_eq(w, "false") || str_eq(w, "off") || str_eq(w, "no") || str_eq(
        w,
        "native",
    ) || str_eq(w, "disabled")
}

/// True when the variable is set to something other than white space.
pub fn is_non_empty_env_value(value: Option<&str>) -> (r: bool)
    ensures
        r == non_empty_env_value(opt_view(value)),
{
    match value {
        Some(v) => trim_str(v).unicode_len() > 0,
        None => false,
    }
}

/// The characters a desktop list is split at.
pub open spec fn is_desktop_separator(c: char) -> bool {
    c == ':' || c == ';' || c == ',' || c == ' '
}

/// `s[i..j]` is one of the pieces `s` splits into at the separators.
pub open spec fn is_piece(s: Seq<char>, i: int, j: int) -> bool {
    &&& 0 <= i <= j <= s.len()
    &&& i == 0 || is_desktop_separator(s[i - 1])
    &&& j == s.len() || is_desktop_separator(s[j])
    &&& forall|k: int| i <= k < j ==> !is_desktop_separator(#[trigger] s[k])
}

/// One piece of the list is "niri", in any ASCII case.
pub open spec fn names_niri(s: Seq<char>) -> bool {
    exists|i: int, j: int| #[trigger] is_piece(s, i, j) && eq_ignore_ascii_case(s.subrange(i, j), "niri"@)
}

fn is_desktop_separator_char(c: char) -> (r: bool)
    ensures
        r == is_desktop_separator(c),
{
    c == ':' || c == ';' || c == ',' || c == ' '
}

/// Does a desktop list such as `XDG_CURRENT_DESKTOP` name niri? The list is
/// split at ':', ';', ',' and ' '.
pub fn contains_niri(value: &str) -> (r: bool)
    ensures
        r == names_niri(value@),
{
    let n = value.unicode_len();
    let ghost s = value@;
    let mut start: usize = 0;
    let mut k: usize = 0;
    while k < n
        invariant
            n == s.len(),
            s == value@,
            start <= k <= n,
            start == 0 || is_desktop_separator(s[start - 1]),
            forall|m: int| start <= m < k ==> !is_desktop_separator(#[trigger] s[m]),
            forall|i: int, j: int|
                #[trigger] is_piece(s, i, j) && j < k ==> !eq_ignore_ascii_case(
                    s.subrange(i, j),
                    "niri"@,
                ),
        decreases n - k,
    {
        let c = value.get_char(k);
        if is_desktop_separator_char(c) {
            assert(is_piece(s, start as int, k as int));
            let piece = value.substring_char(start, k);
            if str_eq_ignore_ascii_case(piece, "niri") {
                return true;
            }
            assert forall|i: int, j: int|
                #[trigger] is_piece(s, i, j) && j < k + 1 implies !eq_ignore_ascii_case(
                s.subrange(i, j),
                "niri"@,
            ) by {
                if j == k {
                    if i < start {
                        assert(!is_desktop_separator(s[start - 1]));
                    } else if i > start {
                        assert(!is_desktop_separator(s[i - 1]));
                    }
                }
            }
            start = k + 1;
        } else {
            assert forall|i: int, j: int|
                #[trigger] is_piece(s, i, j) && j < k + 1 implies !eq_ignore_ascii_case(
                s.subrange(i, j),
                "niri"@,
            ) by {
                if j == k {
                    assert(is_desktop_separator(s[j]));
                }
            }
        }
        k = k + 1;
    }
    assert(is_piece(s, start as int, n as int));
    let last = value.substring_char(start, n);
    if str_eq_ignore_ascii_case(last, "niri") {
        return true;
    }
    assert forall|i: int, j: int| #[trigger]
        is_piece(s, i, j) implies !eq_ignore_ascii_case(s.subrange(i, j), "niri"@) by {
        if j == n {
            if i < start {
                assert(!is_desktop_separator(s[start - 1]));
            } else if i > start {
                assert(!is_desktop_separator(s[i - 1]));
            }
        }
    }
    false
}


/// Some desktop value in the list names niri.
pub open spec fn any_names_niri(desktops: Seq<Option<&str>>) -> bool {
    exists|i: int|
        0 <= i < desktops.len() && (#[trigger] desktops[i] matches Some(d) && names_niri(d@))
}

/// Whether WebKitGTK's safe rendering mode stays on. A non-blank explicit
/// setting decides by itself; otherwise safe mode is on unless this is a
/// niri session (a niri socket, or niri named in a desktop variable).
pub open spec fn safe_mode_wanted(
    safe_mode: Option<Seq<char>>,
    niri_socket: Option<Seq<char>>,
    desktops: Seq<Option<&str>>,
) -> bool {
    if non_empty_env_value(safe_mode) {
        !disabled_env_value(safe_mode->0)
    } else {
        !(non_empty_env_value(niri_socket) || any_names_niri(desktops))
    }
}

pub fn should_enable_linux_webkit_safe_mode_from_values(
    safe_mode: Option<&str>,
    niri_socket: Option<&str>,
    desktop_values: &[Option<&str>],
) -> (r: bool)
    ensures
        r == safe_mode_wanted(opt_view(safe_mode), opt_view(niri_socket), desktop_values@),
{
    if is_non_empty_env_value(safe_mode) {
        return !is_disabled_env_value(safe_mode.unwrap());
    }
    if is_non_empty_env_value(niri_socket) {
        return false;
    }
    let n = desktop_values.len();
    let mut i: usize = 0;
    while i < n
        invariant
            n == desktop_values@.len(),
            i <= n,
            !non_empty_env_value(opt_view(safe_mode)),
            !non_empty_env_value(opt_view(niri_socket)),
            forall|k: int|
                0 <= k < i ==> !(#[trigger] desktop_values@[k] matches Some(d) && names_niri(d@)),
        decreases n - i,
    {
        match desktop_values[i] {
            Some(d) => {
                if contains_niri(d) {
                    assert(desktop_values@[i as int] == Some(d));
                    assert(any_names_niri(desktop_values@));
                    return false;
                }
            },
            None => {},
        }
        i = i + 1;
    }
    true
}

/// Force GDK onto Wayland only on a pure Wayland session (a Wayland display
/// and no X11 display), and never over an explicit `GDK_BACKEND`.
pub open spec fn force_wayland_wanted(
    gdk_backend: Option<Seq<char>>,
    wayland_display: Option<Seq<char>>,
    display: Option<Seq<char>>,
) -> bool {
    !non_empty_env_value(gdk_backend) && non_empty_env_value(wayland_display)
        && !non_empty_env_value(display)
}

pub fn should_force_wayland_gdk_backend(
    gdk_backend: Option<&str>,
    wayland_display: Option<&str>,
    display: Option<&str>,
) -> (r: bool)
    ensures
        r == force_wayland_wanted(opt_view(gdk_backend), opt_view(wayland_display), opt_view(display)),
{
    if is_non_empty_env_value(gdk_backend) {
        return false;
    }
    is_non_empty_env_value(wayland_display) && !is_non_empty_env_value(display)
}

/// What to do with WebKitGTK's two rendering variables at startup.
#[derive(Debug, Clone, Copy, PartialEq, Eq)]
pub enum WebkitEnvPlan {
    /// Safe mode was switched off explicitly: remove both variables.
    RemoveBoth,
    /// Leave the environment as it is.
    Leave,
    /// Set the variables to "1"; each flag says whether that one is set
    /// (it is left alone when the user already set it).
    SetUnset { dmabuf: bool, compositing: bool },
}

/// The environment changes startup makes for WebKitGTK. `dmabuf_present` and
/// `compositing_present` say whether `WEBKIT_DISABLE_DMABUF_RENDERER` and
/// `WEBKIT_DISABLE_COMPOSITING_MODE` are already set.
pub fn linux_webkit_env_plan(
    safe_mode: Option<&str>,
    niri_socket: Option<&str>,
    desktop_values: &[Option<&str>],
    dmabuf_present: bool,
    compositing_present: bool,
) -> (r: WebkitEnvPlan)
    ensures
        (safe_mode matches Some(v) && disabled_env_value(v@)) ==> r == WebkitEnvPlan::RemoveBoth,
        !(safe_mode matches Some(v) && disabled_env_value(v@)) ==> r == (if safe_mode_wanted(
            opt_view(safe_mode),
            opt_view(niri_socket),
            desktop_values@,
        ) {
            WebkitEnvPlan::SetUnset { dmabuf: !dmabuf_present, compositing: !compositing_present }
        } else {
            WebkitEnvPlan::Leave
        }),
{
    match safe_mode {
        Some(v) => {
            if is_disabled_env_value(v) {
                return WebkitEnvPlan::RemoveBoth;
            }
        },
        None => {},
    }
    if !should_enable_linux_webkit_safe_mode_from_values(safe_mode, niri_socket, desktop_values) {
        return WebkitEnvPlan::Leave;
    }
    WebkitEnvPlan::SetUnset { dmabuf: !dmabuf_present, compositing: !compositing_present }
}

} // verus!
