//! Chrome themes for the sidebar, Options and About.

use vstd::prelude::*;
use crate::json::{json_literal_or, json_plain, json_string};
use crate::text::{lower, str_eq, to_ascii_lowercase, trim, trim_str};

verus! {

/// "ember" and "tide" are themes of their own; anything else is "midnight".
pub open spec fn normalized_theme(theme: Seq<char>) -> Seq<char> {
    let w = lower(trim(theme));
    if w == "ember"@ {
        "ember"@
    } else if w == "tide"@ {
        "tide"@
    } else {
        "midnight"@
    }
}

pub fn normalize_theme(theme: &str) -> (r: String)
    ensures
        r@ == normalized_theme(theme@),
{
    let l = to_ascii_lowercase(trim_str(theme));
    if str_eq(l.as_str(), "ember") {
        String::from_str("ember")
    } else if str_eq(l.as_str(), "tide") {
        String::from_str("tide")
    } else {
        String::from_str("midnight")
    }
}

/// The colour (red, green, blue, alpha) a window and its webviews show before
/// they have content, per theme.
pub open spec fn theme_blank_spec(theme: Seq<char>) -> (u8, u8, u8, u8) {
    let t = normalized_theme(theme);
    if t == "ember"@ {
        (18, 12, 8, 255)
    } else if t == "tide"@ {
        (8, 14, 16, 255)
    } else {
        (11, 11, 15, 255)
    }
}

pub fn theme_blank(theme: &str) -> (r: (u8, u8, u8, u8))
    ensures
        r == theme_blank_spec(theme@),
{
    let t = normalize_theme(theme);
    if str_eq(t.as_str(), "ember") {
        (18, 12, 8, 255)
    } else if str_eq(t.as_str(), "tide") {
        (8, 14, 16, 255)
    } else {
        (11, 11, 15, 255)
    }
}

/// The theme name as a JavaScript string literal.
pub fn theme_js(theme: &str) -> (r: String)
    ensures
        r@ == json_string(normalized_theme(theme@)),
        r@ == seq!['"'] + normalized_theme(theme@) + seq!['"'],
{
    let t = normalize_theme(theme);
    proof {
        reveal_strlit("ember");
        reveal_strlit("tide");
        reveal_strlit("midnight");
        assert(json_plain(t@));
    }
    json_literal_or(t.as_str(), "\"midnight\"")
}


proof fn lemma_plain_word_normal(w: Seq<char>)
    requires
        w == "ember"@ || w == "tide"@ || w == "midnight"@,
    ensures
        lower(trim(w)) == w,
{
    reveal_strlit("ember");
    reveal_strlit("tide");
    reveal_strlit("midnight");
    assert(crate::text::trim_start(w) == w);
    assert(crate::text::trim_end(w) == w);
    assert(lower(w) =~= w);
}

/// Normalising a theme twice gives what normalising once gave.
pub proof fn lemma_normalize_theme_idempotent(theme: Seq<char>)
    ensures
        normalized_theme(normalized_theme(theme)) == normalized_theme(theme),
        normalized_theme(theme) == "ember"@ || normalized_theme(theme) == "tide"@
            || normalized_theme(theme) == "midnight"@,
{
    let t = normalized_theme(theme);
    lemma_plain_word_normal(t);
    reveal_strlit("ember");
    reveal_strlit("tide");
    reveal_strlit("midnight");
    if t == "midnight"@ {
        assert(t != "ember"@);
        assert(t != "tide"@);
    }
}

} // verus!
