//! JSON string literals, through serde_json.

use vstd::prelude::*;

verus! {

/// Lower-case hexadecimal digit for 0..=15.
pub open spec fn hex_digit(n: int) -> char {
    if n < 10 {
        (48 + n) as char
    } else {
        (87 + n) as char
    }
}

/// How serde_json writes one character inside a string literal: '"' and
/// '\\' get a backslash; backspace, tab, line feed, form feed and carriage
/// return their short escapes; other control characters below U+0020 become
/// `\u00xx` in lower-case hex; everything else is written as it is.
pub open spec fn json_escape_char(c: char) -> Seq<char> {
    let u = c as u32;
    if c == '"' {
        seq!['\\', '"']
    } else if c == '\\' {
        seq!['\\', '\\']
    } else if u == 0x08 {
        seq!['\\', 'b']
    } else if u == 0x09 {
        seq!['\\', 't']
    } else if u == 0x0A {
        seq!['\\', 'n']
    } else if u == 0x0C {
        seq!['\\', 'f']
    } else if u == 0x0D {
        seq!['\\', 'r']
    } else if u < 0x20 {
        seq!['\\', 'u', '0', '0', hex_digit(u as int / 16), hex_digit(u as int % 16)]
    } else {
        seq![c]
    }
}

/// The characters of `s`, each escaped.
pub open spec fn json_escape(s: Seq<char>) -> Seq<char>
    decreases s.len(),
{
    if s.len() == 0 {
        Seq::empty()
    } else {
        json_escape(s.drop_last()) + json_escape_char(s.last())
    }
}

/// The JSON text serde_json writes for a string: the escaped characters
/// between double quotes.
pub open spec fn json_string(s: Seq<char>) -> Seq<char> {
    seq!['"'] + json_escape(s) + seq!['"']
}

/// No character of `s` needs a JSON escape.
pub open spec fn json_plain(s: Seq<char>) -> bool {
    forall|i: int| 0 <= i < s.len() ==> (#[trigger] s[i] as u32) >= 0x20 && s[i] != '"' && s[i] != '\\'
}

/// A string with nothing to escape is written as itself.
pub proof fn lemma_json_plain_unescaped(s: Seq<char>)
    requires
        json_plain(s),
    ensures
        json_escape(s) == s,
    decreases s.len(),
{
    if s.len() > 0 {
        let t = s.drop_last();
        assert forall|i: int| 0 <= i < t.len() implies (#[trigger] t[i] as u32) >= 0x20 && t[i]
            != '"' && t[i] != '\\' by {
            assert(t[i] == s[i]);
        }
        lemma_json_plain_unescaped(t);
        let c = s[s.len() - 1];
        assert(json_escape_char(c) == seq![c]);
        assert(t.push(c) =~= s);
        assert(t + seq![c] =~= s);
    }
}

#[verifier::external_type_specification]
#[verifier::external_body]
pub struct ExJsonError(serde_json::Error);

/// `serde_json::to_string` on a string slice. Serialising a `str` into the
/// in-memory buffer cannot fail, so the result is `Ok`, holding the escaped
/// text between double quotes.
#[verifier::external_body]
pub(crate) fn json_to_string(s: &str) -> (r: Result<String, serde_json::Error>)
    ensures
        r is Ok,
        r matches Ok(t) ==> t@ == json_string(s@),
{
    serde_json::to_string(s)
}

/// `text` as a JSON string literal, or `fallback` should serialisation fail.
pub fn json_literal_or(text: &str, fallback: &str) -> (r: String)
    ensures
        r@ == json_string(text@),
        json_plain(text@) ==> r@ == seq!['"'] + text@ + seq!['"'],
{
    proof {
        if json_plain(text@) {
            lemma_json_plain_unescaped(text@);
        }
    }
    match json_to_string(text) {
        Ok(t) => t,
        Err(_) => String::from_str(fallback),
    }
}

} // verus!
