//! The state pushes into the sidebar and the shared Options/About panel, built
//! from the sidebar state.

use vstd::prelude::*;
use crate::json::{json_literal_or, json_string};
use crate::scripts::{bool_str, bool_text};
use crate::state::{flags_of, hash_of, SidebarState, SidebarView};
use crate::theme::{lemma_normalize_theme_idempotent, normalized_theme, theme_js};

verus! {

/// The current theme as a JavaScript string literal.
pub open spec fn theme_literal(v: SidebarView) -> Seq<char> {
    seq!['"'] + normalized_theme(v.theme) + seq!['"']
}

pub open spec fn theme_boot_spec(v: SidebarView) -> Seq<char> {
    "document.documentElement.setAttribute('data-theme', "@ + theme_literal(v) + ");"@
}

pub open spec fn sidebar_state_spec(v: SidebarView, label: Seq<char>) -> Seq<char> {
    let f = flags_of(v, label);
    "window.__gbfSidebar && window.__gbfSidebar.setState({collapsed:"@ + bool_text(f.collapsed)
        + ",wikiOpen:"@ + bool_text(f.wiki_open) + ",aboutOpen:"@ + bool_text(f.about_open)
        + ",optionsOpen:"@ + bool_text(f.options_open) + ",locked:"@ + bool_text(f.locked)
        + ",wikiOutside:"@ + bool_text(!f.wiki_inside) + ",mobile:"@ + bool_text(f.mobile)
        + ",mobileHalf:"@ + bool_text(v.mobile_half) + ",theme:"@ + theme_literal(v)
        + ",gameSizesItself:false,sidebarDebug:"@ + bool_text(v.sidebar_debug) + ",gameHash:"@
        + json_string(hash_of(v, label)) + "})"@
}

pub open spec fn options_state_spec(v: SidebarView, label: Seq<char>) -> Seq<char> {
    let f = flags_of(v, label);
    "document.documentElement.setAttribute('data-theme', "@ + theme_literal(v)
        + "); window.__gbfOptions && window.__gbfOptions.setState({wikiOutside:"@ + bool_text(
        !f.wiki_inside,
    ) + ",tray:"@ + bool_text(v.tray) + ",desktopClient:"@ + bool_text(v.desktop_client)
        + ",mobile:"@ + bool_text(f.mobile) + ",theme:"@ + theme_literal(v) + ",sidebarDebug:"@
        + bool_text(v.sidebar_debug) + "})"@
}

/// `s` carries `key` directly followed by `value`, as a script sets one
/// field of a state object.
pub open spec fn holds_field(s: Seq<char>, key: Seq<char>, value: Seq<char>) -> bool {
    exists|k: int|
        0 <= k && k + key.len() + value.len() <= s.len() && #[trigger] s.subrange(
            k,
            k + key.len() + value.len(),
        ) == key + value
}

/// A field written at the end of a text is carried by it.
pub proof fn lemma_field_written(p: Seq<char>, key: Seq<char>, value: Seq<char>)
    ensures
        holds_field(p + key + value, key, value),
{
    let s = p + key + value;
    let k = p.len() as int;
    assert(s.subrange(k, k + key.len() + value.len()) =~= key + value);
}

/// Text appended after a field does not take it away.
pub proof fn lemma_field_kept(s: Seq<char>, t: Seq<char>, key: Seq<char>, value: Seq<char>)
    requires
        holds_field(s, key, value),
    ensures
        holds_field(s + t, key, value),
{
    let k = choose|k: int|
        0 <= k && k + key.len() + value.len() <= s.len() && #[trigger] s.subrange(
            k,
            k + key.len() + value.len(),
        ) == key + value;
    let n = key.len() + value.len();
    assert((s + t).subrange(k, k + n) =~= s.subrange(k, k + n));
}

/// Every text that extends one carrying a field carries it too.
pub proof fn lemma_fields_kept(key: Seq<char>, value: Seq<char>)
    ensures
        forall|s: Seq<char>, t: Seq<char>|
            holds_field(s, key, value) ==> #[trigger] holds_field(s + t, key, value),
{
    assert forall|s: Seq<char>, t: Seq<char>| holds_field(s, key, value) implies #[trigger] holds_field(
        s + t,
        key,
        value,
    ) by {
        lemma_field_kept(s, t, key, value);
    }
}

/// The sidebar's state script sets each panel button and the rail from the
/// window's own flags.
pub proof fn lemma_sidebar_state_fields(v: SidebarView, label: Seq<char>)
    ensures
        ({
            let s = sidebar_state_spec(v, label);
            let f = flags_of(v, label);
            &&& holds_field(
                s,
                "window.__gbfSidebar && window.__gbfSidebar.setState({collapsed:"@,
                bool_text(f.collapsed),
            )
            &&& holds_field(s, ",wikiOpen:"@, bool_text(f.wiki_open))
            &&& holds_field(s, ",aboutOpen:"@, bool_text(f.about_open))
            &&& holds_field(s, ",optionsOpen:"@, bool_text(f.options_open))
            &&& holds_field(s, ",locked:"@, bool_text(f.locked))
            &&& holds_field(s, ",wikiOutside:"@, bool_text(!f.wiki_inside))
            &&& holds_field(s, ",mobile:"@, bool_text(f.mobile))
            &&& holds_field(s, ",mobileHalf:"@, bool_text(v.mobile_half))
            &&& holds_field(s, ",theme:"@, theme_literal(v))
            &&& holds_field(s, ",gameSizesItself:false,sidebarDebug:"@, bool_text(v.sidebar_debug))
            &&& holds_field(s, ",gameHash:"@, json_string(hash_of(v, label)))
        }),
{
    let f = flags_of(v, label);
    let open = "window.__gbfSidebar && window.__gbfSidebar.setState({collapsed:"@;
    lemma_field_written(Seq::empty(), open, bool_text(f.collapsed));
    assert(Seq::<char>::empty() + open =~= open);
    lemma_fields_kept(open, bool_text(f.collapsed));
    lemma_fields_kept(",wikiOpen:"@, bool_text(f.wiki_open));
    lemma_fields_kept(",aboutOpen:"@, bool_text(f.about_open));
    lemma_fields_kept(",optionsOpen:"@, bool_text(f.options_open));
    lemma_fields_kept(",locked:"@, bool_text(f.locked));
    lemma_fields_kept(",mobile:"@, bool_text(f.mobile));
    lemma_fields_kept(",wikiOutside:"@, bool_text(!f.wiki_inside));
    lemma_fields_kept(",mobileHalf:"@, bool_text(v.mobile_half));
    lemma_fields_kept(",theme:"@, theme_literal(v));
    lemma_fields_kept(",gameSizesItself:false,sidebarDebug:"@, bool_text(v.sidebar_debug));
    lemma_fields_kept(",gameHash:"@, json_string(hash_of(v, label)));
    let head = "window.__gbfSidebar && window.__gbfSidebar.setState({collapsed:"@ + bool_text(f.collapsed);
    lemma_field_written(head, ",wikiOpen:"@, bool_text(f.wiki_open));
    let h2 = head + ",wikiOpen:"@ + bool_text(f.wiki_open);
    lemma_field_written(h2, ",aboutOpen:"@, bool_text(f.about_open));
    let h3 = h2 + ",aboutOpen:"@ + bool_text(f.about_open);
    lemma_field_written(h3, ",optionsOpen:"@, bool_text(f.options_open));
    let h4 = h3 + ",optionsOpen:"@ + bool_text(f.options_open);
    lemma_field_written(h4, ",locked:"@, bool_text(f.locked));
    let h5 = h4 + ",locked:"@ + bool_text(f.locked);
    let h6 = h5 + ",wikiOutside:"@ + bool_text(!f.wiki_inside);
    lemma_field_written(h5, ",wikiOutside:"@, bool_text(!f.wiki_inside));
    lemma_field_written(h6, ",mobile:"@, bool_text(f.mobile));
    let h7 = h6 + ",mobile:"@ + bool_text(f.mobile);
    lemma_field_written(h7, ",mobileHalf:"@, bool_text(v.mobile_half));
    let h8 = h7 + ",mobileHalf:"@ + bool_text(v.mobile_half);
    lemma_field_written(h8, ",theme:"@, theme_literal(v));
    let h9 = h8 + ",theme:"@ + theme_literal(v);
    lemma_field_written(h9, ",gameSizesItself:false,sidebarDebug:"@, bool_text(v.sidebar_debug));
    let h10 = h9 + ",gameSizesItself:false,sidebarDebug:"@ + bool_text(v.sidebar_debug);
    lemma_field_written(h10, ",gameHash:"@, json_string(hash_of(v, label)));
}

/// The Options page's state script sets each choice from the state it
/// stands for.
pub proof fn lemma_options_state_fields(v: SidebarView, label: Seq<char>)
    ensures
        ({
            let s = options_state_spec(v, label);
            let f = flags_of(v, label);
            let open = "); window.__gbfOptions && window.__gbfOptions.setState({wikiOutside:"@;
            &&& holds_field(s, open, bool_text(!f.wiki_inside))
            &&& holds_field(s, ",tray:"@, bool_text(v.tray))
            &&& holds_field(s, ",desktopClient:"@, bool_text(v.desktop_client))
            &&& holds_field(s, ",mobile:"@, bool_text(f.mobile))
            &&& holds_field(s, ",theme:"@, theme_literal(v))
            &&& holds_field(s, ",sidebarDebug:"@, bool_text(v.sidebar_debug))
            &&& holds_field(s, "document.documentElement.setAttribute('data-theme', "@, theme_literal(v))
        }),
{
    let f = flags_of(v, label);
    let boot = "document.documentElement.setAttribute('data-theme', "@;
    let open = "); window.__gbfOptions && window.__gbfOptions.setState({wikiOutside:"@;
    lemma_fields_kept(boot, theme_literal(v));
    lemma_fields_kept(open, bool_text(!f.wiki_inside));
    lemma_fields_kept(",tray:"@, bool_text(v.tray));
    lemma_fields_kept(",desktopClient:"@, bool_text(v.desktop_client));
    lemma_fields_kept(",mobile:"@, bool_text(f.mobile));
    lemma_fields_kept(",theme:"@, theme_literal(v));
    lemma_fields_kept(",sidebarDebug:"@, bool_text(v.sidebar_debug));
    lemma_field_written(Seq::empty(), boot, theme_literal(v));
    assert(Seq::<char>::empty() + boot =~= boot);
    let h1 = boot + theme_literal(v);
    lemma_field_written(h1, open, bool_text(!f.wiki_inside));
    let h2 = h1 + open + bool_text(!f.wiki_inside);
    lemma_field_written(h2, ",tray:"@, bool_text(v.tray));
    let h3 = h2 + ",tray:"@ + bool_text(v.tray);
    lemma_field_written(h3, ",desktopClient:"@, bool_text(v.desktop_client));
    let h4 = h3 + ",desktopClient:"@ + bool_text(v.desktop_client);
    lemma_field_written(h4, ",mobile:"@, bool_text(f.mobile));
    let h5 = h4 + ",mobile:"@ + bool_text(f.mobile);
    lemma_field_written(h5, ",theme:"@, theme_literal(v));
    let h6 = h5 + ",theme:"@ + theme_literal(v);
    lemma_field_written(h6, ",sidebarDebug:"@, bool_text(v.sidebar_debug));
}

impl SidebarState {
    fn current_theme_js(&self) -> (r: String)
        ensures
            r@ == theme_literal(self@),
    {
        let t = self.theme();
        proof {
            lemma_normalize_theme_idempotent(self@.theme);
        }
        theme_js(t.as_str())
    }

    /// Script run before any page of ours loads, so its first paint already
    /// has the theme.
    pub fn theme_boot_script(&self) -> (r: String)
        ensures
            r@ == theme_boot_spec(self@),
    {
        let t = self.current_theme_js();
        let mut out = String::from_str("document.documentElement.setAttribute('data-theme', ");
        out.append(t.as_str());
        out.append(");");
        out
    }

    /// Everything the sidebar page shows, for one window.
    pub fn sidebar_state_script(&self, label: &str) -> (r: String)
        ensures
            r@ == sidebar_state_spec(self@, label@),
            holds_field(r@, ",aboutOpen:"@, bool_text(flags_of(self@, label@).about_open)),
            holds_field(r@, ",optionsOpen:"@, bool_text(flags_of(self@, label@).options_open)),
            holds_field(r@, ",wikiOpen:"@, bool_text(flags_of(self@, label@).wiki_open)),
            holds_field(
                r@,
                "window.__gbfSidebar && window.__gbfSidebar.setState({collapsed:"@,
                bool_text(flags_of(self@, label@).collapsed),
            ),
            holds_field(r@, ",locked:"@, bool_text(flags_of(self@, label@).locked)),
            holds_field(r@, ",wikiOutside:"@, bool_text(!flags_of(self@, label@).wiki_inside)),
            holds_field(r@, ",mobile:"@, bool_text(flags_of(self@, label@).mobile)),
            holds_field(r@, ",gameHash:"@, json_string(hash_of(self@, label@))),
    {
        proof {
            lemma_sidebar_state_fields(self@, label@);
        }
        let f = self.flags(label);
        let t = self.current_theme_js();
        let hash = self.game_hash(label);
        let h = json_literal_or(hash.as_str(), "\"\"");
        let mut out = String::from_str(
            "window.__gbfSidebar && window.__gbfSidebar.setState({collapsed:",
        );
        out.append(bool_str(f.collapsed));
        out.append(",wikiOpen:");
        out.append(bool_str(f.wiki_open));
        out.append(",aboutOpen:");
        out.append(bool_str(f.about_open));
        out.append(",optionsOpen:");
        out.append(bool_str(f.options_open));
        out.append(",locked:");
        out.append(bool_str(f.locked));
        out.append(",wikiOutside:");
        out.append(bool_str(!f.wiki_inside));
        out.append(",mobile:");
        out.append(bool_str(f.mobile));
        out.append(",mobileHalf:");
        out.append(bool_str(self.is_mobile_half()));
        out.append(",theme:");
        out.append(t.as_str());
        out.append(",gameSizesItself:false,sidebarDebug:");
        out.append(bool_str(self.is_sidebar_debug()));
        out.append(",gameHash:");
        out.append(h.as_str());
        out.append("})");
        out
    }

    /// What the Options page shows, for one window.
    pub fn options_state_script(&self, label: &str) -> (r: String)
        ensures
            r@ == options_state_spec(self@, label@),
            holds_field(r@, ",tray:"@, bool_text(self@.tray)),
            holds_field(r@, ",desktopClient:"@, bool_text(self@.desktop_client)),
            holds_field(r@, ",mobile:"@, bool_text(flags_of(self@, label@).mobile)),
            holds_field(r@, ",sidebarDebug:"@, bool_text(self@.sidebar_debug)),
    {
        proof {
            lemma_options_state_fields(self@, label@);
        }
        let f = self.flags(label);
        let t = self.current_theme_js();
        let mut out = String::from_str("document.documentElement.setAttribute('data-theme', ");
        out.append(t.as_str());
        out.append("); window.__gbfOptions && window.__gbfOptions.setState({wikiOutside:");
        out.append(bool_str(!f.wiki_inside));
        out.append(",tray:");
        out.append(bool_str(self.is_tray_enabled()));
        out.append(",desktopClient:");
        out.append(bool_str(self.is_desktop_client()));
        out.append(",mobile:");
        out.append(bool_str(f.mobile));
        out.append(",theme:");
        out.append(t.as_str());
        out.append(",sidebarDebug:");
        out.append(bool_str(self.is_sidebar_debug()));
        out.append("})");
        out
    }
}

} // verus!
