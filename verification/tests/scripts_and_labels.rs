use gbf_pake::labels::{is_game_label, panel_label, sidebar_label, wiki_label};
use gbf_pake::scripts::{
    game_nav_script, hug_js, lock_js, panel_needs_fixed_size, panel_no_room_notice,
    sidebar_game_hash_script,
};
use gbf_pake::state::SidebarState;
use gbf_pake::theme::{normalize_theme, theme_blank, theme_js};

#[test]
fn child_labels() {
    assert_eq!(sidebar_label("pake"), "pake--gbf-sidebar");
    assert_eq!(wiki_label("pake-1"), "pake-1--gbf-wiki");
    assert_eq!(panel_label("pake"), "pake--gbf-panel");
    assert!(is_game_label("pake"));
    assert!(is_game_label("pake-1"));
    assert!(!is_game_label("pake--gbf-wiki"));
    assert!(!is_game_label(&sidebar_label("pake-2")));
}

#[test]
fn themes() {
    assert_eq!(normalize_theme(" Ember "), "ember");
    assert_eq!(normalize_theme("TIDE"), "tide");
    assert_eq!(normalize_theme(""), "midnight");
    assert_eq!(normalize_theme("embers"), "midnight");
    assert_eq!(theme_blank("ember"), (18, 12, 8, 255));
    assert_eq!(theme_blank("tide"), (8, 14, 16, 255));
    assert_eq!(theme_blank("whatever"), (11, 11, 15, 255));
    assert_eq!(theme_js("Tide"), "\"tide\"");
    assert_eq!(theme_js("x"), "\"midnight\"");
}

#[test]
fn lock_and_hug_scripts() {
    let on = lock_js(true);
    assert!(on.starts_with("(function(){var id=\"gbf-native-locked\";"));
    assert!(on.contains("if(true)"));
    assert!(on.contains("el.textContent=\"#submenu,#general-chat{display:none !important;}\";"));
    assert!(lock_js(false).contains("if(false)"));
    assert_eq!(
        lock_js(false),
        "(function(){var id=\"gbf-native-locked\";var el=document.getElementById(id);         if(false){if(!el){el=document.createElement('style');el.id=id;         el.textContent=\"#submenu,#general-chat{display:none !important;}\";(document.head||document.documentElement).appendChild(el);}}         else if(el&&el.parentNode){el.parentNode.removeChild(el);}})()"
    );
    assert_eq!(hug_js(true), "window.__gbfSetHug && window.__gbfSetHug(true)");
    assert_eq!(hug_js(false), "window.__gbfSetHug && window.__gbfSetHug(false)");
}

#[test]
fn notices() {
    assert_eq!(panel_no_room_notice(true), "Not enough room. Widen the window.");
    assert_eq!(
        panel_no_room_notice(false),
        "Not enough room. In Granblue's Browser Settings, pick a smaller Window Size."
    );
    assert!(panel_needs_fixed_size().starts_with("NOTICE "));
}

#[test]
fn nav_scripts_escape_the_hash() {
    assert_eq!(game_nav_script("#mypage"), "location.hash = \"#mypage\"");
    assert_eq!(game_nav_script("a\"b\\c"), "location.hash = \"a\\\"b\\\\c\"");
    assert_eq!(
        sidebar_game_hash_script("#quest"),
        "window.__gbfSidebar && window.__gbfSidebar.setGameHash(\"#quest\")"
    );
}

#[test]
fn nav_scripts_escape_control_characters() {
    assert_eq!(game_nav_script("a\nb"), "location.hash = \"a\\nb\"");
    assert_eq!(
        game_nav_script("\t\r\u{8}\u{c}"),
        "location.hash = \"\\t\\r\\b\\f\""
    );
    assert_eq!(game_nav_script("x\u{1}\u{1f}"), "location.hash = \"x\\u0001\\u001f\"");
    assert_eq!(game_nav_script("\u{7f}\u{e9}"), "location.hash = \"\u{7f}\u{e9}\"");
    assert_eq!(
        sidebar_game_hash_script("q\n"),
        "window.__gbfSidebar && window.__gbfSidebar.setGameHash(\"q\\n\")"
    );
}

#[test]
fn state_scripts() {
    let mut s = SidebarState::new();
    s.set_theme("ember");
    s.set_wiki_open("pake", true);
    s.set_tray_enabled(true);
    s.set_game_hash("pake", "#mypage".to_string());
    assert_eq!(
        s.theme_boot_script(),
        "document.documentElement.setAttribute('data-theme', \"ember\");"
    );
    assert_eq!(
        s.sidebar_state_script("pake"),
        "window.__gbfSidebar && window.__gbfSidebar.setState({collapsed:false,wikiOpen:true,aboutOpen:false,optionsOpen:false,locked:false,wikiOutside:true,mobile:false,mobileHalf:false,theme:\"ember\",gameSizesItself:false,sidebarDebug:false,gameHash:\"#mypage\"})"
    );
    assert_eq!(
        s.options_state_script("pake"),
        "document.documentElement.setAttribute('data-theme', \"ember\"); window.__gbfOptions && window.__gbfOptions.setState({wikiOutside:true,tray:true,desktopClient:false,mobile:false,theme:\"ember\",sidebarDebug:false})"
    );
}
