use gbf_pake::startup::{
    cancel_startup_reveal, claim_startup_reveal, close_request_hides, game_page_finished_plan,
    is_placeholder_startup_url, page_load_plan, GamePageAction, PageLoadPlan, PageReveal, PageUrl,
    StartupReveal, wiki_needs_first_load,
};

fn page_url(text: &str) -> PageUrl {
    let url: url::Url = text.parse().unwrap();
    PageUrl {
        scheme: url.scheme().to_string(),
        host: url.host_str().map(|h| h.to_string()),
        fragment: url.fragment().map(|f| f.to_string()),
        path: url.path().to_string(),
    }
}

#[test]
fn placeholder_startup_urls_cover_about_blank() {
    let blank = page_url("about:blank");
    let srcdoc = page_url("about:srcdoc");
    let https = page_url("https://github.com/");
    let tauri = page_url("tauri://localhost/");

    assert!(is_placeholder_startup_url(&blank));
    assert!(is_placeholder_startup_url(&srcdoc));
    assert!(!is_placeholder_startup_url(&https));
    assert!(!is_placeholder_startup_url(&tauri));
}

#[test]
fn first_claim_wins_startup_reveal() {
    let mut revealed = StartupReveal::new(false);
    assert!(claim_startup_reveal(&mut revealed));
    assert!(!claim_startup_reveal(&mut revealed));
}

#[test]
fn user_show_then_hide_blocks_automatic_startup_reveal() {
    let mut revealed = StartupReveal::new(false);
    cancel_startup_reveal(&mut revealed); // explicit show
    cancel_startup_reveal(&mut revealed); // explicit hide
    assert!(
        !claim_startup_reveal(&mut revealed),
        "automatic reveal must stay cancelled after user visibility control"
    );
}

#[test]
fn cancel_before_any_claim_blocks_reveal() {
    let mut revealed = StartupReveal::new(false);
    cancel_startup_reveal(&mut revealed);
    assert!(!claim_startup_reveal(&mut revealed));
}

#[test]
fn claim_after_claim_leaves_latch_set() {
    let mut revealed = StartupReveal::new(false);
    assert!(!revealed.is_revealed());
    claim_startup_reveal(&mut revealed);
    assert!(revealed.is_revealed());
    let mut already = StartupReveal::new(true);
    assert!(!claim_startup_reveal(&mut already));
}

#[test]
fn placeholder_scheme_ignores_ascii_case() {
    let mut url = page_url("about:blank");
    url.scheme = "ABOUT".to_string();
    assert!(is_placeholder_startup_url(&url));
}

#[test]
fn page_load_reveals_main_window_once_finished() {
    let game = page_url("https://game.granbluefantasy.jp/#mypage");
    assert_eq!(
        page_load_plan(true, &game, "pake", false, false),
        PageLoadPlan { game_page_finished: true, reveal: PageReveal::MainStartup }
    );
    assert_eq!(
        page_load_plan(false, &game, "pake", false, false),
        PageLoadPlan { game_page_finished: false, reveal: PageReveal::Nothing }
    );
}

#[test]
fn page_load_skips_placeholder_documents() {
    let blank = page_url("about:blank");
    assert_eq!(
        page_load_plan(true, &blank, "pake", false, true),
        PageLoadPlan { game_page_finished: false, reveal: PageReveal::Nothing }
    );
}

#[test]
fn page_load_start_to_tray_keeps_main_hidden() {
    let game = page_url("https://game.granbluefantasy.jp/");
    assert_eq!(
        page_load_plan(true, &game, "pake", true, true).reveal,
        PageReveal::Nothing
    );
    // Without the tray there is no way back to a hidden window.
    assert_eq!(
        page_load_plan(true, &game, "pake", true, false).reveal,
        PageReveal::MainStartup
    );
}

#[test]
fn page_load_child_webviews_are_not_the_game() {
    let wiki = page_url("https://gbf.wiki/");
    assert_eq!(
        page_load_plan(true, &wiki, "pake--gbf-wiki", false, false),
        PageLoadPlan { game_page_finished: false, reveal: PageReveal::BuiltWindow }
    );
    let game = page_url("https://game.granbluefantasy.jp/");
    assert_eq!(
        page_load_plan(true, &game, "pake-1", false, false),
        PageLoadPlan { game_page_finished: true, reveal: PageReveal::BuiltWindow }
    );
    assert_eq!(
        page_load_plan(true, &game, "other", false, false),
        PageLoadPlan { game_page_finished: false, reveal: PageReveal::Nothing }
    );
}

#[test]
fn close_request_hides_only_main_window_with_tray() {
    assert!(close_request_hides(true, "pake", true));
    assert!(!close_request_hides(true, "pake", false));
    assert!(!close_request_hides(false, "pake", true));
    assert!(!close_request_hides(true, "pake-1", true));
}

#[test]
fn game_page_on_granblue_records_hash() {
    let game = page_url("https://game.granbluefantasy.jp/#quest/index");
    assert_eq!(
        game_page_finished_plan("pake", &game),
        GamePageAction::OnGranblue { hash: Some("#quest/index".to_string()) }
    );
    let no_hash = page_url("https://game.granbluefantasy.jp/");
    assert_eq!(
        game_page_finished_plan("pake", &no_hash),
        GamePageAction::OnGranblue { hash: None }
    );
}

#[test]
fn game_page_elsewhere_forgets_edge() {
    let login = page_url("https://store.steampowered.com/login");
    assert_eq!(game_page_finished_plan("pake", &login), GamePageAction::OffGranblue);
    let game = page_url("https://game.granbluefantasy.jp/");
    assert_eq!(game_page_finished_plan("pake--gbf-panel", &game), GamePageAction::NotGame);
}

#[test]
fn wiki_first_load_only_from_blank() {
    assert!(wiki_needs_first_load(None));
    assert!(wiki_needs_first_load(Some(&page_url("about:blank"))));
    assert!(!wiki_needs_first_load(Some(&page_url("https://gbf.wiki/Main_Page"))));
}
