use wikitrans::pipeline::Action;
use wikitrans::pipeline::LangLink;
use wikitrans::pipeline::Orchestrator;
use wikitrans::pipeline::filter_target_langs;
use wikitrans::pipeline::join_term;
use wikitrans::pipeline::links_contain;

fn catalog() -> Vec<(String, String)> {
    vec![
        ("en".to_string(), "English".to_string()),
        ("fr".to_string(), "French".to_string()),
        ("de".to_string(), "German".to_string()),
    ]
}

fn cat_links() -> Vec<LangLink> {
    vec![
        LangLink { lang: "fr".to_string(), title: Some("Chat".to_string()) },
        LangLink { lang: "de".to_string(), title: None },
    ]
}

fn orchestrator(lang_pref: Option<&str>, trans_pref: Option<&str>) -> Orchestrator {
    Orchestrator::new(
        catalog(),
        "en".to_string(),
        vec!["cat".to_string()],
        lang_pref.map(|s| s.to_string()),
        trans_pref.map(|s| s.to_string()),
    )
}

#[test]
fn join_term_is_empty_for_no_tokens() {
    let tokens: Vec<String> = Vec::new();
    assert_eq!(join_term(&tokens), "");
}

#[test]
fn join_term_prefixes_every_token_with_a_space() {
    assert_eq!(join_term(&vec!["cat".to_string()]), " cat");
    assert_eq!(join_term(&vec!["big".to_string(), "cat".to_string()]), " big cat");
}

#[test]
fn target_candidates_are_catalog_entries_with_langlinks() {
    let targets = filter_target_langs(&catalog(), &cat_links());
    assert_eq!(
        targets,
        vec![
            ("fr".to_string(), "French".to_string()),
            ("de".to_string(), "German".to_string()),
        ]
    );
}

#[test]
fn target_candidates_keep_catalog_order() {
    let links = vec![
        LangLink { lang: "de".to_string(), title: None },
        LangLink { lang: "en".to_string(), title: Some("Cat".to_string()) },
    ];
    let targets = filter_target_langs(&catalog(), &links);
    assert_eq!(
        targets,
        vec![
            ("en".to_string(), "English".to_string()),
            ("de".to_string(), "German".to_string()),
        ]
    );
}

#[test]
fn langlink_tags_outside_the_catalog_are_dropped() {
    let links = vec![LangLink { lang: "zz".to_string(), title: Some("Zzz".to_string()) }];
    let targets = filter_target_langs(&catalog(), &links);
    assert!(targets.is_empty());
    assert!(links_contain(&links, &"zz".to_string()));
    assert!(!links_contain(&links, &"fr".to_string()));
}

#[test]
fn full_interactive_run_yields_translated_title() {
    let mut orch = orchestrator(None, None);
    match orch.start() {
        Action::Pick { items, warning, prompt } => {
            assert_eq!(items, vec!["en (English)", "fr (French)", "de (German)"]);
            assert_eq!(warning, None);
            assert_eq!(prompt, "Search language: ");
        }
        _ => panic!("expected a search-language pick"),
    }
    match orch.on_search_lang_picked(Some("en (English)".to_string())) {
        Action::Search { term, lang } => {
            assert_eq!(term, " cat");
            assert_eq!(lang, "en");
        }
        _ => panic!("expected a search"),
    }
    assert_eq!(orch.active_language(), "en");
    match orch.on_titles(vec!["Cat".to_string(), "Catalog".to_string()]) {
        Action::Pick { items, warning, prompt } => {
            assert_eq!(items, vec!["Cat", "Catalog"]);
            assert_eq!(warning, None);
            assert_eq!(prompt, "Select term: ");
        }
        _ => panic!("expected a title pick"),
    }
    match orch.on_title_picked(Some("Cat".to_string())) {
        Action::FetchLangLinks { title } => assert_eq!(title, "Cat"),
        _ => panic!("expected a langlink fetch"),
    }
    match orch.on_langlinks(cat_links()) {
        Action::Pick { items, warning, prompt } => {
            assert_eq!(items, vec!["fr (French): Chat", "de (German): "]);
            assert_eq!(warning, None);
            assert_eq!(prompt, "Translate to: ");
        }
        _ => panic!("expected a target-language pick"),
    }
    match orch.on_target_picked(Some("fr (French): Chat".to_string())) {
        Action::Finish { result } => assert_eq!(result, Some("Chat".to_string())),
        _ => panic!("expected the pipeline to finish"),
    }
    assert_eq!(orch.result, Some("Chat".to_string()));
}

#[test]
fn empty_langlinks_yield_diagnostic_and_no_result() {
    let mut orch = orchestrator(Some("en"), None);
    match orch.start() {
        Action::Search { lang, .. } => assert_eq!(lang, "en"),
        _ => panic!("expected a search"),
    }
    orch.on_titles(vec!["Cat".to_string()]);
    orch.on_title_picked(Some("Cat".to_string()));
    match orch.on_langlinks(Vec::new()) {
        Action::NoTranslations { message } => {
            assert_eq!(message, "No translations available for: Cat");
        }
        _ => panic!("expected the no-translations diagnostic, not a pick"),
    }
    assert_eq!(orch.result, None);
    assert_eq!(orch.active_language(), "en");
}

#[test]
fn search_language_preference_skips_the_pick() {
    let mut orch = orchestrator(Some("fr"), None);
    match orch.start() {
        Action::Search { term, lang } => {
            assert_eq!(term, " cat");
            assert_eq!(lang, "fr");
        }
        _ => panic!("a matching preference must not request a pick"),
    }
    assert_eq!(orch.active_language(), "fr");
}

#[test]
fn unmatched_search_preference_warns_and_picks() {
    let mut orch = orchestrator(Some("xx"), None);
    match orch.start() {
        Action::Pick { warning, .. } => {
            assert_eq!(warning, Some("Unknown preference language: xx".to_string()));
        }
        _ => panic!("expected a pick with a warning"),
    }
}

#[test]
fn target_preference_finishes_without_a_pick() {
    let mut orch = orchestrator(Some("en"), Some("fr"));
    orch.start();
    orch.on_titles(vec!["Cat".to_string()]);
    orch.on_title_picked(Some("Cat".to_string()));
    match orch.on_langlinks(cat_links()) {
        Action::Finish { result } => assert_eq!(result, Some("Chat".to_string())),
        _ => panic!("a matching target preference must finish directly"),
    }
    assert_eq!(orch.result, Some("Chat".to_string()));
    assert_eq!(orch.active_language(), "en");
}

#[test]
fn langlink_without_title_yields_empty_result() {
    let mut orch = orchestrator(Some("en"), Some("de"));
    orch.start();
    orch.on_titles(vec!["Cat".to_string()]);
    orch.on_title_picked(Some("Cat".to_string()));
    match orch.on_langlinks(cat_links()) {
        Action::Finish { result } => assert_eq!(result, None),
        _ => panic!("a matching target preference must finish directly"),
    }
}

#[test]
fn search_language_is_restored_after_langlinks() {
    let mut orch = orchestrator(Some("fr"), None);
    orch.start();
    assert_eq!(orch.active_language(), "fr");
    orch.on_titles(vec!["Chat".to_string()]);
    orch.on_title_picked(Some("Chat".to_string()));
    orch.on_langlinks(cat_links());
    assert_eq!(orch.active_language(), "en");
}

#[test]
fn cancelled_search_language_pick_is_fatal() {
    let mut orch = orchestrator(None, None);
    orch.start();
    match orch.on_search_lang_picked(None) {
        Action::Fail { message } => assert_eq!(message, "failed to select search language"),
        _ => panic!("a cancelled pick must be fatal"),
    }
}

#[test]
fn cancelled_title_pick_is_fatal() {
    let mut orch = orchestrator(Some("en"), None);
    orch.start();
    orch.on_titles(vec!["Cat".to_string()]);
    match orch.on_title_picked(None) {
        Action::Fail { message } => assert_eq!(message, "failed to select page title"),
        _ => panic!("a cancelled pick must be fatal"),
    }
}

#[test]
fn cancelled_target_pick_is_fatal() {
    let mut orch = orchestrator(Some("en"), None);
    orch.start();
    orch.on_titles(vec!["Cat".to_string()]);
    orch.on_title_picked(Some("Cat".to_string()));
    orch.on_langlinks(cat_links());
    match orch.on_target_picked(None) {
        Action::Fail { message } => assert_eq!(message, "failed to select target language"),
        _ => panic!("a cancelled pick must be fatal"),
    }
}

#[test]
fn first_langlink_wins_among_duplicate_tags() {
    let mut orch = orchestrator(Some("en"), Some("fr"));
    orch.start();
    orch.on_titles(vec!["Cat".to_string()]);
    orch.on_title_picked(Some("Cat".to_string()));
    let links = vec![
        LangLink { lang: "fr".to_string(), title: Some("Chat".to_string()) },
        LangLink { lang: "fr".to_string(), title: Some("Minou".to_string()) },
    ];
    match orch.on_langlinks(links) {
        Action::Finish { result } => assert_eq!(result, Some("Chat".to_string())),
        _ => panic!("a matching target preference must finish directly"),
    }
}

#[test]
fn empty_term_tokens_join_to_empty_search_phrase() {
    let mut orch = Orchestrator::new(
        catalog(),
        "en".to_string(),
        Vec::new(),
        Some("en".to_string()),
        None,
    );
    match orch.start() {
        Action::Search { term, lang } => {
            assert_eq!(term, "");
            assert_eq!(lang, "en");
        }
        _ => panic!("expected a search"),
    }
}

#[test]
fn picked_tag_without_langlink_is_fatal() {
    let mut orch = orchestrator(Some("en"), None);
    orch.start();
    orch.on_titles(vec!["Cat".to_string()]);
    orch.on_title_picked(Some("Cat".to_string()));
    orch.on_langlinks(cat_links());
    match orch.on_target_picked(Some("zz (Nowhere)".to_string())) {
        Action::Fail { message } => assert_eq!(message, "failed to select find langlink"),
        _ => panic!("a tag without a langlink must be fatal"),
    }
}
