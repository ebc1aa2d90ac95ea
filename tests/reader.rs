use newsapi::response::decode_body;
use newsapi::Article;
use newsapi::feed::{cards_from_articles, FeedWorker, Headlines, HeadlinesConfig, Msg, NewsCardData};

fn card(t: &str) -> NewsCardData {
    NewsCardData { title: t.to_string(), desc: format!("{} desc", t), url: format!("https://x/{}", t) }
}

fn titles(h: &Headlines) -> Vec<String> {
    h.articles.iter().map(|c| c.title.clone()).collect()
}

#[test]
fn cards_keep_order_and_default_description() {
    let arts = vec![
        Article::new("a".to_string(), "https://x/a".to_string(), Some("da".to_string())),
        Article::new("b".to_string(), "https://x/b".to_string(), None),
    ];
    let cards = cards_from_articles(&arts);
    assert_eq!(cards.len(), 2);
    assert_eq!(cards[0].title, "a");
    assert_eq!(cards[0].desc, "da");
    assert_eq!(cards[0].url, "https://x/a");
    assert_eq!(cards[1].title, "b");
    assert_eq!(cards[1].desc, "...");
    assert_eq!(cards[1].url, "https://x/b");
}

#[test]
fn cards_from_decoded_body() {
    let res = decode_body(r#"{"status":"ok","articles":[{"title":"T","url":"U"}]}"#).ok().unwrap();
    let cards = cards_from_articles(res.articles());
    assert_eq!(cards.len(), 1);
    assert_eq!(cards[0].desc, "...");
}

#[test]
fn default_config_is_light_without_key() {
    let c = HeadlinesConfig::default();
    assert!(!c.dark_mode);
    assert_eq!(c.api_key, "");
    let h = Headlines::new(c);
    assert!(!h.api_key_initialized);
    assert!(h.articles.is_empty());
}

#[test]
fn configured_key_marks_initialized() {
    let h = Headlines::new(HeadlinesConfig { dark_mode: true, api_key: "k".to_string() });
    assert!(h.api_key_initialized);
    assert!(h.config.dark_mode);
}

#[test]
fn preload_appends_what_arrives() {
    let mut h = Headlines::new(HeadlinesConfig::default());
    h.preload_articles(Some(card("a")));
    h.preload_articles(None);
    h.preload_articles(Some(card("b")));
    assert_eq!(titles(&h), vec!["a", "b"]);
}

#[test]
fn two_refreshes_append_in_arrival_order() {
    let mut w = FeedWorker::new("");
    assert_eq!(w.startup_fetch(), None);
    assert_eq!(w.handle(Msg::ApiKeySet("abc123".to_string())), Some("abc123".to_string()));
    let mut h = Headlines::new(HeadlinesConfig::default());
    h.preload_articles(Some(card("old")));
    assert_eq!(w.handle(Msg::RefreshHit(true)), Some("abc123".to_string()));
    for t in ["x", "y"] {
        h.preload_articles(Some(card(t)));
    }
    assert_eq!(w.handle(Msg::RefreshHit(true)), Some("abc123".to_string()));
    for t in ["x", "y"] {
        h.preload_articles(Some(card(t)));
    }
    assert_eq!(titles(&h), vec!["old", "x", "y", "x", "y"]);
}

#[test]
fn worker_startup_and_signals() {
    let mut w = FeedWorker::new("key");
    assert_eq!(w.startup_fetch(), Some("key".to_string()));
    assert_eq!(w.handle(Msg::RefreshHit(false)), None);
    assert_eq!(w.handle(Msg::RefreshHit(true)), Some("key".to_string()));
    assert_eq!(w.handle(Msg::ApiKeySet("new".to_string())), Some("new".to_string()));
    assert_eq!(w.handle(Msg::RefreshHit(true)), Some("new".to_string()));
}

#[test]
fn submit_and_toggle() {
    let mut h = Headlines::new(HeadlinesConfig::default());
    h.config.api_key = "abc".to_string();
    match h.submit_api_key() {
        Msg::ApiKeySet(k) => assert_eq!(k, "abc"),
        _ => panic!("expected the credential"),
    }
    assert!(h.api_key_initialized);
    h.toggle_theme();
    assert!(h.config.dark_mode);
    h.toggle_theme();
    assert!(!h.config.dark_mode);
}
