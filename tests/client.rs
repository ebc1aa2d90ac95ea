use newsapi::response::{decode_body, map_response_err};
use newsapi::{Country, Endpoint, NewsAPI, NewsApiError};

fn url_for(country: Country) -> String {
    let mut api = NewsAPI::new("key");
    api.country(country);
    api.prepare_url().ok().unwrap()
}

#[test]
fn request_url_for_gb_with_credential() {
    let mut api = NewsAPI::new("abc123");
    api.endpoint(Endpoint::TopHeadlines).country(Country::Gb);
    assert_eq!(api.prepare_url().ok().unwrap(), "https://newsapi.org/v2/top-headlines?country=gb");
    assert_eq!(api.api_key(), "abc123");
}

#[test]
fn request_url_for_every_country() {
    assert_eq!(url_for(Country::Us), "https://newsapi.org/v2/top-headlines?country=us");
    assert_eq!(url_for(Country::Sg), "https://newsapi.org/v2/top-headlines?country=sg");
    assert_eq!(url_for(Country::Gb), "https://newsapi.org/v2/top-headlines?country=gb");
}

#[test]
fn new_client_defaults_to_us_top_headlines() {
    let api = NewsAPI::new("k");
    assert_eq!(api.prepare_url().ok().unwrap(), "https://newsapi.org/v2/top-headlines?country=us");
}

#[test]
fn codes_and_segments() {
    assert_eq!(Endpoint::TopHeadlines.to_string(), "top-headlines");
    assert_eq!(Country::Us.to_string(), "us");
    assert_eq!(Country::Sg.to_string(), "sg");
    assert_eq!(Country::Gb.to_string(), "gb");
}

#[test]
fn ok_body_keeps_articles_in_order() {
    let body = r#"{"status":"ok","totalResults":3,"articles":[
        {"title":"First","url":"https://a.example/1","description":"one"},
        {"title":"Second","url":"https://a.example/2","description":null},
        {"title":"Third","url":"https://a.example/3"}]}"#;
    let res = decode_body(body).ok().unwrap();
    let arts = res.articles();
    assert_eq!(arts.len(), 3);
    assert_eq!(arts[0].title(), "First");
    assert_eq!(arts[0].url(), "https://a.example/1");
    assert_eq!(arts[0].desc().map(|s| s.as_str()), Some("one"));
    assert_eq!(arts[1].title(), "Second");
    assert_eq!(arts[1].desc(), None);
    assert_eq!(arts[2].title(), "Third");
    assert_eq!(arts[2].url(), "https://a.example/3");
    assert_eq!(arts[2].desc(), None);
}

#[test]
fn ok_body_with_no_articles() {
    let res = decode_body(r#"{"status":"ok","articles":[]}"#).ok().unwrap();
    assert_eq!(res.articles().len(), 0);
}

#[test]
fn disabled_key_error() {
    let body = r#"{"status":"error","code":"apiKeyDisabled","message":"x"}"#;
    match decode_body(body) {
        Err(NewsApiError::BadRequest(m)) => assert_eq!(m, "Your API key has been disabled"),
        _ => panic!("expected the disabled key error"),
    }
}

#[test]
fn unknown_code_error() {
    let body = r#"{"status":"error","code":"userAgentMissing"}"#;
    match decode_body(body) {
        Err(NewsApiError::BadRequest(m)) => assert_eq!(m, "Unknown error"),
        _ => panic!("expected the unknown error"),
    }
}

#[test]
fn missing_code_error() {
    match decode_body(r#"{"status":"error"}"#) {
        Err(NewsApiError::BadRequest(m)) => assert_eq!(m, "Unknown error"),
        _ => panic!("expected the unknown error"),
    }
}

#[test]
fn error_status_ignores_articles() {
    let body = r#"{"status":"error","code":"apiKeyDisabled","articles":[{"title":"t","url":"u"}]}"#;
    assert!(matches!(decode_body(body), Err(NewsApiError::BadRequest(_))));
}

#[test]
fn malformed_body_is_a_parse_error() {
    assert!(matches!(decode_body("<html>502</html>"), Err(NewsApiError::ArticleParseFailed(_))));
    assert!(matches!(decode_body(""), Err(NewsApiError::ArticleParseFailed(_))));
}

#[test]
fn wrong_shape_is_a_parse_error() {
    assert!(matches!(decode_body("[1,2]"), Err(NewsApiError::ArticleParseFailed(_))));
    assert!(matches!(decode_body(r#"{"articles":[]}"#), Err(NewsApiError::ArticleParseFailed(_))));
    assert!(matches!(decode_body(r#"{"status":"ok"}"#), Err(NewsApiError::ArticleParseFailed(_))));
    assert!(matches!(
        decode_body(r#"{"status":"ok","articles":[{"title":"t"}]}"#),
        Err(NewsApiError::ArticleParseFailed(_))
    ));
    assert!(matches!(
        decode_body(r#"{"status":"error","code":7}"#),
        Err(NewsApiError::ArticleParseFailed(_))
    ));
}

#[test]
fn error_code_mapping() {
    assert!(matches!(
        map_response_err(Some("apiKeyDisabled".to_string())),
        NewsApiError::BadRequest("Your API key has been disabled")
    ));
    assert!(matches!(map_response_err(Some("other".to_string())), NewsApiError::BadRequest("Unknown error")));
    assert!(matches!(map_response_err(None), NewsApiError::BadRequest("Unknown error")));
}
