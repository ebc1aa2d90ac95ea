//! Decoded responses: articles, errors, and how a response body decodes.
use vstd::prelude::*;
use crate::json::{find_member, json_member, parse_json, parsed_json, Json};

verus! {

/// One news article: its title, its link, and an optional description.
pub struct Article {
    title: String,
    url: String,
    description: Option<String>,
}

/// The plain view of an optional text.
pub open spec fn opt_text(o: Option<String>) -> Option<Seq<char>> {
    match o {
        Some(s) => Some(s@),
        None => None,
    }
}

impl View for Article {
    type V = (Seq<char>, Seq<char>, Option<Seq<char>>);

    closed spec fn view(&self) -> Self::V {
        (self.title@, self.url@, opt_text(self.description))
    }
}

impl Article {
    pub fn new(title: String, url: String, description: Option<String>) -> (r: Article)
        ensures
            r@ == (title@, url@, opt_text(description)),
    {
        Article { title, url, description }
    }

    pub fn title(&self) -> (r: &str)
        ensures
            r@ == self@.0,
    {
        self.title.as_str()
    }

    pub fn url(&self) -> (r: &str)
        ensures
            r@ == self@.1,
    {
        self.url.as_str()
    }

    pub fn desc(&self) -> (r: Option<&String>)
        ensures
            self@.2 is Some <==> r is Some,
            r is Some ==> self@.2 == Some(r->0@),
    {
        match &self.description {
            Some(d) => Some(d),
            None => None,
        }
    }
}

/// A decoded response: its status, the optional error code, and the articles
/// in the order the service sent them.
pub struct NewsAPIResponse {
    status: String,
    code: Option<String>,
    pub articles: Vec<Article>,
}

/// The views of a sequence of articles.
pub open spec fn article_views(a: Seq<Article>) -> Seq<(Seq<char>, Seq<char>, Option<Seq<char>>)> {
    a.map_values(|x: Article| x@)
}

impl View for NewsAPIResponse {
    type V = (Seq<char>, Option<Seq<char>>, Seq<(Seq<char>, Seq<char>, Option<Seq<char>>)>);

    closed spec fn view(&self) -> Self::V {
        (self.status@, opt_text(self.code), article_views(self.articles@))
    }
}

impl NewsAPIResponse {
    pub fn articles(&self) -> (r: &Vec<Article>)
        ensures
            article_views(r@) == self@.2,
    {
        &self.articles
    }
}

/// Why a fetch failed.
pub enum NewsApiError {
    /// The blocking transport failed; holds its message.
    RequestFailed(String),
    /// The response body could not be read as text; holds the reason.
    FailedResponseToString(String),
    /// The body is not JSON, or not a response of the expected shape.
    ArticleParseFailed(String),
    /// The base URL did not parse.
    UrlParsingFailed(url::ParseError),
    /// The request was refused, by the service or before it was sent.
    BadRequest(&'static str),
    /// The non-blocking transport failed; holds its message.
    AsyncRequestFailed(String),
}

/// The message shown for an error code that the service reported.
pub open spec fn error_message(code: Option<Seq<char>>) -> Seq<char> {
    if code == Some("apiKeyDisabled"@) {
        "Your API key has been disabled"@
    } else {
        "Unknown error"@
    }
}

/// Maps an error code reported by the service to an error.
pub fn map_response_err(code: Option<String>) -> (r: NewsApiError)
    ensures
        r matches NewsApiError::BadRequest(m) && m@ == error_message(opt_text(code)),
{
    match code {
        Some(c) => {
            if c == "apiKeyDisabled".to_owned() {
                NewsApiError::BadRequest("Your API key has been disabled")
            } else {
                NewsApiError::BadRequest("Unknown error")
            }
        },
        None => NewsApiError::BadRequest("Unknown error"),
    }
}

/// The view of one article.
pub type ArticleView = (Seq<char>, Seq<char>, Option<Seq<char>>);

/// The text of the member `key` of `j`, where it is a string.
pub open spec fn text_member(j: Json, key: Seq<char>) -> Option<Seq<char>> {
    match json_member(j, key) {
        Some(Json::Str(s)) => Some(s@),
        _ => None,
    }
}

/// The optional text of the member `key` of `j`: `Some(None)` where it is
/// absent or null, `None` where it is neither that nor a string.
pub open spec fn optional_text_member(j: Json, key: Seq<char>) -> Option<Option<Seq<char>>> {
    match json_member(j, key) {
        None => Some(None),
        Some(Json::Null) => Some(None),
        Some(Json::Str(s)) => Some(Some(s@)),
        _ => None,
    }
}

/// The article that a JSON value describes, if it has the article's shape.
pub open spec fn article_of(j: Json) -> Option<ArticleView> {
    if j is Object && text_member(j, "title"@) is Some && text_member(j, "url"@) is Some
        && optional_text_member(j, "description"@) is Some {
        Some(
            (
                text_member(j, "title"@)->0,
                text_member(j, "url"@)->0,
                optional_text_member(j, "description"@)->0,
            ),
        )
    } else {
        None
    }
}

/// The articles that the first `n` items describe, if each has the shape.
pub open spec fn articles_prefix(items: Seq<Json>, n: nat) -> Option<Seq<ArticleView>>
    decreases n,
{
    if n == 0 || n > items.len() {
        if n == 0 { Some(Seq::empty()) } else { None }
    } else {
        match articles_prefix(items, (n - 1) as nat) {
            Some(p) => match article_of(items[n - 1]) {
                Some(a) => Some(p.push(a)),
                None => None,
            },
            None => None,
        }
    }
}

/// The articles of a JSON array, if every item has the article's shape.
pub open spec fn articles_of(j: Json) -> Option<Seq<ArticleView>> {
    match j {
        Json::Array(items) => articles_prefix(items@, items@.len()),
        _ => None,
    }
}

/// The `status` of a response document.
pub open spec fn envelope_status(j: Json) -> Option<Seq<char>> {
    text_member(j, "status"@)
}

/// The optional `code` of a response document.
pub open spec fn envelope_code(j: Json) -> Option<Option<Seq<char>>> {
    if j is Object {
        optional_text_member(j, "code"@)
    } else {
        None
    }
}

/// The `articles` of a response document.
pub open spec fn envelope_articles(j: Json) -> Option<Seq<ArticleView>> {
    match json_member(j, "articles"@) {
        Some(a) => articles_of(a),
        None => None,
    }
}

/// A document has the response's shape: a string `status`, a `code` that is
/// absent, null or a string, and, where the status is `ok`, an array of
/// articles.
pub open spec fn is_envelope(j: Json) -> bool {
    envelope_status(j) is Some && envelope_code(j) is Some && (envelope_status(j)->0 == "ok"@
        ==> envelope_articles(j) is Some)
}

/// `r` is what decoding the document `j` gives: a parse error where it lacks
/// the response's shape, the response where its status is `ok`, and otherwise
/// the error that its code maps to.
pub open spec fn decodes_to(j: Json, r: Result<NewsAPIResponse, NewsApiError>) -> bool {
    if !is_envelope(j) {
        r is Err && r->Err_0 is ArticleParseFailed
    } else if envelope_status(j)->0 == "ok"@ {
        r is Ok && r->Ok_0@ == ("ok"@, envelope_code(j)->0, envelope_articles(j)->0)
    } else {
        r is Err && r->Err_0 is BadRequest && r->Err_0->BadRequest_0@ == error_message(
            envelope_code(j)->0,
        )
    }
}

fn text_field(j: &Json, key: &String) -> (r: Option<String>)
    ensures
        r is Some <==> text_member(*j, key@) is Some,
        r is Some ==> text_member(*j, key@) == Some(r->0@),
{
    match j {
        Json::Object(fields) => match find_member(fields, key) {
            Some(Json::Str(s)) => Some(s.clone()),
            _ => None,
        },
        _ => None,
    }
}

fn optional_text_field(j: &Json, key: &String) -> (r: Option<Option<String>>)
    requires
        j is Object,
    ensures
        r is Some <==> optional_text_member(*j, key@) is Some,
        r is Some ==> optional_text_member(*j, key@) == Some(opt_text(r->0)),
{
    match j {
        Json::Object(fields) => match find_member(fields, key) {
            None => Some(None),
            Some(Json::Null) => Some(None),
            Some(Json::Str(s)) => Some(Some(s.clone())),
            _ => None,
        },
        _ => None,
    }
}

fn decode_article(j: &Json) -> (r: Option<Article>)
    ensures
        r is Some <==> article_of(*j) is Some,
        r is Some ==> article_of(*j) == Some(r->0@),
{
    proof {
        reveal_strlit("title");
        reveal_strlit("url");
        reveal_strlit("description");
    }
    if !matches!(j, Json::Object(_)) {
        return None;
    }
    let title = match text_field(j, &"title".to_owned()) {
        Some(t) => t,
        None => return None,
    };
    let url = match text_field(j, &"url".to_owned()) {
        Some(u) => u,
        None => return None,
    };
    let description = match optional_text_field(j, &"description".to_owned()) {
        Some(d) => d,
        None => return None,
    };
    Some(Article { title, url, description })
}

proof fn lemma_prefix_fails_onwards(items: Seq<Json>, n: nat, m: nat)
    requires
        n <= m <= items.len(),
        articles_prefix(items, n) is None,
    ensures
        articles_prefix(items, m) is None,
    decreases m - n,
{
    if n < m {
        lemma_prefix_fails_onwards(items, n, (m - 1) as nat);
    }
}

fn decode_articles(j: &Json) -> (r: Option<Vec<Article>>)
    ensures
        r is Some <==> articles_of(*j) is Some,
        r is Some ==> articles_of(*j) == Some(article_views(r->0@)),
{
    let items = match j {
        Json::Array(items) => items,
        _ => return None,
    };
    let mut out: Vec<Article> = Vec::new();
    let mut i: usize = 0;
    while i < items.len()
        invariant
            i <= items@.len(),
            articles_of(*j) == articles_prefix(items@, items@.len()),
            articles_prefix(items@, i as nat) == Some(article_views(out@)),
        decreases items.len() - i,
    {
        match decode_article(&items[i]) {
            Some(a) => {
                let ghost before = out@;
                out.push(a);
                proof {
                    assert(article_views(out@) =~= article_views(before).push(a@));
                }
            },
            None => {
                proof {
                    assert(article_of(items@[i as int]) is None);
                    assert(articles_prefix(items@, (i + 1) as nat) is None);
                    lemma_prefix_fails_onwards(items@, (i + 1) as nat, items@.len());
                }
                return None;
            },
        }
        i = i + 1;
    }
    Some(out)
}


/// Decodes a parsed response document: the response where its status is
/// `ok`, the mapped error where the service reported one, and a parse error
/// where the document lacks the response's shape.
pub fn decode_response(j: &Json) -> (r: Result<NewsAPIResponse, NewsApiError>)
    ensures
        decodes_to(*j, r),
{
    proof {
        reveal_strlit("status");
        reveal_strlit("code");
        reveal_strlit("articles");
        reveal_strlit("ok");
    }
    let shape_error = "the response does not have the expected shape";
    let status = match text_field(j, &"status".to_owned()) {
        Some(s) => s,
        None => return Err(NewsApiError::ArticleParseFailed(shape_error.to_owned())),
    };
    if !matches!(j, Json::Object(_)) {
        return Err(NewsApiError::ArticleParseFailed(shape_error.to_owned()));
    }
    let code = match optional_text_field(j, &"code".to_owned()) {
        Some(c) => c,
        None => return Err(NewsApiError::ArticleParseFailed(shape_error.to_owned())),
    };
    if status == "ok".to_owned() {
        let articles = match j {
            Json::Object(fields) => match find_member(fields, &"articles".to_owned()) {
                Some(a) => decode_articles(a),
                None => None,
            },
            _ => None,
        };
        match articles {
            Some(articles) => Ok(NewsAPIResponse { status, code, articles }),
            None => Err(NewsApiError::ArticleParseFailed(shape_error.to_owned())),
        }
    } else {
        Err(map_response_err(code))
    }
}

/// `r` is what decoding the text `body` gives.
pub open spec fn body_decodes_to(body: Seq<char>, r: Result<NewsAPIResponse, NewsApiError>) -> bool {
    match parsed_json(body) {
        None => r is Err && r->Err_0 is ArticleParseFailed,
        Some(j) => decodes_to(j, r),
    }
}

/// Decodes a response body: a parse error where it is not one JSON document,
/// and otherwise what `decode_response` makes of the document.
pub fn decode_body(body: &str) -> (r: Result<NewsAPIResponse, NewsApiError>)
    ensures
        body_decodes_to(body@, r),
{
    match parse_json(body) {
        Ok(j) => decode_response(&j),
        Err(message) => Err(NewsApiError::ArticleParseFailed(message)),
    }
}

/// The items of the `articles` array of a response document.
pub open spec fn article_items(j: Json) -> Seq<Json> {
    match json_member(j, "articles"@) {
        Some(Json::Array(items)) => items@,
        _ => Seq::empty(),
    }
}

proof fn lemma_prefix_items(items: Seq<Json>, n: nat)
    requires
        n <= items.len(),
        articles_prefix(items, n) is Some,
    ensures
        articles_prefix(items, n)->0.len() == n,
        forall|i: int|
            0 <= i < n ==> article_of(#[trigger] items[i]) == Some(articles_prefix(items, n)->0[i]),
    decreases n,
{
    if n > 0 {
        lemma_prefix_items(items, (n - 1) as nat);
    }
}

/// A document with status `ok` and an array of well-formed articles decodes
/// to a response that holds exactly those articles, in the same order.
pub proof fn lemma_ok_response_keeps_articles(j: Json, r: Result<NewsAPIResponse, NewsApiError>)
    requires
        decodes_to(j, r),
        envelope_status(j) == Some("ok"@),
        envelope_code(j) is Some,
        envelope_articles(j) is Some,
    ensures
        r is Ok,
        r->Ok_0@.2.len() == article_items(j).len(),
        forall|i: int|
            0 <= i < article_items(j).len() ==> article_of(#[trigger] article_items(j)[i]) == Some(
                r->Ok_0@.2[i],
            ),
{
    let items = article_items(j);
    lemma_prefix_items(items, items.len());
}

/// A document whose status is not `ok` and whose code is `apiKeyDisabled`
/// decodes to the error saying that the API key has been disabled, and to no
/// articles.
pub proof fn lemma_disabled_key_error(j: Json, r: Result<NewsAPIResponse, NewsApiError>)
    requires
        decodes_to(j, r),
        envelope_status(j) is Some,
        envelope_status(j) != Some("ok"@),
        envelope_code(j) == Some(Some("apiKeyDisabled"@)),
    ensures
        r is Err,
        r->Err_0 is BadRequest,
        r->Err_0->BadRequest_0@ == "Your API key has been disabled"@,
{
}

/// A document whose status is not `ok` and whose code is missing, null, or
/// any code but `apiKeyDisabled` decodes to the error "Unknown error".
pub proof fn lemma_unknown_code_error(j: Json, r: Result<NewsAPIResponse, NewsApiError>)
    requires
        decodes_to(j, r),
        envelope_status(j) is Some,
        envelope_status(j) != Some("ok"@),
        envelope_code(j) is Some,
        envelope_code(j) != Some(Some("apiKeyDisabled"@)),
    ensures
        r is Err,
        r->Err_0 is BadRequest,
        r->Err_0->BadRequest_0@ == "Unknown error"@,
{
}

/// A body that is not one JSON document decodes to a parse error.
pub proof fn lemma_malformed_body_error(body: Seq<char>, r: Result<NewsAPIResponse, NewsApiError>)
    requires
        body_decodes_to(body, r),
        parsed_json(body) is None,
    ensures
        r is Err,
        r->Err_0 is ArticleParseFailed,
{
}

} // verus!
