//! The client: the endpoint and country of a request, and its URL.
use vstd::prelude::*;
use vstd::string::StringExecFns;
use crate::response::NewsApiError;
use crate::web_url::{
    has_no_query_or_fragment, is_plain_char, is_plain_http_url, is_plain_query, is_plain_segment,
    parse_url, parsed_url, push_segment, set_query, url_with_query, url_with_segment,
};

verus! {

/// The API route a request goes to.
pub enum Endpoint {
    TopHeadlines,
}

/// The path segment of an endpoint.
pub open spec fn endpoint_segment(e: Endpoint) -> Seq<char> {
    match e {
        Endpoint::TopHeadlines => "top-headlines"@,
    }
}

impl Endpoint {
    pub fn to_string(&self) -> (r: String)
        ensures
            r@ == endpoint_segment(*self),
    {
        proof {
            reveal_strlit("top-headlines");
        }
        match self {
            Endpoint::TopHeadlines => "top-headlines".to_owned(),
        }
    }
}

/// The countries whose headlines can be requested.
pub enum Country {
    Us,
    Sg,
    Gb,
}

/// The two-letter code of a country, as sent in the query.
pub open spec fn country_code(c: Country) -> Seq<char> {
    match c {
        Country::Us => "us"@,
        Country::Sg => "sg"@,
        Country::Gb => "gb"@,
    }
}

impl Country {
    pub fn to_string(&self) -> (r: String)
        ensures
            r@ == country_code(*self),
    {
        proof {
            reveal_strlit("us");
            reveal_strlit("sg");
            reveal_strlit("gb");
        }
        match self {
            Country::Us => "us".to_owned(),
            Country::Sg => "sg".to_owned(),
            Country::Gb => "gb".to_owned(),
        }
    }
}


/// The address of the service.
pub const BASE_URL: &'static str = "https://newsapi.org/v2";

/// The URL of a request to `endpoint` for `country` on the service at `base`.
pub open spec fn request_url(base: Seq<char>, endpoint: Endpoint, country: Country) -> Option<
    Seq<char>,
> {
    match parsed_url(base) {
        Some(b) => match url_with_segment(b, endpoint_segment(endpoint)) {
            Some(p) => url_with_query(p, "country="@ + country_code(country)),
            None => None,
        },
        None => None,
    }
}

/// The service at `base` parses to a plain `http(s)` URL, which, and which
/// with the endpoint's segment appended, the parser gives back unchanged.
pub open spec fn is_canonical_base(base: Seq<char>, endpoint: Endpoint) -> bool {
    let b = parsed_url(base)->0;
    parsed_url(base) is Some && is_plain_http_url(b) && parsed_url(b) == Some(b) && parsed_url(
        b + "/"@ + endpoint_segment(endpoint),
    ) == Some(b + "/"@ + endpoint_segment(endpoint))
}

proof fn lemma_segment_is_plain(e: Endpoint)
    ensures
        is_plain_segment(endpoint_segment(e)),
{
    reveal_strlit("top-headlines");
}

proof fn lemma_query_is_plain(c: Country)
    ensures
        is_plain_query("country="@ + country_code(c)),
{
    reveal_strlit("country=");
    reveal_strlit("us");
    reveal_strlit("sg");
    reveal_strlit("gb");
    let q = "country="@ + country_code(c);
    assert forall|i: int| 0 <= i < q.len() implies is_plain_char(#[trigger] q[i]) || q[i] == '='
        || q[i] == '&' by {
        if i < 8 {
            assert(q[i] == "country="@[i]);
        } else {
            assert(q[i] == country_code(c)[i - 8]);
        }
    }
}

proof fn lemma_path_keeps_no_query(b: Seq<char>, seg: Seq<char>)
    requires
        has_no_query_or_fragment(b),
        is_plain_segment(seg),
    ensures
        has_no_query_or_fragment(b + "/"@ + seg),
{
    reveal_strlit("/");
    let u = b + "/"@ + seg;
    assert forall|i: int| 0 <= i < u.len() implies #[trigger] u[i] != '?' && u[i] != '#' by {
        if i < b.len() {
            assert(u[i] == b[i]);
        } else if i == b.len() {
            assert(u[i] == '/');
        } else {
            assert(u[i] == seg[i - b.len() - 1]);
        }
    }
}

/// A client of the service: the credential, the endpoint and the country of
/// its requests.
pub struct NewsAPI {
    api_key: String,
    endpoint: Endpoint,
    country: Country,
}

impl View for NewsAPI {
    type V = (Seq<char>, Endpoint, Country);

    closed spec fn view(&self) -> Self::V {
        (self.api_key@, self.endpoint, self.country)
    }
}

impl NewsAPI {
    /// A client with the given credential, for top headlines in the US.
    pub fn new(api_key: &str) -> (r: NewsAPI)
        ensures
            r@ == (api_key@, Endpoint::TopHeadlines, Country::Us),
    {
        NewsAPI { api_key: api_key.to_owned(), endpoint: Endpoint::TopHeadlines, country: Country::Us }
    }

    pub fn endpoint(&mut self, endpoint: Endpoint) -> (r: &mut NewsAPI)
        ensures
            r@ == (old(self)@.0, endpoint, old(self)@.2),
            *final(self) == *final(r),
    {
        self.endpoint = endpoint;
        self
    }

    pub fn country(&mut self, country: Country) -> (r: &mut NewsAPI)
        ensures
            r@ == (old(self)@.0, old(self)@.1, country),
            *final(self) == *final(r),
    {
        self.country = country;
        self
    }

    /// The credential, sent as the `Authorization` header.
    pub fn api_key(&self) -> (r: &str)
        ensures
            r@ == self@.0,
    {
        self.api_key.as_str()
    }

    /// The URL of this client's request.
    pub fn prepare_url(&self) -> (r: Result<String, NewsApiError>)
        ensures
            r is Ok <==> request_url(BASE_URL@, self@.1, self@.2) is Some,
            r is Ok ==> request_url(BASE_URL@, self@.1, self@.2) == Some(r->Ok_0@),
            parsed_url(BASE_URL@) is None ==> r is Err && r->Err_0 is UrlParsingFailed,
            parsed_url(BASE_URL@) is Some && r is Err ==> r->Err_0 is BadRequest,
            is_canonical_base(BASE_URL@, self@.1) ==> r is Ok && r->Ok_0@ == parsed_url(
                BASE_URL@,
            )->0 + "/"@ + endpoint_segment(self@.1) + "?country="@ + country_code(self@.2),
    {
        let base = match parse_url(BASE_URL) {
            Ok(b) => b,
            Err(e) => return Err(NewsApiError::UrlParsingFailed(e)),
        };
        let segment = self.endpoint.to_string();
        proof {
            lemma_segment_is_plain(self.endpoint);
        }
        let with_path = match push_segment(base.as_str(), segment.as_str()) {
            Some(u) => u,
            None => return Err(NewsApiError::BadRequest("the URL cannot take a path")),
        };
        let mut query = "country=".to_owned();
        let code = self.country.to_string();
        query.append(code.as_str());
        proof {
            reveal_strlit("country=");
            lemma_query_is_plain(self.country);
            if is_canonical_base(BASE_URL@, self@.1) {
                lemma_path_keeps_no_query(base@, segment@);
                assert(with_path@ == base@ + "/"@ + segment@);
                reveal_strlit("?");
                reveal_strlit("?country=");
                assert(with_path@ + "?"@ + query@ =~= base@ + "/"@ + segment@ + "?country="@
                    + code@);
            }
        }
        match set_query(with_path.as_str(), query.as_str()) {
            Some(u) => Ok(u),
            None => Err(NewsApiError::BadRequest("the URL cannot take a query")),
        }
    }
}

} // verus!
