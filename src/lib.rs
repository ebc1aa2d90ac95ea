//! Client for a news headlines web API: request URLs, response decoding,
//! error mapping, and the article feed shown by the desktop reader.
pub mod api;
pub mod feed;
pub mod json;
pub mod response;
pub mod web_url;

pub use api::{Country, Endpoint, NewsAPI};
pub use response::{Article, NewsAPIResponse, NewsApiError};
