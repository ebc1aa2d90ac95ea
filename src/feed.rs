//! The reader's side: the cards it shows, its settings, and the decisions of
//! the background worker that fetches articles.
use vstd::prelude::*;
use crate::response::{article_views, opt_text, Article};

verus! {

/// A signal from the window to the background worker.
pub enum Msg {
    /// A credential was entered.
    ApiKeySet(String),
    /// The refresh button was pressed.
    RefreshHit(bool),
}

/// The persisted settings: the theme and the credential.
pub struct HeadlinesConfig {
    pub dark_mode: bool,
    pub api_key: String,
}

impl Default for HeadlinesConfig {
    fn default() -> (r: HeadlinesConfig)
        ensures
            !r.dark_mode,
            r.api_key@ == Seq::<char>::empty(),
    {
        HeadlinesConfig { dark_mode: false, api_key: String::new() }
    }
}

/// An article as the window shows it.
pub struct NewsCardData {
    pub title: String,
    pub desc: String,
    pub url: String,
}

/// The view of a card: title, description and link.
pub type CardView = (Seq<char>, Seq<char>, Seq<char>);

impl View for NewsCardData {
    type V = CardView;

    open spec fn view(&self) -> CardView {
        (self.title@, self.desc@, self.url@)
    }
}

/// The views of a sequence of cards.
pub open spec fn card_views(c: Seq<NewsCardData>) -> Seq<CardView> {
    c.map_values(|x: NewsCardData| x@)
}

/// The text shown for an article without a description.
pub open spec fn missing_description() -> Seq<char> {
    "..."@
}

/// The card that shows an article.
pub open spec fn card_of(a: (Seq<char>, Seq<char>, Option<Seq<char>>)) -> CardView {
    (
        a.0,
        match a.2 {
            Some(d) => d,
            None => missing_description(),
        },
        a.1,
    )
}

/// The cards that show the articles of a fetch, in the same order.
pub fn cards_from_articles(articles: &Vec<Article>) -> (r: Vec<NewsCardData>)
    ensures
        card_views(r@) == article_views(articles@).map_values(
            |a: (Seq<char>, Seq<char>, Option<Seq<char>>)| card_of(a),
        ),
{
    let mut out: Vec<NewsCardData> = Vec::new();
    let mut i: usize = 0;
    while i < articles.len()
        invariant
            i <= articles@.len(),
            card_views(out@) == article_views(articles@.take(i as int)).map_values(
                |a: (Seq<char>, Seq<char>, Option<Seq<char>>)| card_of(a),
            ),
        decreases articles.len() - i,
    {
        let a = &articles[i];
        let desc = match a.desc() {
            Some(d) => d.clone(),
            None => {
                proof {
                    reveal_strlit("...");
                }
                "...".to_owned()
            },
        };
        let card = NewsCardData { title: a.title().to_owned(), desc, url: a.url().to_owned() };
        let ghost before = out@;
        out.push(card);
        proof {
            assert(articles@.take(i + 1) =~= articles@.take(i as int).push(articles@[i as int]));
            assert(card_views(out@) =~= card_views(before).push(card@));
            assert(article_views(articles@.take(i + 1)) =~= article_views(
                articles@.take(i as int),
            ).push(articles@[i as int]@));
        }
        i = i + 1;
    }
    proof {
        assert(articles@.take(articles@.len() as int) =~= articles@);
    }
    out
}

} // verus!

verus! {

/// The window's state: the cards received so far, the settings, and whether
/// a credential has been entered.
pub struct Headlines {
    pub articles: Vec<NewsCardData>,
    pub config: HeadlinesConfig,
    pub api_key_initialized: bool,
}

/// The cards after receiving `received`, one per render pass, in order.
pub open spec fn after_receiving(cards: Seq<CardView>, received: Seq<CardView>) -> Seq<CardView>
    decreases received.len(),
{
    if received.len() == 0 {
        cards
    } else {
        after_receiving(cards, received.drop_last()).push(received.last())
    }
}

impl Headlines {
    /// The window's state for the loaded settings, with no cards yet.
    pub fn new(config: HeadlinesConfig) -> (r: Headlines)
        ensures
            r.articles@.len() == 0,
            r.api_key_initialized == (config.api_key@.len() > 0),
            r.config == config,
    {
        let initialized = !config.api_key.as_str().is_empty();
        Headlines { articles: Vec::new(), config, api_key_initialized: initialized }
    }

    /// Appends the card received on this render pass, if one came.
    pub fn preload_articles(&mut self, received: Option<NewsCardData>)
        ensures
            received is None ==> card_views(final(self).articles@) == card_views(old(self).articles@),
            received is Some ==> card_views(final(self).articles@) == card_views(
                old(self).articles@,
            ).push(received->0@),
            final(self).config == old(self).config,
            final(self).api_key_initialized == old(self).api_key_initialized,
    {
        match received {
            Some(news_data) => {
                let ghost before = self.articles@;
                self.articles.push(news_data);
                proof {
                    assert(card_views(self.articles@) =~= card_views(before).push(news_data@));
                }
            },
            None => {},
        }
    }

    /// Records that the credential in the settings was entered, and gives the
    /// signal that hands it to the worker.
    pub fn submit_api_key(&mut self) -> (r: Msg)
        ensures
            final(self).api_key_initialized,
            final(self).config == old(self).config,
            card_views(final(self).articles@) == card_views(old(self).articles@),
            r matches Msg::ApiKeySet(k) && k@ == old(self).config.api_key@,
    {
        self.api_key_initialized = true;
        Msg::ApiKeySet(self.config.api_key.clone())
    }

    /// Switches between the dark and the light theme.
    pub fn toggle_theme(&mut self)
        ensures
            final(self).config.dark_mode == !old(self).config.dark_mode,
            final(self).config.api_key == old(self).config.api_key,
            final(self).api_key_initialized == old(self).api_key_initialized,
            card_views(final(self).articles@) == card_views(old(self).articles@),
    {
        self.config.dark_mode = !self.config.dark_mode;
    }
}

/// The background worker's state: the credential it last received.
pub struct FeedWorker {
    api_key: String,
}

impl View for FeedWorker {
    type V = Seq<char>;

    closed spec fn view(&self) -> Seq<char> {
        self.api_key@
    }
}

impl FeedWorker {
    /// A worker that starts with the credential of the settings, possibly empty.
    pub fn new(api_key: &str) -> (r: FeedWorker)
        ensures
            r@ == api_key@,
    {
        FeedWorker { api_key: api_key.to_owned() }
    }

    /// The credential to fetch with at start, where one is configured.
    pub fn startup_fetch(&self) -> (r: Option<String>)
        ensures
            self@.len() > 0 <==> r is Some,
            r is Some ==> r->0@ == self@,
    {
        if self.api_key.as_str().is_empty() {
            None
        } else {
            Some(self.api_key.clone())
        }
    }

    /// Handles a signal: the credential to fetch with, if the signal asks for
    /// a fetch. A new credential is kept for later refreshes.
    pub fn handle(&mut self, msg: Msg) -> (r: Option<String>)
        ensures
            match msg {
                Msg::ApiKeySet(k) => final(self)@ == k@ && r is Some && r->0@ == k@,
                Msg::RefreshHit(hit) => final(self)@ == old(self)@ && (r is Some <==> hit) && (
                r is Some ==> r->0@ == old(self)@),
            },
    {
        match msg {
            Msg::ApiKeySet(k) => {
                self.api_key = k.clone();
                Some(k)
            },
            Msg::RefreshHit(hit) => {
                if hit {
                    Some(self.api_key.clone())
                } else {
                    None
                }
            },
        }
    }
}

proof fn lemma_after_receiving_appends(cards: Seq<CardView>, received: Seq<CardView>)
    ensures
        after_receiving(cards, received) == cards + received,
    decreases received.len(),
{
    if received.len() > 0 {
        lemma_after_receiving_appends(cards, received.drop_last());
        assert(cards + received =~= (cards + received.drop_last()).push(received.last()));
    }
}

/// The cards of two fetches in a row, received one by one, follow the cards
/// already shown, in the order they arrived, with none removed and none
/// merged.
pub proof fn lemma_refreshes_append(cards: Seq<CardView>, first: Seq<CardView>, second: Seq<CardView>)
    ensures
        after_receiving(after_receiving(cards, first), second) == cards + first + second,
        after_receiving(after_receiving(cards, first), second).len() == cards.len() + first.len()
            + second.len(),
        after_receiving(after_receiving(cards, first), second).take(cards.len() as int) == cards,
{
    lemma_after_receiving_appends(cards, first);
    lemma_after_receiving_appends(cards + first, second);
    assert((cards + first + second).take(cards.len() as int) =~= cards);
}

} // verus!
