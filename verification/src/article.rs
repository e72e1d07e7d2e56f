//! Structured records mined from converted text.
//!
//! A fragment yields a record when it holds both a markdown link and a
//! headline set between `####` markers. The first link and the first
//! headline are taken; a fragment with only one of the two, or with
//! nothing between the markers, yields nothing.

use crate::patterns::{first_capture, occurs_in, regex_capture, text_of};
use vstd::prelude::*;
use vstd::string::*;

verus! {

/// The origin that every stored link starts with.
pub const URL_BASE: &'static str = "https://news.google.com";

/// A markdown link, `[text](target)`; group 1 is the target.
pub const LINK_PATTERN: &'static str = "\\[.*?\\]\\((.*?)\\)";

/// A headline between `####` markers; group 1 is the headline.
pub const HEADLINE_PATTERN: &'static str = "#### (.*?) ####";

/// A link target together with the headline printed beside it.
#[derive(Debug)]
pub struct NewsArticle {
    pub url: String,
    pub headline: String,
}

/// What a `NewsArticle` holds, as sequences of characters.
pub struct ArticleText {
    pub url: Seq<char>,
    pub headline: Seq<char>,
}

impl View for NewsArticle {
    type V = ArticleText;

    open spec fn view(&self) -> ArticleText {
        ArticleText { url: self.url@, headline: self.headline@ }
    }
}

impl DeepView for NewsArticle {
    type V = ArticleText;

    open spec fn deep_view(&self) -> ArticleText {
        self.view()
    }
}

impl NewsArticle {
    /// The headline alone.
    pub fn to_string(&self) -> (text: String)
        ensures
            text@ == self.headline@,
    {
        self.headline.clone()
    }
}

/// The record that an optional article stands for.
pub open spec fn record_of(article: Option<NewsArticle>) -> Option<ArticleText> {
    match article {
        Some(a) => Some(a@),
        None => None,
    }
}

/// `s` without its first character; the empty sequence stays empty.
pub open spec fn without_first(s: Seq<char>) -> Seq<char> {
    if s.len() == 0 {
        s
    } else {
        s.subrange(1, s.len() as int)
    }
}

/// Whether a capture is a headline: it is there and it is not empty.
pub open spec fn is_headline(capture: Option<Seq<char>>) -> bool {
    match capture {
        Some(title) => title.len() > 0,
        None => false,
    }
}

/// The record made of a captured link target and a captured headline: the
/// base origin followed by the target less its first character, and the
/// headline as captured. There is no record unless both were captured and
/// the headline holds a character at least: a pair of markers with
/// nothing between them is no headline.
pub open spec fn article_of(link: Option<Seq<char>>, headline: Option<Seq<char>>) -> Option<
    ArticleText,
> {
    match (link, headline) {
        (Some(target), Some(title)) => if title.len() > 0 {
            Some(ArticleText { url: URL_BASE@ + without_first(target), headline: title })
        } else {
            None
        },
        _ => None,
    }
}

/// The record that `text` yields: `article_of` the first link target and
/// the first headline in it.
pub open spec fn extracted(text: Seq<char>) -> Option<ArticleText> {
    article_of(regex_capture(LINK_PATTERN@, text, 1), regex_capture(HEADLINE_PATTERN@, text, 1))
}

/// `url` is the base origin followed by a run of characters of `text` less
/// the first of them.
pub open spec fn links_into(url: Seq<char>, text: Seq<char>) -> bool {
    exists|target: Seq<char>|
        occurs_in(target, text) && url == URL_BASE@ + #[trigger] without_first(target)
}

/// Builds the record from what the two searches captured.
pub fn article_from_captures(link: Option<String>, headline: Option<String>) -> (out: Option<
    NewsArticle,
>)
    ensures
        record_of(out) == article_of(text_of(link), text_of(headline)),
        out is Some <==> link is Some && is_headline(text_of(headline)),
        out matches Some(article) ==> article.url@.len() > 0 && article.headline@.len() > 0,
{
    match (link, headline) {
        (Some(target), Some(title)) => {
            if title.as_str().is_empty() {
                return None;
            }
            let len = target.as_str().unicode_len();
            let mut url = String::from_str(URL_BASE);
            proof {
                reveal_strlit("https://news.google.com");
            }
            if len > 0 {
                url.append(target.as_str().substring_char(1, len));
            } else {
                assert(url@ + without_first(target@) =~= url@);
            }
            Some(NewsArticle { url, headline: title })
        },
        _ => None,
    }
}

/// Searches `text` for its first markdown link and its first headline and
/// builds the record from them. A record invents nothing: its headline
/// and the path of its link stand in `text`.
pub fn extract_url_headline(text: &str) -> (out: Option<NewsArticle>)
    ensures
        record_of(out) == extracted(text@),
        out matches Some(article) ==> article.url@.len() > 0 && article.headline@.len() > 0,
        out matches Some(article) ==> occurs_in(article.headline@, text@) && links_into(
            article.url@,
            text@,
        ),
{
    let link = first_capture(LINK_PATTERN, text, 1);
    let headline = first_capture(HEADLINE_PATTERN, text, 1);
    article_from_captures(link, headline)
}

/// The link of a record is never empty: it starts with the base origin.
pub proof fn lemma_link_starts_with_origin(link: Option<Seq<char>>, headline: Option<Seq<char>>)
    ensures
        URL_BASE@.len() > 0,
        article_of(link, headline) matches Some(record) ==> record.url.len() >= URL_BASE@.len()
            && record.url.subrange(0, URL_BASE@.len() as int) == URL_BASE@,
{
    reveal_strlit("https://news.google.com");
    if let Some(record) = article_of(link, headline) {
        assert(record.url.subrange(0, URL_BASE@.len() as int) =~= URL_BASE@);
    }
}

/// A record is never partial: a text yields one exactly when both the
/// link and a headline that is not empty were found in it, and then
/// neither field of the record is empty.
pub proof fn lemma_record_needs_both(text: Seq<char>)
    ensures
        extracted(text) is Some <==> regex_capture(LINK_PATTERN@, text, 1) is Some
            && is_headline(regex_capture(HEADLINE_PATTERN@, text, 1)),
        extracted(text) matches Some(record) ==> record.url.len() > 0 && record.headline.len()
            > 0,
{
    reveal_strlit("https://news.google.com");
}

} // verus!
