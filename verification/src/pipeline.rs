//! The two modes of a run, from fetched fragments to output.
//!
//! Fetching is the caller's part. A run starts from what the fetch gave:
//! the raw fragments in the order in which the page showed them, or the
//! reason why there are none.
//!
//! The converter from markup to text is the caller's too, and is handed
//! in as `render`. The library promises not to panic, and cannot promise
//! it of a converter: `html2md::parse_html`, for one, panics on
//! `<p></p><b><li></li></b>`, where a list item stands outside any list,
//! and nothing short of parsing the markup tells such input apart. What
//! the library states of the converted texts, it states of whatever
//! `render` returns; `lemma_pure_converter_fixes_texts` says what follows
//! where `render` is a function of its argument.

use crate::article::{extract_url_headline, extracted, ArticleText, NewsArticle};
use crate::cleaner::{sanitized, CleanerConfig, HtmlCleaner};
use crate::error::GatherError;
use crate::fold::{fold_articles, folded};
use vstd::prelude::*;
use vstd::string::*;

verus! {

/// The search address up to the query.
pub const SEARCH_PREFIX: &'static str = "https://news.google.com/search?q=";

/// The locale parameters that follow the query.
pub const SEARCH_SUFFIX: &'static str = "&hl=en-US&gl=US&ceid=US%3Aen";

/// The address that lists the articles found for `search_query`. The
/// query is put in as it is.
pub fn search_url(search_query: &str) -> (url: String)
    ensures
        url@ == SEARCH_PREFIX@ + search_query@ + SEARCH_SUFFIX@,
{
    let mut url = String::from_str(SEARCH_PREFIX);
    url.append(search_query);
    url.append(SEARCH_SUFFIX);
    url
}

/// The standing policy: scripts and images go, anchors and sources stay,
/// so that links survive into the converted text.
pub open spec fn standard_policy() -> CleanerConfig {
    CleanerConfig {
        remove_script_tags: true,
        remove_a_tags: false,
        remove_img_tags: true,
        remove_source_tags: false,
    }
}

/// The standing policy, as a value.
pub fn standard_config() -> (config: CleanerConfig)
    ensures
        config == standard_policy(),
{
    CleanerConfig {
        remove_script_tags: true,
        remove_a_tags: false,
        remove_img_tags: true,
        remove_source_tags: false,
    }
}

/// `render` may turn `html` into `text`: some call of it on that markup
/// comes back with that text.
pub open spec fn renders<F: Fn(&str) -> String>(render: F, html: Seq<char>, text: Seq<char>) -> bool {
    exists|input: &str, output: String|
        input@ == html && output@ == text && #[trigger] call_ensures(render, (input,), output)
}

/// `text` is what becomes of the fragment `html`: the markup cleaned
/// under `policy` and, where `to_markdown` is set, handed to `render`.
pub open spec fn converts<F: Fn(&str) -> String>(
    render: F,
    to_markdown: bool,
    policy: CleanerConfig,
    html: Seq<char>,
    text: Seq<char>,
) -> bool {
    if to_markdown {
        renders(render, sanitized(html, policy), text)
    } else {
        text == sanitized(html, policy)
    }
}

/// `texts` is what becomes of `elements`: one text for each element, in
/// the same place.
pub open spec fn converts_all<F: Fn(&str) -> String>(
    render: F,
    to_markdown: bool,
    policy: CleanerConfig,
    elements: Seq<Seq<char>>,
    texts: Seq<Seq<char>>,
) -> bool {
    &&& texts.len() == elements.len()
    &&& forall|i: int|
        0 <= i < elements.len() ==> converts(
            render,
            to_markdown,
            policy,
            #[trigger] elements[i],
            texts[i],
        )
}

/// `render` is pure: the text that it returns depends on the characters
/// of the markup alone.
pub open spec fn is_pure<F: Fn(&str) -> String>(render: F) -> bool {
    forall|first: &str, second: &str, one: String, other: String|
        first@ == second@ && #[trigger] call_ensures(render, (first,), one) && #[trigger] call_ensures(
            render,
            (second,),
            other,
        ) ==> one@ == other@
}

/// With a pure converter the converted texts are fixed by the elements
/// and the policy: two conversions of the same elements agree.
pub proof fn lemma_pure_converter_fixes_texts<F: Fn(&str) -> String>(
    render: F,
    to_markdown: bool,
    policy: CleanerConfig,
    elements: Seq<Seq<char>>,
    first: Seq<Seq<char>>,
    second: Seq<Seq<char>>,
)
    requires
        is_pure(render),
        converts_all(render, to_markdown, policy, elements, first),
        converts_all(render, to_markdown, policy, elements, second),
    ensures
        first == second,
{
    assert forall|i: int| 0 <= i < elements.len() implies first[i] == second[i] by {
        assert(converts(render, to_markdown, policy, elements[i], first[i]));
        assert(converts(render, to_markdown, policy, elements[i], second[i]));
    }
    assert(first =~= second);
}

/// The records of the texts that yield one, in the order of the texts.
pub open spec fn mined(texts: Seq<Seq<char>>) -> Seq<ArticleText> {
    texts.filter_map(|text: Seq<char>| extracted(text))
}

/// Whether `text` yields a record.
pub open spec fn has_record(text: Seq<char>) -> bool {
    extracted(text) is Some
}

/// Mining keeps the order of the fragments: what is mined from texts laid
/// end to end is what is mined from the first lot, followed by what is
/// mined from the second.
pub proof fn lemma_mined_concat(head: Seq<Seq<char>>, tail: Seq<Seq<char>>)
    ensures
        mined(head + tail) == mined(head) + mined(tail),
    decreases tail.len(),
{
    if tail.len() == 0 {
        assert(head + tail =~= head);
        assert(mined(head) + mined(tail) =~= mined(head));
    } else {
        lemma_mined_concat(head, tail.drop_last());
        assert((head + tail).drop_last() =~= head + tail.drop_last());
        assert((head + tail).last() == tail.last());
        assert(mined(head + tail) =~= mined(head) + mined(tail));
    }
}

/// Of texts of which some yield a record, mining returns one record for
/// each of those and none for the others, in the order of the texts: the
/// records are the texts that yield one, each replaced by its record.
pub proof fn lemma_mined_in_order(texts: Seq<Seq<char>>)
    ensures
        mined(texts) == texts.filter(|text: Seq<char>| has_record(text)).map_values(
            |text: Seq<char>| extracted(text).unwrap(),
        ),
        mined(texts).len() == texts.filter(|text: Seq<char>| has_record(text)).len(),
    decreases texts.len(),
{
    reveal(Seq::filter);
    let keep = |text: Seq<char>| has_record(text);
    let record = |text: Seq<char>| extracted(text).unwrap();
    if texts.len() > 0 {
        lemma_mined_in_order(texts.drop_last());
        let rest = texts.drop_last().filter(keep);
        if has_record(texts.last()) {
            assert(rest.push(texts.last()).map_values(record) =~= rest.map_values(record).push(
                record(texts.last()),
            ));
        }
    }
    assert(mined(texts) =~= texts.filter(keep).map_values(record));
}

/// Cleans every element under `html_cleaner_config` and, where
/// `to_markdown` is set, hands what is left to `render`. The output has
/// one text for each element, in the same order.
///
/// The converter is the caller's: the library asks of it only that it
/// takes every text.
pub fn clean_html<F: Fn(&str) -> String>(
    elements: &Vec<String>,
    html_cleaner_config: &CleanerConfig,
    to_markdown: bool,
    render: &F,
) -> (out: Vec<String>)
    requires
        forall|html: &str| call_requires(*render, (html,)),
    ensures
        converts_all(
            *render,
            to_markdown,
            *html_cleaner_config,
            elements.deep_view(),
            out.deep_view(),
        ),
{
    let mut out: Vec<String> = Vec::new();
    let mut i: usize = 0;
    while i < elements.len()
        invariant
            i <= elements.len(),
            out.len() == i,
            forall|html: &str| call_requires(*render, (html,)),
            forall|k: int|
                0 <= k < i ==> converts(
                    *render,
                    to_markdown,
                    *html_cleaner_config,
                    (#[trigger] elements[k])@,
                    out[k]@,
                ),
        decreases elements.len() - i,
    {
        let cleaner = HtmlCleaner::new().apply_config(html_cleaner_config);
        let cleaned = cleaner.clean(elements[i].as_str());
        let text = if to_markdown {
            let input = cleaned.as_str();
            let output = render(input);
            assert(call_ensures(*render, (input,), output));
            output
        } else {
            cleaned
        };
        out.push(text);
        i += 1;
    }
    out
}

/// Mines every text and keeps the records found. A text without a record
/// adds nothing and stops nothing.
pub fn extract_all(texts: &Vec<String>) -> (out: Vec<NewsArticle>)
    ensures
        out.deep_view() == mined(texts.deep_view()),
{
    let ghost all = texts.deep_view();
    let ghost pick = |text: Seq<char>| extracted(text);
    let mut out: Vec<NewsArticle> = Vec::new();
    let mut i: usize = 0;
    proof {
        assert(all.take(0) =~= Seq::<Seq<char>>::empty());
        assert(out.deep_view() =~= all.take(0).filter_map(pick));
    }
    while i < texts.len()
        invariant
            i <= texts.len(),
            all == texts.deep_view(),
            pick == |text: Seq<char>| extracted(text),
            out.deep_view() == all.take(i as int).filter_map(pick),
        decreases texts.len() - i,
    {
        let ghost before = out.deep_view();
        proof {
            all.lemma_filter_map_take_succ(pick, i as int);
        }
        match extract_url_headline(texts[i].as_str()) {
            Some(article) => {
                out.push(article);
                assert(out.deep_view() =~= before + seq![article@]);
            },
            None => {
                assert(before + Seq::<ArticleText>::empty() =~= before);
            },
        }
        i += 1;
    }
    proof {
        assert(all.take(i as int) =~= all);
    }
    out
}

/// Single-document mode: every fetched fragment is cleaned under the
/// standing policy and converted by `render`, and the texts are folded
/// into one document. A fetch that failed gives its error back and no
/// document.
pub fn gather_article<F: Fn(&str) -> String>(
    fetched: Result<Vec<String>, GatherError>,
    render: &F,
) -> (out: Result<String, GatherError>)
    requires
        forall|html: &str| call_requires(*render, (html,)),
    ensures
        match fetched {
            Ok(elements) => out matches Ok(document) && exists|texts: Seq<Seq<char>>|
                #[trigger] converts_all(
                    *render,
                    true,
                    standard_policy(),
                    elements.deep_view(),
                    texts,
                ) && document@ == folded(texts),
            Err(error) => out == Err::<String, GatherError>(error),
        },
{
    let config = standard_config();
    gather_article_with(fetched, &config, render)
}

/// Single-document mode under a policy of the caller's choosing: as
/// `gather_article`, but every fragment is cleaned under
/// `html_cleaner_config`.
pub fn gather_article_with<F: Fn(&str) -> String>(
    fetched: Result<Vec<String>, GatherError>,
    html_cleaner_config: &CleanerConfig,
    render: &F,
) -> (out: Result<String, GatherError>)
    requires
        forall|html: &str| call_requires(*render, (html,)),
    ensures
        match fetched {
            Ok(elements) => out matches Ok(document) && exists|texts: Seq<Seq<char>>|
                #[trigger] converts_all(
                    *render,
                    true,
                    *html_cleaner_config,
                    elements.deep_view(),
                    texts,
                ) && document@ == folded(texts),
            Err(error) => out == Err::<String, GatherError>(error),
        },
{
    match fetched {
        Ok(elements) => {
            let parsed_text = clean_html(&elements, html_cleaner_config, true, render);
            Ok(fold_articles(&parsed_text))
        },
        Err(error) => Err(error),
    }
}

/// Multi-article mode: every fetched fragment is cleaned under the
/// standing policy and converted by `render`, and each text is mined on its own.
/// The records come in the order of their fragments. Only a fetch that
/// failed makes the run fail.
pub fn gather_google_articles<F: Fn(&str) -> String>(
    fetched: Result<Vec<String>, GatherError>,
    render: &F,
) -> (out: Result<Vec<NewsArticle>, GatherError>)
    requires
        forall|html: &str| call_requires(*render, (html,)),
    ensures
        match fetched {
            Ok(elements) => out matches Ok(articles) && exists|texts: Seq<Seq<char>>|
                #[trigger] converts_all(
                    *render,
                    true,
                    standard_policy(),
                    elements.deep_view(),
                    texts,
                ) && articles.deep_view() == mined(texts),
            Err(error) => out == Err::<Vec<NewsArticle>, GatherError>(error),
        },
{
    match fetched {
        Ok(elements) => {
            let config = standard_config();
            let parsed_text = clean_html(&elements, &config, true, render);
            Ok(extract_all(&parsed_text))
        },
        Err(error) => Err(error),
    }
}

} // verus!
