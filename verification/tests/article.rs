use news_gather::article::article_from_captures;
use news_gather::{extract_url_headline, NewsArticle};

#[test]
fn parse_google_news_article() {
    let example = "[](./articles/CBMiRWh0dHBzOi8vd3d3LndpcmVkLmNvbS9zdG9yeS9ob3ctdG8tdXNlLWdvb2dsZS1nZW1pbmktYWktYmFyZC1jaGF0Ym90L9IBAA?hl=en-US&gl=US&ceid=US%3Aen)\n\nWIRED\n\nMore\n\n[\n\n#### How to Use Google's Gemini AI Right Now in Its Bard Chatbot ####\n\n](./articles/CBMiRWh0dHBzOi8vd3d3LndpcmVkLmNvbS9zdG9yeS9ob3ctdG8tdXNlLWdvb2dsZS1nZW1pbmktYWktYmFyZC1jaGF0Ym90L9IBAA?hl=en-US&gl=US&ceid=US%3Aen)\n\n4 days ago\n---\n\nReece RogersBy Reece Rogers";

    let article = extract_url_headline(&example).unwrap();

    println!("Last vector: {:?}", article);

    assert!(article.headline.len() > 0 && article.url.len() > 0);
}

#[test]
fn example_fragment_gives_its_link_and_headline() {
    let example = "[](./articles/CBMiRWh0dHBzOi8vd3d3LndpcmVkLmNvbS9zdG9yeS9ob3ctdG8tdXNlLWdvb2dsZS1nZW1pbmktYWktYmFyZC1jaGF0Ym90L9IBAA?hl=en-US&gl=US&ceid=US%3Aen)\n\nWIRED\n\nMore\n\n[\n\n#### How to Use Google's Gemini AI Right Now in Its Bard Chatbot ####\n\n](./articles/other)\n\n4 days ago";
    let article = extract_url_headline(example).unwrap();
    assert_eq!(
        article.url,
        "https://news.google.com/articles/CBMiRWh0dHBzOi8vd3d3LndpcmVkLmNvbS9zdG9yeS9ob3ctdG8tdXNlLWdvb2dsZS1nZW1pbmktYWktYmFyZC1jaGF0Ym90L9IBAA?hl=en-US&gl=US&ceid=US%3Aen"
    );
    assert_eq!(article.headline, "How to Use Google's Gemini AI Right Now in Its Bard Chatbot");
}

#[test]
fn link_and_headline_give_a_record() {
    let article = extract_url_headline("[x](./path?query) and #### Title ####").unwrap();
    assert_eq!(article.url, "https://news.google.com/path?query");
    assert_eq!(article.headline, "Title");
}

#[test]
fn headline_before_link_gives_a_record_too() {
    let article = extract_url_headline("#### Title ####\n[x](./path)").unwrap();
    assert_eq!(article.url, "https://news.google.com/path");
    assert_eq!(article.headline, "Title");
}

#[test]
fn headline_without_link_gives_nothing() {
    assert!(extract_url_headline("#### Title ####").is_none());
}

#[test]
fn link_without_headline_gives_nothing() {
    assert!(extract_url_headline("[x](./path?query)").is_none());
}

#[test]
fn text_without_either_gives_nothing() {
    assert!(extract_url_headline("nothing to see").is_none());
    assert!(extract_url_headline("").is_none());
}

#[test]
fn only_the_first_link_and_headline_count() {
    let text = "[a](./first) [b](./second) #### One #### and #### Two ####";
    let article = extract_url_headline(text).unwrap();
    assert_eq!(article.url, "https://news.google.com/first");
    assert_eq!(article.headline, "One");
}

#[test]
fn link_must_stand_on_one_line() {
    assert!(extract_url_headline("[x](./pa\nth) #### Title ####").is_none());
}

#[test]
fn headline_markers_need_their_spaces() {
    assert!(extract_url_headline("[x](./path) ####Title####").is_none());
}

#[test]
fn empty_headline_is_no_headline() {
    assert!(extract_url_headline("[x](./path) ####  ####").is_none());
    assert!(article_from_captures(Some("./path".to_string()), Some(String::new())).is_none());
}

#[test]
fn headline_of_one_space_is_a_headline() {
    let article = extract_url_headline("[x](./path) ####   ####").unwrap();
    assert_eq!(article.headline, " ");
    assert_eq!(article.url, "https://news.google.com/path");
}

#[test]
fn an_empty_headline_does_not_make_way_for_the_next() {
    assert!(extract_url_headline("[x](./path) ####  #### and #### Two ####").is_none());
}

#[test]
fn empty_target_gives_the_bare_origin() {
    let article = extract_url_headline("[x]() #### Title ####").unwrap();
    assert_eq!(article.url, "https://news.google.com");
    assert_eq!(article.headline, "Title");
}

#[test]
fn captures_without_headline_give_nothing() {
    assert!(article_from_captures(Some("./path".to_string()), None).is_none());
}

#[test]
fn captures_without_link_give_nothing() {
    assert!(article_from_captures(None, Some("Title".to_string())).is_none());
    assert!(article_from_captures(None, None).is_none());
}

#[test]
fn captures_drop_the_first_character_of_the_target() {
    let article =
        article_from_captures(Some("./path?query".to_string()), Some("Title".to_string())).unwrap();
    assert_eq!(article.url, "https://news.google.com/path?query");
    assert_eq!(article.headline, "Title");
}

#[test]
fn captures_drop_a_first_character_of_several_bytes() {
    let article =
        article_from_captures(Some("\u{e9}/path".to_string()), Some("T".to_string())).unwrap();
    assert_eq!(article.url, "https://news.google.com/path");
}

#[test]
fn captures_with_a_target_of_one_character() {
    let article = article_from_captures(Some(".".to_string()), Some("T".to_string())).unwrap();
    assert_eq!(article.url, "https://news.google.com");
}

#[test]
fn to_string_is_the_headline() {
    let article = NewsArticle {
        url: "https://news.google.com/path".to_string(),
        headline: "Title".to_string(),
    };
    assert_eq!(article.to_string(), "Title");
}

#[test]
fn every_link_starts_with_the_origin() {
    for target in ["", ".", "./path", "x", "../up?q=1"] {
        let article =
            article_from_captures(Some(target.to_string()), Some("T".to_string())).unwrap();
        assert!(article.url.starts_with("https://news.google.com"));
        assert!(!article.url.is_empty());
        assert!(!article.headline.is_empty());
    }
}

#[test]
fn a_record_holds_text_of_the_fragment() {
    let text = "see [here](./articles/abc?x=1) for #### Some News ####";
    let article = extract_url_headline(text).unwrap();
    assert!(text.contains(article.headline.as_str()));
    assert!(text.contains(&article.url["https://news.google.com".len()..]));
}
