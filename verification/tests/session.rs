use fantoccini::error::CmdError;
use news_gather::session::{diverged, Fetch, FetchAction, FetchEvent, Selector, SessionState};
use news_gather::GatherError;

fn located(found: usize) -> Fetch {
    Fetch::begin(SessionState::Open)
        .advance(FetchEvent::Navigated(Ok(())))
        .advance(FetchEvent::Address(Ok("https://example.org/".to_string())))
        .advance(FetchEvent::Found(Ok(found)))
}

#[test]
fn closing_an_open_session_tears_it_down() {
    assert_eq!(SessionState::Open.close(), (SessionState::Closed, true));
}

#[test]
fn closing_a_closed_session_does_nothing() {
    assert_eq!(SessionState::Closed.close(), (SessionState::Closed, false));
}

#[test]
fn an_open_session_passes() {
    assert!(SessionState::Open.require_open().is_ok());
}

#[test]
fn a_closed_session_is_turned_down() {
    assert!(matches!(SessionState::Closed.require_open(), Err(GatherError::SessionDropped())));
}

#[test]
fn selectors_are_article_and_body() {
    assert_eq!(Selector::Article.css(), "article");
    assert_eq!(Selector::Body.css(), "body");
}

#[test]
fn a_fetch_on_a_closed_session_fails_at_once() {
    let fetch = Fetch::begin(SessionState::Closed);
    assert_eq!(fetch.action(), FetchAction::Stop);
    assert!(matches!(fetch.outcome(), Some(Err(GatherError::SessionDropped()))));
}

#[test]
fn a_fetch_asks_in_order() {
    let fetch = Fetch::begin(SessionState::Open);
    assert_eq!(fetch.action(), FetchAction::Navigate);
    let fetch = fetch.advance(FetchEvent::Navigated(Ok(())));
    assert_eq!(fetch.action(), FetchAction::ReadAddress);
    let fetch = fetch.advance(FetchEvent::Address(Ok("https://elsewhere.example/".to_string())));
    assert_eq!(fetch.action(), FetchAction::Find(Selector::Article));
    let fetch = fetch.advance(FetchEvent::Found(Ok(2)));
    assert_eq!(fetch.action(), FetchAction::ReadMarkup(0));
    let fetch = fetch.advance(FetchEvent::Markup(Ok("<article>a</article>".to_string())));
    assert_eq!(fetch.action(), FetchAction::ReadMarkup(1));
    let fetch = fetch.advance(FetchEvent::Markup(Ok("<article>b</article>".to_string())));
    assert_eq!(fetch.action(), FetchAction::Stop);
    let fragments = fetch.outcome().unwrap().unwrap();
    assert_eq!(fragments, vec!["<article>a</article>".to_string(), "<article>b</article>".to_string()]);
}

#[test]
fn an_unfinished_fetch_has_no_outcome() {
    assert!(Fetch::begin(SessionState::Open).outcome().is_none());
    assert!(located(3).outcome().is_none());
    assert!(located(1).advance(FetchEvent::Markup(Ok("x".to_string()))).outcome().is_some());
}

#[test]
fn a_page_without_articles_falls_back_to_the_body() {
    let fetch = located(0);
    assert_eq!(fetch.action(), FetchAction::Find(Selector::Body));
    let fetch = fetch.advance(FetchEvent::Found(Ok(1)));
    assert_eq!(fetch.action(), FetchAction::ReadMarkup(0));
    let fetch = fetch.advance(FetchEvent::Markup(Ok("<body>b</body>".to_string())));
    assert_eq!(fetch.outcome().unwrap().unwrap(), vec!["<body>b</body>".to_string()]);
}

#[test]
fn articles_that_cannot_be_located_stop_the_run() {
    let fetch = Fetch::begin(SessionState::Open)
        .advance(FetchEvent::Navigated(Ok(())))
        .advance(FetchEvent::Address(Ok("u".to_string())))
        .advance(FetchEvent::Found(Err(CmdError::WaitTimeout)));
    assert_eq!(fetch.action(), FetchAction::Stop);
    assert!(matches!(fetch.outcome(), Some(Err(GatherError::CmdError(CmdError::WaitTimeout)))));
}

#[test]
fn a_failed_search_for_articles_hands_its_own_error_on() {
    let fetch = Fetch::begin(SessionState::Open)
        .advance(FetchEvent::Navigated(Ok(())))
        .advance(FetchEvent::Address(Ok("u".to_string())))
        .advance(FetchEvent::Found(Err(CmdError::NotJson("bad".to_string()))))
        .advance(FetchEvent::Found(Ok(1)));
    match fetch.outcome() {
        Some(Err(GatherError::CmdError(CmdError::NotJson(text)))) => assert_eq!(text, "bad"),
        _ => panic!("the failure was not handed on"),
    }
}

#[test]
fn a_body_that_cannot_be_located_stops_the_run() {
    let fetch = located(0).advance(FetchEvent::Found(Err(CmdError::WaitTimeout)));
    assert_eq!(fetch.action(), FetchAction::Stop);
    assert!(matches!(fetch.outcome(), Some(Err(GatherError::CmdError(CmdError::WaitTimeout)))));
}

#[test]
fn a_page_without_a_body_gives_no_fragments() {
    let fetch = located(0).advance(FetchEvent::Found(Ok(0)));
    assert_eq!(fetch.action(), FetchAction::Stop);
    assert!(fetch.outcome().unwrap().unwrap().is_empty());
}

#[test]
fn a_failed_navigation_stops_the_run() {
    let failure = CmdError::NotJson("no".to_string());
    let fetch = Fetch::begin(SessionState::Open).advance(FetchEvent::Navigated(Err(failure)));
    assert_eq!(fetch.action(), FetchAction::Stop);
    match fetch.outcome() {
        Some(Err(GatherError::CmdError(CmdError::NotJson(text)))) => assert_eq!(text, "no"),
        _ => panic!("the navigation failure was not handed on"),
    }
}

#[test]
fn an_address_that_cannot_be_told_stops_the_run() {
    let fetch = Fetch::begin(SessionState::Open)
        .advance(FetchEvent::Navigated(Ok(())))
        .advance(FetchEvent::Address(Err(CmdError::WaitTimeout)));
    assert!(matches!(fetch.outcome(), Some(Err(GatherError::CmdError(CmdError::WaitTimeout)))));
}

#[test]
fn an_element_that_cannot_be_read_counts_as_empty() {
    let fetch = located(3)
        .advance(FetchEvent::Markup(Ok("a".to_string())))
        .advance(FetchEvent::Markup(Err(CmdError::WaitTimeout)))
        .advance(FetchEvent::Markup(Ok("c".to_string())));
    assert_eq!(
        fetch.outcome().unwrap().unwrap(),
        vec!["a".to_string(), String::new(), "c".to_string()]
    );
}

#[test]
fn an_answer_that_was_not_asked_for_changes_nothing() {
    let fetch = Fetch::begin(SessionState::Open).advance(FetchEvent::Found(Ok(2)));
    assert_eq!(fetch.action(), FetchAction::Navigate);
    let fetch = located(2).advance(FetchEvent::Navigated(Ok(())));
    assert_eq!(fetch.action(), FetchAction::ReadMarkup(0));
}

#[test]
fn a_run_that_is_over_stays_over() {
    let fetch = Fetch::begin(SessionState::Closed).advance(FetchEvent::Navigated(Ok(())));
    assert!(matches!(fetch.outcome(), Some(Err(GatherError::SessionDropped()))));
    let fetch = located(1)
        .advance(FetchEvent::Markup(Ok("a".to_string())))
        .advance(FetchEvent::Markup(Ok("b".to_string())));
    assert_eq!(fetch.outcome().unwrap().unwrap(), vec!["a".to_string()]);
}

#[test]
fn a_run_ends_after_four_answers_and_one_for_each_element() {
    let mut fetch = Fetch::begin(SessionState::Open);
    let mut answers = 0;
    loop {
        let event = match fetch.action() {
            FetchAction::Stop => break,
            FetchAction::Navigate => FetchEvent::Navigated(Ok(())),
            FetchAction::ReadAddress => FetchEvent::Address(Ok("u".to_string())),
            FetchAction::Find(Selector::Article) => FetchEvent::Found(Ok(0)),
            FetchAction::Find(Selector::Body) => FetchEvent::Found(Ok(3)),
            FetchAction::ReadMarkup(index) => FetchEvent::Markup(Ok(format!("{}", index))),
        };
        fetch = fetch.advance(event);
        answers += 1;
        assert!(answers <= 7);
    }
    assert_eq!(answers, 7);
    assert_eq!(
        fetch.outcome().unwrap().unwrap(),
        vec!["0".to_string(), "1".to_string(), "2".to_string()]
    );
}

#[test]
fn the_requested_address_has_not_diverged() {
    assert!(!diverged("https://news.google.com/a", "https://news.google.com/a"));
    assert!(!diverged("", ""));
    assert!(!diverged("https://example.org/\u{e9}", "https://example.org/\u{e9}"));
}

#[test]
fn another_address_has_diverged() {
    assert!(diverged("https://news.google.com/a", "https://news.google.com/b"));
    assert!(diverged("https://news.google.com/a", "https://news.google.com/a/"));
    assert!(diverged("https://news.google.com/a", ""));
    assert!(diverged("https://example.org/e", "https://example.org/\u{e9}"));
    assert!(diverged("https://example.org/A", "https://example.org/a"));
}

#[test]
fn a_diverged_address_does_not_stop_the_run() {
    let fetch = Fetch::begin(SessionState::Open)
        .advance(FetchEvent::Navigated(Ok(())))
        .advance(FetchEvent::Address(Ok("https://elsewhere.example/".to_string())));
    assert_eq!(fetch.action(), FetchAction::Find(Selector::Article));
}
