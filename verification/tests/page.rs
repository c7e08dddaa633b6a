use doken::callback::{CallbackResult, Wait};
use doken::page::{Page, PageAction, PausedRequest, CONTENT_NOT_OK, CONTENT_OK};
use doken::token_info::{Timestamp, TokenInfo};

const CALLBACK: &str = "http://localhost:3000/oauth/callback";
const OK_BODY: &str = "PGh0bWw+PGhlYWQ+PC9oZWFkPjxib2R5PjxoMT5PSzwvaDE+PC9ib2R5PjwvaHRtbD4=";
const NOT_OK_BODY: &str =
    "PGh0bWw+PGhlYWQ+PC9oZWFkPjxib2R5PjxoMT5OT1QgT0s8L2gxPjwvYm9keT48L2h0bWw+";
const NOW: Timestamp = Timestamp { secs_since_epoch: 1_000, nanos_since_epoch: 7 };

fn get(url: &str) -> PausedRequest {
    PausedRequest { method: "GET".to_owned(), url: url.to_owned(), post_data_entries: vec![] }
}

fn post(url: &str, entries: &[&str]) -> PausedRequest {
    PausedRequest {
        method: "POST".to_owned(),
        url: url.to_owned(),
        post_data_entries: entries.iter().map(|e| e.as_bytes().to_vec()).collect(),
    }
}

fn ok() -> PageAction {
    PageAction::FulfillRequest { body: OK_BODY.to_owned(), response_code: 200 }
}

fn not_ok() -> PageAction {
    PageAction::FulfillRequest { body: NOT_OK_BODY.to_owned(), response_code: 200 }
}

fn page() -> Page {
    Page::new(CALLBACK.to_owned(), "S1".to_owned()).unwrap()
}

#[test]
fn page_contents_are_the_two_small_pages() {
    assert_eq!(CONTENT_OK, "<html><head></head><body><h1>OK</h1></body></html>");
    assert_eq!(CONTENT_NOT_OK, "<html><head></head><body><h1>NOT OK</h1></body></html>");
}

#[test]
fn page_needs_an_absolute_callback_url() {
    assert_eq!(Page::new("/oauth/callback".to_owned(), "S1".to_owned()), None);
    assert_eq!(Page::new("".to_owned(), "S1".to_owned()), None);
    let p = page();
    assert_eq!(p.callback_url, CALLBACK);
    assert_eq!(p.csrf_state, "S1");
    assert_eq!(p.wait, Wait::Waiting);
}

#[test]
fn page_ignores_forged_callback_and_then_accepts_the_genuine_one() {
    let mut p = page();
    let forged = get("http://localhost:3000/oauth/callback?state=S2&code=X");
    assert_eq!(p.get_code(&forged), not_ok());
    assert_eq!(p.wait, Wait::Waiting);

    let genuine = get("http://localhost:3000/oauth/callback?state=S1&code=Y");
    assert_eq!(p.get_code(&genuine), ok());
    assert_eq!(p.wait, Wait::Done(CallbackResult::Code("Y".to_owned())));

    // exactly once: what comes later is left alone
    let late = get("http://localhost:3000/oauth/callback?state=S1&code=Z");
    assert_eq!(p.get_code(&late), PageAction::Nothing);
    assert_eq!(p.get_code(&get("https://idp.example/login")), PageAction::Nothing);
    assert_eq!(p.wait, Wait::Done(CallbackResult::Code("Y".to_owned())));
    assert!(!p.timed_out());
    assert_eq!(p.wait, Wait::Done(CallbackResult::Code("Y".to_owned())));
}

#[test]
fn page_lets_other_requests_through() {
    let mut p = page();
    for url in [
        "https://idp.example/login?state=S1&code=Y",
        "http://localhost:3000/other?state=S1&code=Y",
        "http://localhost:3001/oauth/callback?state=S1&code=Y",
        "https://localhost:3000/oauth/callback?state=S1&code=Y",
        "http://localhost:3000/oauth/callback/?state=S1&code=Y",
        "about:blank",
    ] {
        assert_eq!(p.get_code(&get(url)), PageAction::ContinueRequest, "{}", url);
        assert_eq!(p.wait, Wait::Waiting);
    }
}

#[test]
fn page_matches_origin_and_path_not_spelling() {
    let mut p = page();
    assert!(p.targets_callback("HTTP://LOCALHOST:3000/oauth/callback#frag"));
    assert!(p.targets_callback("http://localhost:3000/oauth/callback?x=1"));
    assert!(!p.targets_callback("http://localhost:3000/oauth/Callback"));
    assert!(!p.targets_callback("no url"));
    let default_port = Page::new("http://example.com/cb".to_owned(), "S".to_owned()).unwrap();
    assert!(default_port.targets_callback("http://example.com:80/cb"));
    assert!(!default_port.targets_callback("http://example.com:81/cb"));
    let genuine = get("HTTP://LOCALHOST:3000/oauth/callback?code=a%20b%2Bc&state=S1");
    assert_eq!(p.get_code(&genuine), ok());
    assert_eq!(p.wait, Wait::Done(CallbackResult::Code("a b+c".to_owned())));
}

#[test]
fn page_lets_a_request_without_a_proper_url_through() {
    let mut p = page();
    assert_eq!(p.get_code(&get("not a url")), PageAction::ContinueRequest);
    assert_eq!(
        p.get_token_data(&post("/oauth/callback", &[]), NOW),
        PageAction::ContinueRequest
    );
    assert_eq!(p.wait, Wait::Waiting);
}

#[test]
fn page_times_out_when_nothing_matches() {
    let mut p = page();
    assert_eq!(p.get_code(&get("http://localhost:3000/oauth/callback?code=Y")), not_ok());
    assert!(p.timed_out());
    assert_eq!(p.wait, Wait::TimedOut);
    let genuine = get("http://localhost:3000/oauth/callback?state=S1&code=Y");
    assert_eq!(p.get_code(&genuine), PageAction::Nothing);
    assert_eq!(p.wait, Wait::TimedOut);
    assert!(!p.timed_out());
}

#[test]
fn page_accepts_posted_token_with_own_state() {
    let mut p = page();
    let forged = post(CALLBACK, &["access_token=bad", "expires_in=60", "state=S2"]);
    assert_eq!(p.get_token_data(&forged, NOW), not_ok());
    assert_eq!(p.wait, Wait::Waiting);

    let genuine = post(CALLBACK, &["access_token=tok%2F1", "expires_in=60", "state=S1"]);
    assert_eq!(p.get_token_data(&genuine, NOW), ok());
    let expected = TokenInfo {
        access_token: "tok/1".to_owned(),
        refresh_token: None,
        expires: Some(Timestamp { secs_since_epoch: 1_060, nanos_since_epoch: 7 }),
        scope: None,
    };
    assert_eq!(p.wait, Wait::Done(CallbackResult::TokenPayload(expected)));
    assert_eq!(p.get_token_data(&genuine, NOW), PageAction::Nothing);
}

#[test]
fn page_reads_a_body_that_comes_in_one_chunk() {
    let mut p = page();
    // a form-encoded `+5` is ` 5`, which is no number
    let spaced = post(CALLBACK, &["state=S1&expires_in=+5&access_token=a+b"]);
    assert_eq!(p.get_token_data(&spaced, NOW), not_ok());
    assert_eq!(p.wait, Wait::Waiting);

    let genuine = post(CALLBACK, &["state=S1&expires_in=%2B5&access_token=a+b"]);
    assert_eq!(p.get_token_data(&genuine, NOW), ok());
    let expected = TokenInfo {
        access_token: "a b".to_owned(),
        refresh_token: None,
        expires: Some(Timestamp { secs_since_epoch: 1_005, nanos_since_epoch: 7 }),
        scope: None,
    };
    assert_eq!(p.wait, Wait::Done(CallbackResult::TokenPayload(expected)));
}

#[test]
fn page_answers_every_request_to_the_callback_url() {
    let mut p = page();
    let as_get = PausedRequest {
        method: "GET".to_owned(),
        url: CALLBACK.to_owned(),
        post_data_entries: vec![b"access_token=tok&expires_in=60&state=S1".to_vec()],
    };
    assert_eq!(p.get_token_data(&as_get, NOW), not_ok());
    let lower = PausedRequest { method: "post".to_owned(), ..as_get.clone() };
    assert_eq!(p.get_token_data(&lower, NOW), not_ok());
    assert_eq!(
        p.get_token_data(&post(CALLBACK, &[]), NOW),
        not_ok()
    );
    assert_eq!(
        p.get_token_data(&post(CALLBACK, &["access_token=t", "state=S1"]), NOW),
        not_ok()
    );
    assert_eq!(
        p.get_token_data(&post(CALLBACK, &["access_token=t", "expires_in=1"]), NOW),
        not_ok()
    );
    assert_eq!(
        p.get_token_data(&post(CALLBACK, &["access_token=t", "expires_in=x", "state=S1"]), NOW),
        not_ok()
    );
    assert_eq!(
        p.get_token_data(&post("http://elsewhere.example/", &["state=S1"]), NOW),
        PageAction::ContinueRequest
    );
    assert_eq!(p.wait, Wait::Waiting);
}
