use doken::callback::{code_from_pairs, join_entries, token_from_pairs, CallbackResult, Wait};
use doken::params::find_param;
use doken::token_info::{Timestamp, TokenInfo};

fn pairs(items: &[(&str, &str)]) -> Vec<(String, String)> {
    items.iter().map(|(k, v)| (k.to_string(), v.to_string())).collect()
}

const NOW: Timestamp = Timestamp { secs_since_epoch: 1_700_000_000, nanos_since_epoch: 250 };

#[test]
fn find_param_returns_the_first_value_of_the_name() {
    let p = pairs(&[("a", "1"), ("b", "2"), ("a", "3")]);
    assert_eq!(find_param(&p, "a"), Some("1".to_owned()));
    assert_eq!(find_param(&p, "b"), Some("2".to_owned()));
    assert_eq!(find_param(&p, "c"), None);
    assert_eq!(find_param(&Vec::new(), "a"), None);
}

#[test]
fn find_param_tells_names_apart_exactly() {
    let p = pairs(&[("state2", "x"), ("State", "y"), ("", "z")]);
    assert_eq!(find_param(&p, "state"), None);
    assert_eq!(find_param(&p, ""), Some("z".to_owned()));
}

#[test]
fn code_with_foreign_state_is_ignored_and_code_with_own_state_is_accepted() {
    let forged = pairs(&[("state", "S2"), ("code", "X")]);
    assert_eq!(code_from_pairs(&forged, "S1"), None);
    let genuine = pairs(&[("state", "S1"), ("code", "Y")]);
    assert_eq!(code_from_pairs(&genuine, "S1"), Some("Y".to_owned()));
}

#[test]
fn code_needs_both_state_and_code() {
    assert_eq!(code_from_pairs(&pairs(&[("state", "S1")]), "S1"), None);
    assert_eq!(code_from_pairs(&pairs(&[("code", "Y")]), "S1"), None);
    assert_eq!(code_from_pairs(&pairs(&[]), "S1"), None);
    assert_eq!(code_from_pairs(&pairs(&[("code", "Y")]), ""), None);
}

#[test]
fn code_goes_by_the_first_state_and_the_first_code() {
    let p = pairs(&[("state", "S2"), ("state", "S1"), ("code", "Y")]);
    assert_eq!(code_from_pairs(&p, "S1"), None);
    let q = pairs(&[("code", "first"), ("state", "S1"), ("code", "second")]);
    assert_eq!(code_from_pairs(&q, "S1"), Some("first".to_owned()));
}

#[test]
fn token_form_with_own_state_is_accepted() {
    let p = pairs(&[("access_token", "tok"), ("expires_in", "3600"), ("state", "S1")]);
    let expected = TokenInfo {
        access_token: "tok".to_owned(),
        refresh_token: None,
        expires: Some(Timestamp { secs_since_epoch: 1_700_003_600, nanos_since_epoch: 250 }),
        scope: None,
    };
    assert_eq!(token_from_pairs(&p, "S1", NOW), Some(expected));
}

#[test]
fn token_form_with_foreign_state_is_ignored() {
    let p = pairs(&[("access_token", "tok"), ("expires_in", "3600"), ("state", "S2")]);
    assert_eq!(token_from_pairs(&p, "S1", NOW), None);
    let q = pairs(&[("access_token", "tok"), ("expires_in", "soon"), ("state", "S2")]);
    assert_eq!(token_from_pairs(&q, "S1", NOW), None);
}

#[test]
fn token_form_that_lacks_a_field_is_ignored() {
    assert_eq!(token_from_pairs(&pairs(&[]), "S1", NOW), None);
    let no_token = pairs(&[("expires_in", "1"), ("state", "S1")]);
    assert_eq!(token_from_pairs(&no_token, "S1", NOW), None);
    let no_expiry = pairs(&[("access_token", "tok"), ("state", "S1")]);
    assert_eq!(token_from_pairs(&no_expiry, "S1", NOW), None);
    let no_state = pairs(&[("access_token", "tok"), ("expires_in", "1")]);
    assert_eq!(token_from_pairs(&no_state, "S1", NOW), None);
    // not even for an empty expected state
    assert_eq!(token_from_pairs(&no_state, "", NOW), None);
}

#[test]
fn token_form_with_unreadable_lifetime_is_ignored() {
    for bad in ["", "abc", "-1", "1.5", " 1", "+", "18446744073709551616"] {
        let p = pairs(&[("access_token", "tok"), ("expires_in", bad), ("state", "S1")]);
        assert_eq!(token_from_pairs(&p, "S1", NOW), None, "lifetime {:?}", bad);
    }
}

#[test]
fn token_form_with_lifetime_beyond_the_clock_is_ignored() {
    let p = pairs(&[("access_token", "tok"), ("expires_in", "18446744073709551615"), ("state", "S1")]);
    assert_eq!(token_from_pairs(&p, "S1", NOW), None);
    let epoch = Timestamp { secs_since_epoch: 0, nanos_since_epoch: 0 };
    let expected = TokenInfo {
        access_token: "tok".to_owned(),
        refresh_token: None,
        expires: Some(Timestamp { secs_since_epoch: u64::MAX, nanos_since_epoch: 0 }),
        scope: None,
    };
    assert_eq!(token_from_pairs(&p, "S1", epoch), Some(expected));
}

#[test]
fn token_form_goes_by_the_first_of_each_field() {
    let p = pairs(&[
        ("state", "S1"),
        ("access_token", "first"),
        ("access_token", "second"),
        ("expires_in", "1"),
        ("expires_in", "2"),
        ("state", "S2"),
    ]);
    let expected = TokenInfo {
        access_token: "first".to_owned(),
        refresh_token: None,
        expires: Some(Timestamp { secs_since_epoch: 1_700_000_001, nanos_since_epoch: 250 }),
        scope: None,
    };
    assert_eq!(token_from_pairs(&p, "S1", NOW), Some(expected));
    assert_eq!(token_from_pairs(&p, "S2", NOW), None);
}

#[test]
fn join_entries_puts_ampersands_between_chunks() {
    assert_eq!(join_entries(&vec![]), Vec::<u8>::new());
    assert_eq!(join_entries(&vec![b"a=1".to_vec()]), b"a=1".to_vec());
    assert_eq!(
        join_entries(&vec![b"a=1".to_vec(), b"b=2".to_vec(), b"c".to_vec()]),
        b"a=1&b=2&c".to_vec()
    );
    assert_eq!(join_entries(&vec![vec![], vec![]]), b"&".to_vec());
}

#[test]
fn wait_is_decided_by_whatever_comes_first() {
    let mut timed = Wait::Waiting;
    assert!(timed.is_waiting());
    assert!(timed.expire());
    assert_eq!(timed, Wait::TimedOut);
    assert!(!timed.deliver(CallbackResult::Code("late".to_owned())));
    assert_eq!(timed, Wait::TimedOut);
    assert!(!timed.expire());

    let mut done = Wait::Waiting;
    assert!(done.deliver(CallbackResult::Code("Y".to_owned())));
    assert_eq!(done, Wait::Done(CallbackResult::Code("Y".to_owned())));
    assert!(!done.expire());
    assert!(!done.deliver(CallbackResult::Code("Z".to_owned())));
    assert_eq!(done, Wait::Done(CallbackResult::Code("Y".to_owned())));
    assert!(!done.is_waiting());
}
