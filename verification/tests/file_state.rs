use doken::file_state::{CacheEntry, FileState, TokenCacheFile};
use doken::token_info::{Timestamp, TokenInfo};

fn bare_token(access_token: &str) -> TokenInfo {
    TokenInfo {
        access_token: access_token.to_owned(),
        refresh_token: None,
        expires: None,
        scope: None,
    }
}

#[test]
fn upsert_then_read_yields_the_token() {
    let full = TokenInfo {
        access_token: "a".to_owned(),
        refresh_token: Some("r".to_owned()),
        expires: Some(Timestamp { secs_since_epoch: 12, nanos_since_epoch: 34 }),
        scope: Some("s".to_owned()),
    };
    for token in [bare_token("x"), bare_token(""), full] {
        for start in [None, Some(TokenCacheFile { version: 1, data: vec![] })] {
            let mut file_state = FileState::new(start);
            file_state.upsert_token_info("other".to_owned(), bare_token("o"));
            file_state.upsert_token_info("id".to_owned(), token.clone());
            assert_eq!(file_state.read_token_info(&"id".to_owned()), Some(token.clone()));
        }
    }
}

#[test]
fn every_store_and_every_clearing_has_to_be_written() {
    let mut file_state = FileState::new(None);
    assert!(!file_state.needs_saving());
    assert_eq!(file_state.read_token_info(&"a".to_owned()), None);
    assert!(!file_state.needs_saving());

    // also a clearing that finds nothing to clear
    file_state.clear_token_info("absent".to_owned());
    assert!(file_state.needs_saving());
    assert_eq!(file_state.contents(), &TokenCacheFile { version: 1, data: vec![] });
    file_state.saved();
    assert!(!file_state.needs_saving());
    assert_eq!(file_state.contents(), &TokenCacheFile { version: 1, data: vec![] });

    file_state.upsert_token_info("a".to_owned(), bare_token("X"));
    assert!(file_state.needs_saving());
    file_state.saved();
    // and a store of what is there already
    file_state.upsert_token_info("a".to_owned(), bare_token("X"));
    assert!(file_state.needs_saving());
    file_state.saved();
    assert_eq!(file_state.read_token_info(&"a".to_owned()), Some(bare_token("X")));
    assert!(!file_state.needs_saving());

    let loaded = FileState::new(Some(file_state.contents().clone()));
    assert!(!loaded.needs_saving());
}

#[test]
fn clearing_an_absent_id_changes_nothing() {
    let mut file_state = FileState::new(None);
    file_state.clear_token_info("absent".to_owned());
    file_state.clear_token_info("absent".to_owned());
    assert_eq!(file_state.contents(), &TokenCacheFile { version: 1, data: vec![] });
    assert_eq!(file_state.read_token_info(&"absent".to_owned()), None);
}

#[test]
fn two_clients_survive_the_clearing_of_a_third() {
    let mut file_state = FileState::new(None);
    file_state.upsert_token_info("a".to_owned(), bare_token("X"));
    file_state.upsert_token_info("b".to_owned(), bare_token("Y"));
    file_state.clear_token_info("missing".to_owned());
    assert_eq!(file_state.read_token_info(&"a".to_owned()), Some(bare_token("X")));
    assert_eq!(file_state.read_token_info(&"b".to_owned()), Some(bare_token("Y")));
    assert_eq!(file_state.contents().data.len(), 2);
}

#[test]
fn writers_that_come_one_after_the_other_lose_nothing() {
    let mut first = FileState::new(None);
    first.upsert_token_info("a".to_owned(), bare_token("X"));
    // the second writer starts from what the first has written
    let mut second = FileState::new(Some(first.contents().clone()));
    second.upsert_token_info("b".to_owned(), bare_token("Y"));
    let reader = FileState::new(Some(second.contents().clone()));
    assert_eq!(reader.read_token_info(&"a".to_owned()), Some(bare_token("X")));
    assert_eq!(reader.read_token_info(&"b".to_owned()), Some(bare_token("Y")));
}

#[test]
fn loaded_file_keeps_its_version_and_its_entries() {
    let loaded = TokenCacheFile {
        version: 7,
        data: vec![
            CacheEntry { client_id: "a".to_owned(), token_info: bare_token("first") },
            CacheEntry { client_id: "b".to_owned(), token_info: bare_token("B") },
            CacheEntry { client_id: "a".to_owned(), token_info: bare_token("second") },
        ],
    };
    let mut file_state = FileState::new(Some(loaded));
    assert_eq!(file_state.read_token_info(&"a".to_owned()), Some(bare_token("second")));
    assert_eq!(file_state.read_token_info(&"b".to_owned()), Some(bare_token("B")));
    assert_eq!(file_state.contents().version, 7);
    assert_eq!(file_state.contents().data.len(), 2);
    file_state.clear_token_info("a".to_owned());
    assert_eq!(file_state.read_token_info(&"a".to_owned()), None);
    assert_eq!(file_state.contents().version, 7);
}

#[test]
fn cache_file_operations_keep_ids_apart() {
    let mut file = TokenCacheFile::empty();
    assert_eq!(file.position(&"a".to_owned()), None);
    file.insert("a".to_owned(), bare_token("1"));
    file.insert("b".to_owned(), bare_token("2"));
    file.insert("a".to_owned(), bare_token("3"));
    assert_eq!(file.position(&"a".to_owned()), Some(0));
    assert_eq!(file.position(&"b".to_owned()), Some(1));
    assert_eq!(file.get(&"a".to_owned()), Some(bare_token("3")));
    file.remove(&"a".to_owned());
    assert_eq!(file.position(&"b".to_owned()), Some(0));
    assert_eq!(file.get(&"a".to_owned()), None);
    file.remove(&"a".to_owned());
    assert_eq!(file.data.len(), 1);
}

#[test]
fn it_reads_state_of_correct_client_id() {
    let mut file_state = FileState::new(None);
    const CLIENT_ID: &str = "test-client-id";
    const ACCESS_TOKEN: &str = "test-access-token";
    const REFRESH_TOKEN: &str = "test-refresh-token";
    const EXPIRES: Timestamp = Timestamp { secs_since_epoch: 0, nanos_since_epoch: 0 };
    const SCOPE: &str = "email-profile";

    let expected_token_info = TokenInfo {
        access_token: ACCESS_TOKEN.to_owned(),
        refresh_token: Some(REFRESH_TOKEN.to_owned()),
        expires: Some(EXPIRES),
        scope: Some(SCOPE.to_owned()),
    };

    file_state.upsert_token_info("not-important".to_owned(), bare_token("not-important"));
    file_state.upsert_token_info(CLIENT_ID.to_owned(), expected_token_info.to_owned());

    let actual_token_info = file_state.read_token_info(&CLIENT_ID.to_owned()).unwrap();

    assert_eq!(actual_token_info.access_token, expected_token_info.access_token);
    assert_eq!(actual_token_info.refresh_token, expected_token_info.refresh_token);
    assert_eq!(actual_token_info.expires, expected_token_info.expires);
    assert_eq!(actual_token_info.scope, expected_token_info.scope);
}

#[test]
fn it_writes_state_to_file() {
    let mut file_state = FileState::new(None);
    file_state.upsert_token_info("test-client-id".to_owned(), bare_token("test-access-token"));

    let expected = TokenCacheFile {
        version: 1,
        data: vec![CacheEntry {
            client_id: "test-client-id".to_owned(),
            token_info: bare_token("test-access-token"),
        }],
    };
    assert_eq!(file_state.contents(), &expected);
}

#[test]
fn it_writes_state_to_file_with_all_possible_values() {
    let mut file_state = FileState::new(None);
    const CLIENT_ID: &str = "test-client-id";
    const ACCESS_TOKEN: &str = "test-access-token";
    const REFRESH_TOKEN: &str = "test-refresh-token";
    const EXPIRES: Timestamp = Timestamp { secs_since_epoch: 0, nanos_since_epoch: 0 };
    const SCOPE: &str = "email-profile";

    file_state.upsert_token_info(
        CLIENT_ID.to_owned(),
        TokenInfo {
            access_token: ACCESS_TOKEN.to_owned(),
            refresh_token: Some(REFRESH_TOKEN.to_owned()),
            expires: Some(EXPIRES),
            scope: Some(SCOPE.to_owned()),
        },
    );

    let expected = TokenCacheFile {
        version: 1,
        data: vec![CacheEntry {
            client_id: "test-client-id".to_owned(),
            token_info: TokenInfo {
                access_token: "test-access-token".to_owned(),
                refresh_token: Some("test-refresh-token".to_owned()),
                expires: Some(Timestamp { secs_since_epoch: 0, nanos_since_epoch: 0 }),
                scope: Some("email-profile".to_owned()),
            },
        }],
    };
    assert_eq!(file_state.contents(), &expected);
}

#[test]
fn it_overwrites_state_of_client_id() {
    let mut file_state = FileState::new(None);
    file_state.upsert_token_info("test-client-id".to_owned(), bare_token("not-important"));
    file_state.upsert_token_info(
        "test-client-id".to_owned(),
        bare_token("test-access-token-overwrite"),
    );

    let expected = TokenCacheFile {
        version: 1,
        data: vec![CacheEntry {
            client_id: "test-client-id".to_owned(),
            token_info: bare_token("test-access-token-overwrite"),
        }],
    };
    assert_eq!(file_state.contents(), &expected);
}

#[test]
fn it_removes_client_id_data() {
    let mut file_state = FileState::new(None);
    file_state.upsert_token_info("test-client-id".to_owned(), bare_token("not-important"));
    file_state.clear_token_info("test-client-id".to_owned());

    assert_eq!(file_state.contents(), &TokenCacheFile { version: 1, data: vec![] });
}

#[test]
fn it_does_not_fail_on_clearing_non_existent_state() {
    let mut file_state = FileState::new(None);
    file_state.clear_token_info("test-client-id".to_owned());

    assert_eq!(file_state.contents(), &TokenCacheFile { version: 1, data: vec![] });
}

#[test]
fn it_does_not_change_other_client_id_state() {
    let mut file_state = FileState::new(None);
    file_state.upsert_token_info(
        "test-client-id-10".to_owned(),
        bare_token("test-access-token-another-one"),
    );
    file_state.clear_token_info("test-client-id-that-does-not-exist".to_owned());

    let expected = TokenCacheFile {
        version: 1,
        data: vec![CacheEntry {
            client_id: "test-client-id-10".to_owned(),
            token_info: bare_token("test-access-token-another-one"),
        }],
    };
    assert_eq!(file_state.contents(), &expected);
}
