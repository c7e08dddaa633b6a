use doken::args::Arguments;
use doken::callback::{CallbackResult, Wait};
use doken::dispatcher::{Dispatcher, Goal, Stage};
use doken::file_state::FileState;
use doken::get_token;
use doken::grant::Grant;
use doken::oauth_client::{
    ConfigError, EndpointField, OpenIDProviderMetadata, TokenGrant, TokenRequest,
};
use doken::page::{Page, PageAction, PausedRequest};
use doken::retrievers::{Event, RetrievalError, Step};
use doken::token_info::{Timestamp, TokenInfo, TokenResponse};

const NOW: Timestamp = Timestamp { secs_since_epoch: 2_000_000, nanos_since_epoch: 0 };
const ONE_SECOND_AGO: Timestamp = Timestamp { secs_since_epoch: 1_999_999, nanos_since_epoch: 0 };
const DISCOVERY: &str = "https://idp.example/.well-known/openid-configuration";

fn some(s: &str) -> Option<String> {
    Some(s.to_owned())
}

fn args(grant: Grant, force: bool) -> Arguments {
    Arguments {
        grant,
        token_url: some("https://example.com/token"),
        authorization_url: some("https://example.com/auth"),
        callback_url: some("http://localhost:3000/oauth/callback"),
        client_id: "client-a".to_owned(),
        client_secret: some("s3cr3t"),
        scope: "email".to_owned(),
        force,
        ..Default::default()
    }
}

fn discovering(grant: Grant, force: bool) -> Arguments {
    Arguments {
        token_url: None,
        authorization_url: None,
        discovery_url: some(DISCOVERY),
        ..args(grant, force)
    }
}

fn metadata() -> OpenIDProviderMetadata {
    OpenIDProviderMetadata {
        token_endpoint: "https://idp.example/token".to_owned(),
        authorization_endpoint: "https://idp.example/authorize".to_owned(),
    }
}

fn token(access_token: &str, refresh_token: Option<&str>, expires: Option<Timestamp>) -> TokenInfo {
    TokenInfo {
        access_token: access_token.to_owned(),
        refresh_token: refresh_token.map(|s| s.to_owned()),
        expires,
        scope: None,
    }
}

fn response(access_token: &str, expires_in: Option<u64>) -> TokenResponse {
    TokenResponse {
        access_token: access_token.to_owned(),
        refresh_token: Some("rt-new".to_owned()),
        expires_in,
        scopes: Some(vec!["email".to_owned()]),
    }
}

fn dispatcher_for(args: Arguments, cached: Option<TokenInfo>) -> Dispatcher {
    let mut state = FileState::new(None);
    state.upsert_token_info("client-b".to_owned(), token("other", None, None));
    if let Some(info) = cached {
        state.upsert_token_info("client-a".to_owned(), info);
    }
    Dispatcher::new(args, state)
}

fn dispatcher(grant: Grant, force: bool, cached: Option<TokenInfo>) -> Dispatcher {
    dispatcher_for(args(grant, force), cached)
}

fn cached_for(d: &Dispatcher, id: &str) -> Option<TokenInfo> {
    d.cache.file_state.read_token_info(&id.to_owned())
}

#[test]
fn new_acquisition_has_asked_for_nothing() {
    let d = dispatcher_for(discovering(Grant::AuthorizationCode, false), None);
    assert_eq!(d.stage, Stage::Idle);
    assert_eq!(d.client, None);
    assert_eq!(d.discovered, None);
    assert_eq!(d.cache.client_id, "client-a");
    assert_eq!(d.args, discovering(Grant::AuthorizationCode, false));
}

#[test]
fn cache_hit_returns_the_token_at_once() {
    let cached = token("tok1", Some("rt1"), None);
    let mut d = dispatcher(Grant::AuthorizationCodeWithPkce, false, Some(cached.clone()));
    assert_eq!(get_token(&mut d, Event::Start, NOW), Step::Done(cached.clone()));
    assert_eq!(d.stage, Stage::Finished);
    assert_eq!(d.client, None);
    assert_eq!(cached_for(&d, "client-a"), Some(cached));
    assert_eq!(get_token(&mut d, Event::Start, NOW), Step::Failed(RetrievalError::OutOfTurn));
}

#[test]
fn cache_hit_needs_no_discovery_and_no_valid_endpoints() {
    let cached = token("tok1", None, Some(NOW));
    let mut d =
        dispatcher_for(discovering(Grant::AuthorizationCodeWithPkce, false), Some(cached.clone()));
    assert_eq!(get_token(&mut d, Event::Start, NOW), Step::Done(cached.clone()));
    assert_eq!(d.discovered, None);
    assert_eq!(d.client, None);

    let broken = Arguments { token_url: some("not-a-url"), ..args(Grant::ClientCredentials, false) };
    let mut d = dispatcher_for(broken, Some(cached.clone()));
    assert_eq!(get_token(&mut d, Event::Start, NOW), Step::Done(cached));
}

#[test]
fn cache_miss_asks_for_discovery_and_then_runs_the_grant() {
    let mut d = dispatcher_for(discovering(Grant::ClientCredentials, false), None);
    assert_eq!(get_token(&mut d, Event::Start, NOW), Step::Discover(DISCOVERY.to_owned()));
    assert_eq!(d.stage, Stage::Discovering(Goal::Grant));
    assert_eq!(d.client, None);
    assert_eq!(
        get_token(&mut d, Event::Discovered(metadata()), NOW),
        Step::Exchange(TokenRequest {
            token_url: "https://idp.example/token".to_owned(),
            grant: TokenGrant::ClientCredentials { scope: "email".to_owned(), audience: None },
        })
    );
    assert_eq!(d.stage, Stage::Grant);
    assert_eq!(d.discovered, Some(metadata()));
    assert!(d.client.is_some());
    let step = get_token(&mut d, Event::Exchanged(response("fresh", Some(10))), NOW);
    assert!(matches!(step, Step::Done(_)));
    assert_eq!(cached_for(&d, "client-a").unwrap().access_token, "fresh");
}

#[test]
fn failed_discovery_ends_the_acquisition() {
    let mut d = dispatcher_for(discovering(Grant::AuthorizationCode, false), None);
    assert_eq!(get_token(&mut d, Event::Start, NOW), Step::Discover(DISCOVERY.to_owned()));
    assert_eq!(
        get_token(&mut d, Event::DiscoveryFailed, NOW),
        Step::Failed(RetrievalError::Config(ConfigError::DiscoveryFailed))
    );
    assert_eq!(d.stage, Stage::Finished);
    assert_eq!(d.client, None);
    assert_eq!(
        d.describe(RetrievalError::Config(ConfigError::DiscoveryFailed)),
        "Failed during OIDC discovery call"
    );
}

#[test]
fn discovered_endpoint_that_is_no_url_is_named_with_its_value() {
    let mut d = dispatcher_for(discovering(Grant::AuthorizationCode, false), None);
    get_token(&mut d, Event::Start, NOW);
    let broken = OpenIDProviderMetadata { token_endpoint: "nowhere".to_owned(), ..metadata() };
    let error = RetrievalError::Config(ConfigError::InvalidEndpoint(EndpointField::TokenUrl));
    assert_eq!(get_token(&mut d, Event::Discovered(broken), NOW), Step::Failed(error));
    assert_eq!(
        d.describe(error),
        "`--token-url` is not a correct absolute URL. Provided value: nowhere"
    );
    assert_eq!(d.describe(RetrievalError::Timeout), "No requests with required data. Timeout.");
}

#[test]
fn configured_endpoint_that_is_no_url_ends_the_acquisition_without_any_request() {
    let broken = Arguments { token_url: some("not-a-url"), ..args(Grant::AuthorizationCode, false) };
    let mut d = dispatcher_for(broken, None);
    let error = RetrievalError::Config(ConfigError::InvalidEndpoint(EndpointField::TokenUrl));
    assert_eq!(get_token(&mut d, Event::Start, NOW), Step::Failed(error));
    assert_eq!(d.stage, Stage::Finished);
    assert_eq!(
        d.describe(error),
        "`--token-url` is not a correct absolute URL. Provided value: not-a-url"
    );
}

#[test]
fn discovery_events_out_of_turn_end_the_acquisition() {
    let mut d = dispatcher(Grant::ClientCredentials, false, None);
    assert_eq!(
        get_token(&mut d, Event::Discovered(metadata()), NOW),
        Step::Failed(RetrievalError::OutOfTurn)
    );
    let mut d = dispatcher_for(discovering(Grant::ClientCredentials, false), None);
    get_token(&mut d, Event::Start, NOW);
    assert_eq!(get_token(&mut d, Event::Start, NOW), Step::Failed(RetrievalError::OutOfTurn));
    assert_eq!(d.stage, Stage::Finished);
}

#[test]
fn cache_miss_falls_through_to_the_grant_and_stores_its_token() {
    let mut d = dispatcher(Grant::ClientCredentials, false, None);
    assert_eq!(
        get_token(&mut d, Event::Start, NOW),
        Step::Exchange(TokenRequest {
            token_url: "https://example.com/token".to_owned(),
            grant: TokenGrant::ClientCredentials { scope: "email".to_owned(), audience: None },
        })
    );
    assert_eq!(d.stage, Stage::Grant);
    let step = get_token(&mut d, Event::Exchanged(response("fresh", Some(10))), NOW);
    let fresh = TokenInfo {
        access_token: "fresh".to_owned(),
        refresh_token: some("rt-new"),
        expires: Some(Timestamp { secs_since_epoch: 2_000_010, nanos_since_epoch: 0 }),
        scope: some("email"),
    };
    assert_eq!(step, Step::Done(fresh.clone()));
    assert_eq!(d.stage, Stage::Finished);
    assert_eq!(cached_for(&d, "client-a"), Some(fresh));
    assert_eq!(cached_for(&d, "client-b"), Some(token("other", None, None)));
}

#[test]
fn force_passes_over_a_valid_cached_token() {
    let cached = token("tok1", None, None);
    let mut d = dispatcher(Grant::ClientCredentials, true, Some(cached.clone()));
    assert!(matches!(get_token(&mut d, Event::Start, NOW), Step::Exchange(_)));
    assert_eq!(d.stage, Stage::Grant);
    assert_eq!(cached_for(&d, "client-a"), Some(cached.clone()));
    let step = get_token(&mut d, Event::Exchanged(response("fresh", None)), NOW);
    assert!(matches!(step, Step::Done(_)));
    assert_eq!(cached_for(&d, "client-a").unwrap().access_token, "fresh");

    let mut d = dispatcher_for(discovering(Grant::ClientCredentials, true), Some(cached));
    assert_eq!(get_token(&mut d, Event::Start, NOW), Step::Discover(DISCOVERY.to_owned()));
}

#[test]
fn expired_token_is_refreshed_without_running_the_grant() {
    let expired = token("tok1", Some("rt1"), Some(ONE_SECOND_AGO));
    let mut d = dispatcher(Grant::AuthorizationCodeWithPkce, false, Some(expired));
    assert_eq!(
        get_token(&mut d, Event::Start, NOW),
        Step::Exchange(TokenRequest {
            token_url: "https://example.com/token".to_owned(),
            grant: TokenGrant::RefreshToken { refresh_token: "rt1".to_owned() },
        })
    );
    assert_eq!(d.stage, Stage::Cache);
    let step = get_token(&mut d, Event::Exchanged(response("tok2", Some(3600))), NOW);
    match step {
        Step::Done(info) => {
            assert_eq!(info.access_token, "tok2");
            assert_eq!(
                info.expires,
                Some(Timestamp { secs_since_epoch: 2_003_600, nanos_since_epoch: 0 })
            );
            assert_eq!(cached_for(&d, "client-a"), Some(info));
        }
        other => panic!("{:?}", other),
    }
    assert_eq!(d.stage, Stage::Finished);
}

#[test]
fn refresh_that_is_due_asks_for_discovery_first() {
    let expired = token("tok1", Some("rt1"), Some(ONE_SECOND_AGO));
    let mut d =
        dispatcher_for(discovering(Grant::AuthorizationCodeWithPkce, false), Some(expired.clone()));
    assert_eq!(get_token(&mut d, Event::Start, NOW), Step::Discover(DISCOVERY.to_owned()));
    assert_eq!(d.stage, Stage::Discovering(Goal::Refresh("rt1".to_owned())));
    assert_eq!(cached_for(&d, "client-a"), Some(expired));
    assert_eq!(
        get_token(&mut d, Event::Discovered(metadata()), NOW),
        Step::Exchange(TokenRequest {
            token_url: "https://idp.example/token".to_owned(),
            grant: TokenGrant::RefreshToken { refresh_token: "rt1".to_owned() },
        })
    );
    assert_eq!(d.stage, Stage::Cache);
    let step = get_token(&mut d, Event::ExchangeFailed, NOW);
    assert!(matches!(step, Step::AwaitCode(_)));
    assert_eq!(d.stage, Stage::Grant);
    assert_eq!(cached_for(&d, "client-a"), None);
}

#[test]
fn failed_refresh_clears_the_entry_and_starts_the_grant() {
    let expired = token("tok1", Some("rt1"), Some(ONE_SECOND_AGO));
    let mut d = dispatcher(Grant::AuthorizationCode, false, Some(expired));
    assert!(matches!(get_token(&mut d, Event::Start, NOW), Step::Exchange(_)));
    let step = get_token(&mut d, Event::ExchangeFailed, NOW);
    assert!(matches!(step, Step::AwaitCode(_)));
    assert_eq!(d.stage, Stage::Grant);
    assert_eq!(cached_for(&d, "client-a"), None);
}

#[test]
fn expired_token_without_refresh_token_is_cleared_and_the_grant_starts() {
    let expired = token("tok1", None, Some(ONE_SECOND_AGO));
    let mut d = dispatcher(Grant::Implicit, false, Some(expired));
    assert!(matches!(get_token(&mut d, Event::Start, NOW), Step::AwaitToken(_)));
    assert_eq!(d.stage, Stage::Grant);
    assert_eq!(cached_for(&d, "client-a"), None);
    assert_eq!(cached_for(&d, "client-b"), Some(token("other", None, None)));
}

#[test]
fn grant_failure_is_surfaced_and_not_retried() {
    let mut d = dispatcher(Grant::AuthorizationCode, false, None);
    assert!(matches!(get_token(&mut d, Event::Start, NOW), Step::AwaitCode(_)));
    assert_eq!(get_token(&mut d, Event::TimedOut, NOW), Step::Failed(RetrievalError::Timeout));
    assert_eq!(d.stage, Stage::Finished);
    assert_eq!(cached_for(&d, "client-a"), None);
    assert_eq!(get_token(&mut d, Event::Start, NOW), Step::Failed(RetrievalError::OutOfTurn));

    let mut d = dispatcher(Grant::ClientCredentials, false, None);
    get_token(&mut d, Event::Start, NOW);
    assert_eq!(
        get_token(&mut d, Event::ExchangeFailed, NOW),
        Step::Failed(RetrievalError::Exchange)
    );
    assert_eq!(d.stage, Stage::Finished);
    assert_eq!(cached_for(&d, "client-a"), None);
}

#[test]
fn cache_is_to_be_written_exactly_after_a_store_or_a_clearing() {
    // a hit touches nothing
    let mut d = dispatcher(Grant::ClientCredentials, false, Some(token("tok1", None, None)));
    d.cache.file_state.saved();
    get_token(&mut d, Event::Start, NOW);
    assert!(!d.cache.file_state.needs_saving());

    // a miss on an absent entry touches nothing until the grant has its token
    let mut d = dispatcher_for(args(Grant::ClientCredentials, false), None);
    d.cache.file_state.saved();
    assert!(matches!(get_token(&mut d, Event::Start, NOW), Step::Exchange(_)));
    assert!(!d.cache.file_state.needs_saving());
    get_token(&mut d, Event::Exchanged(response("fresh", None)), NOW);
    assert!(d.cache.file_state.needs_saving());

    // an expired entry without refresh token is cleared at the first look
    let expired = token("tok1", None, Some(ONE_SECOND_AGO));
    let mut d = dispatcher(Grant::AuthorizationCode, false, Some(expired));
    d.cache.file_state.saved();
    assert!(matches!(get_token(&mut d, Event::Start, NOW), Step::AwaitCode(_)));
    assert!(d.cache.file_state.needs_saving());
    d.cache.file_state.saved();
    assert_eq!(get_token(&mut d, Event::TimedOut, NOW), Step::Failed(RetrievalError::Timeout));
    assert!(!d.cache.file_state.needs_saving());

    // an expired entry with one stays until the renewal has ended
    let expired = token("tok1", Some("rt1"), Some(ONE_SECOND_AGO));
    let mut d = dispatcher(Grant::AuthorizationCode, false, Some(expired));
    d.cache.file_state.saved();
    assert!(matches!(get_token(&mut d, Event::Start, NOW), Step::Exchange(_)));
    assert!(!d.cache.file_state.needs_saving());
    assert!(matches!(get_token(&mut d, Event::ExchangeFailed, NOW), Step::AwaitCode(_)));
    assert!(d.cache.file_state.needs_saving());
}

#[test]
fn acquisition_must_begin_with_start() {
    let mut d = dispatcher(Grant::AuthorizationCode, false, None);
    assert_eq!(get_token(&mut d, Event::TimedOut, NOW), Step::Failed(RetrievalError::OutOfTurn));
    assert_eq!(d.stage, Stage::Finished);
}

#[test]
fn whole_code_flow_with_a_browser_page() {
    let mut d = dispatcher(Grant::AuthorizationCodeWithPkce, false, None);
    let request = match get_token(&mut d, Event::Start, NOW) {
        Step::AwaitCode(request) => request,
        other => panic!("{:?}", other),
    };
    let mut page =
        Page::new("http://localhost:3000/oauth/callback".to_owned(), request.csrf_state.clone())
            .unwrap();
    let visit = |url: String| PausedRequest { method: "GET".to_owned(), url, post_data_entries: vec![] };
    assert_eq!(page.get_code(&visit(request.url.clone())), PageAction::ContinueRequest);
    let forged = "http://localhost:3000/oauth/callback?code=X&state=guess".to_owned();
    assert!(matches!(page.get_code(&visit(forged)), PageAction::FulfillRequest { .. }));
    assert!(page.wait.is_waiting());
    let mut back = url::Url::parse("http://localhost:3000/oauth/callback").unwrap();
    back.query_pairs_mut().append_pair("code", "Y").append_pair("state", &request.csrf_state);
    assert!(matches!(page.get_code(&visit(back.to_string())), PageAction::FulfillRequest { .. }));
    let result = match page.wait {
        Wait::Done(result) => result,
        other => panic!("{:?}", other),
    };
    assert_eq!(result, CallbackResult::Code("Y".to_owned()));

    let exchange = get_token(&mut d, Event::Callback(result), NOW);
    assert_eq!(
        exchange,
        Step::Exchange(TokenRequest {
            token_url: "https://example.com/token".to_owned(),
            grant: TokenGrant::AuthorizationCode {
                code: "Y".to_owned(),
                pkce_verifier: request.pkce_verifier.clone(),
            },
        })
    );
    let done = get_token(&mut d, Event::Exchanged(response("tok", Some(1))), NOW);
    assert!(matches!(done, Step::Done(_)));
    assert_eq!(cached_for(&d, "client-a").unwrap().access_token, "tok");
}
