use doken::auth_server::{
    AuthServer, IncomingRequest, ServerAction, ServerError, HTML_HEADER, SUCCESS_PAGE,
};
use doken::callback::{CallbackResult, Wait};
use doken::token_info::{Timestamp, TokenInfo};

const NOW: Timestamp = Timestamp { secs_since_epoch: 50, nanos_since_epoch: 0 };

fn get(target: &str) -> IncomingRequest {
    IncomingRequest { method: "GET".to_owned(), url: target.to_owned(), body: vec![] }
}

fn post(body: &str) -> IncomingRequest {
    IncomingRequest {
        method: "POST".to_owned(),
        url: "/oauth/callback".to_owned(),
        body: body.as_bytes().to_vec(),
    }
}

fn respond() -> ServerAction {
    ServerAction::Respond {
        header: "Content-Type: text/html; charset=UTF-8".to_owned(),
        body: SUCCESS_PAGE.to_owned(),
    }
}

fn server() -> AuthServer {
    AuthServer::new("http://localhost:8081/oauth/callback", "S1".to_owned()).unwrap()
}

#[test]
fn listener_port_comes_from_the_callback_url() {
    assert_eq!(server().port, 8081);
    assert_eq!(AuthServer::new("http://localhost/cb", "S".to_owned()).unwrap().port, 80);
    assert_eq!(AuthServer::new("https://localhost/cb", "S".to_owned()).unwrap().port, 443);
    assert_eq!(AuthServer::new("https://localhost:1/cb", "S".to_owned()).unwrap().port, 1);
    let s = server();
    assert_eq!(s.csrf_state, "S1");
    assert_eq!(s.callback_path, "/oauth/callback");
    assert_eq!(s.wait, Wait::Waiting);
    let root = AuthServer::new("http://localhost:8081", "S".to_owned()).unwrap();
    assert_eq!(root.callback_path, "/");
    let spelled = AuthServer::new("http://localhost:8081/a b/%7Ec?x=1#f", "S".to_owned()).unwrap();
    assert_eq!(spelled.callback_path, "/a%20b/%7Ec");
}

#[test]
fn listener_refuses_callback_urls_without_a_port() {
    assert_eq!(
        AuthServer::new("localhost:8081", "S".to_owned()),
        Err(ServerError::UnknownPort)
    );
    assert_eq!(
        AuthServer::new("myapp://callback", "S".to_owned()),
        Err(ServerError::UnknownPort)
    );
    assert_eq!(
        AuthServer::new("/oauth/callback", "S".to_owned()),
        Err(ServerError::InvalidCallbackUrl)
    );
    assert_eq!(AuthServer::new("", "S".to_owned()), Err(ServerError::InvalidCallbackUrl));
}

#[test]
fn listener_knows_which_ports_are_restricted() {
    assert!(AuthServer::new("http://localhost:80/", "S".to_owned()).unwrap().needs_privileges());
    assert!(AuthServer::new("http://localhost:1024/", "S".to_owned()).unwrap().needs_privileges());
    assert!(!AuthServer::new("http://localhost:1025/", "S".to_owned()).unwrap().needs_privileges());
    assert!(!server().needs_privileges());
}

#[test]
fn listener_answers_with_the_sign_in_page() {
    assert_eq!(HTML_HEADER, "Content-Type: text/html; charset=UTF-8");
    assert_eq!(SUCCESS_PAGE, "<!doctype html><html lang=\"en\"><script>window.close();</script><head><meta charset=utf-8><title>Doken</title></head><body>Successfully signed in. Close current tab.</body></html>");
}

#[test]
fn listener_ignores_forged_callback_and_then_accepts_the_genuine_one() {
    let mut s = server();
    assert_eq!(s.get_code(&get("/oauth/callback?state=S2&code=X")), ServerAction::Ignore);
    assert_eq!(s.wait, Wait::Waiting);
    assert_eq!(s.get_code(&get("/favicon.ico")), ServerAction::Ignore);
    assert_eq!(s.get_code(&get("/oauth/callback?code=X")), ServerAction::Ignore);
    assert_eq!(s.wait, Wait::Waiting);

    assert_eq!(s.get_code(&get("/oauth/callback?state=S1&code=Y")), respond());
    assert_eq!(s.wait, Wait::Done(CallbackResult::Code("Y".to_owned())));

    assert_eq!(s.get_code(&get("/oauth/callback?state=S1&code=Z")), ServerAction::Nothing);
    assert!(!s.timed_out());
    assert_eq!(s.wait, Wait::Done(CallbackResult::Code("Y".to_owned())));
}

#[test]
fn listener_decodes_the_query() {
    let mut s = AuthServer::new("http://localhost:8081/", "a b&c".to_owned()).unwrap();
    assert_eq!(s.get_code(&get("/?code=4%2F0A%3D&state=a+b%26c")), respond());
    assert_eq!(s.wait, Wait::Done(CallbackResult::Code("4/0A=".to_owned())));
}

#[test]
fn listener_times_out_and_asks_to_be_unblocked() {
    let mut s = server();
    assert!(s.timed_out());
    assert_eq!(s.wait, Wait::TimedOut);
    assert!(!s.timed_out());
    assert_eq!(s.get_code(&get("/oauth/callback?state=S1&code=Y")), ServerAction::Nothing);
    assert_eq!(
        s.get_token_data(&post("access_token=t&expires_in=1&state=S1"), NOW),
        ServerAction::Nothing
    );
    assert_eq!(s.wait, Wait::TimedOut);
}

#[test]
fn listener_accepts_posted_token_with_own_state() {
    let mut s = server();
    assert_eq!(
        s.get_token_data(&post("access_token=bad&expires_in=3600&state=S2"), NOW),
        ServerAction::Ignore
    );
    assert_eq!(s.get_token_data(&get("/oauth/callback?state=S1"), NOW), ServerAction::Ignore);
    assert_eq!(s.wait, Wait::Waiting);
    assert_eq!(
        s.get_token_data(&post("access_token=tok&token_type=Bearer&expires_in=3600&state=S1"), NOW),
        respond()
    );
    let expected = TokenInfo {
        access_token: "tok".to_owned(),
        refresh_token: None,
        expires: Some(Timestamp { secs_since_epoch: 3650, nanos_since_epoch: 0 }),
        scope: None,
    };
    assert_eq!(s.wait, Wait::Done(CallbackResult::TokenPayload(expected)));
}

#[test]
fn listener_ignores_forms_that_cannot_be_used() {
    let mut s = server();
    assert_eq!(
        s.get_token_data(&post(""), NOW),
        ServerAction::Ignore
    );
    assert_eq!(
        s.get_token_data(&post("access_token=t&state=S1"), NOW),
        ServerAction::Ignore
    );
    assert_eq!(
        s.get_token_data(&post("access_token=t&expires_in=1"), NOW),
        ServerAction::Ignore
    );
    assert_eq!(
        s.get_token_data(&post("access_token=t&expires_in=never&state=S1"), NOW),
        ServerAction::Ignore
    );
    assert_eq!(
        s.get_token_data(&post("access_token=t&expires_in=18446744073709551615&state=S1"), NOW),
        ServerAction::Ignore
    );
    assert_eq!(s.wait, Wait::Waiting);
}

#[test]
fn listener_passes_over_a_form_without_state_and_takes_the_next_one() {
    let mut s = server();
    assert_eq!(s.get_token_data(&post("access_token=A&expires_in=3600"), NOW), ServerAction::Ignore);
    assert_eq!(s.wait, Wait::Waiting);
    assert_eq!(
        s.get_token_data(&post("access_token=B&expires_in=60&state=S1"), NOW),
        respond()
    );
    match s.wait {
        Wait::Done(CallbackResult::TokenPayload(t)) => {
            assert_eq!(t.access_token, "B");
            assert_eq!(t.expires, Some(Timestamp { secs_since_epoch: 110, nanos_since_epoch: 0 }));
        }
        other => panic!("{:?}", other),
    }
}

#[test]
fn listener_ignores_a_request_whose_target_cannot_be_read() {
    let mut s = server();
    assert_eq!(s.get_code(&get(":x/oauth/callback?state=S1&code=Y")), ServerAction::Ignore);
    assert_eq!(s.get_code(&get(":99999/oauth/callback?state=S1&code=Y")), ServerAction::Ignore);
    assert_eq!(s.wait, Wait::Waiting);
    assert_eq!(s.get_code(&get("/oauth/callback?state=S1&code=Y")), respond());
}

#[test]
fn listener_ignores_requests_to_other_paths() {
    let mut s = server();
    for target in [
        "/?state=S1&code=Y",
        "/oauth?state=S1&code=Y",
        "/oauth/callback/?state=S1&code=Y",
        "/oauth/callback/more?state=S1&code=Y",
        "/oauth/Callback?state=S1&code=Y",
        "/other/oauth/callback?state=S1&code=Y",
    ] {
        assert_eq!(s.get_code(&get(target)), ServerAction::Ignore, "{}", target);
        let posted = IncomingRequest {
            method: "POST".to_owned(),
            url: target.to_owned(),
            body: b"access_token=t&expires_in=1&state=S1".to_vec(),
        };
        assert_eq!(s.get_token_data(&posted, NOW), ServerAction::Ignore, "{}", target);
        assert_eq!(s.wait, Wait::Waiting);
    }
    // the path counts as the `url` crate reads it
    assert_eq!(s.get_code(&get("/oauth/./x/../callback?state=S1&code=Y")), respond());
}
