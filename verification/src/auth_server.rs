//! Capturing the callback with a listener on the local machine: this module
//! decides what each incoming request is worth.

use vstd::prelude::*;
use vstd::string::StringExecFns;
use crate::callback::{
    code_for, code_from_pairs, token_for, token_from_pairs, CallbackResult, CallbackResultView,
    Wait, WaitView,
};
use crate::params::first_value;
use crate::token_info::Timestamp;
use crate::web::{
    form_pairs, form_pairs_of, url_parses, url_path, url_path_of, url_port, url_port_of,
    url_query_of, url_query_pairs,
};

verus! {

/// The header that announces the page sent back to the browser.
pub const HTML_HEADER: &'static str = "Content-Type: text/html; charset=UTF-8";

/// The page sent back to the browser once the callback was accepted. It
/// closes its own tab.
pub const SUCCESS_PAGE: &'static str =
    "<!doctype html><html lang=\"en\"><script>window.close();</script><head><meta charset=utf-8><title>Doken</title></head><body>Successfully signed in. Close current tab.</body></html>";

/// The base that a request target is read against.
pub const LOCAL_BASE: &'static str = "http://localhost";

/// The highest port that needs special rights to listen on.
pub const LAST_RESTRICTED_PORT: u16 = 1024;

/// A request that reached the listener, as plain values.
#[derive(Clone, Debug, PartialEq, Eq)]
pub struct IncomingRequest {
    pub method: String,
    /// The request target: path and query.
    pub url: String,
    pub body: Vec<u8>,
}

/// What to do with an incoming request.
#[derive(Clone, Debug, PartialEq, Eq)]
pub enum ServerAction {
    /// Leave the request unanswered and go on listening.
    Ignore,
    /// Answer with this header and page, and stop listening.
    Respond { header: String, body: String },
    /// The wait is over: leave the request alone.
    Nothing,
}

/// The mathematical value of a [`ServerAction`].
pub enum ServerActionView {
    Ignore,
    Respond { header: Seq<char>, body: Seq<char> },
    Nothing,
}

impl View for ServerAction {
    type V = ServerActionView;

    open spec fn view(&self) -> ServerActionView {
        match *self {
            ServerAction::Ignore => ServerActionView::Ignore,
            ServerAction::Respond { header, body } => ServerActionView::Respond {
                header: header@,
                body: body@,
            },
            ServerAction::Nothing => ServerActionView::Nothing,
        }
    }
}

/// Why no listener can be set up for a callback URL.
#[derive(Clone, Copy, Debug, PartialEq, Eq, Structural)]
pub enum ServerError {
    /// The callback URL is no absolute URL.
    InvalidCallbackUrl,
    /// The callback URL names no port and its scheme has no usual one.
    UnknownPort,
}

/// What an incoming request means to a listener that is still waiting.
pub enum Hearing {
    /// The request does not carry what is waited for.
    Ignore,
    /// The request hands this over.
    Accept(CallbackResultView),
}

/// Whether a request with target `target` goes to the path of the callback
/// URL. The listener sits on the port of the callback URL, so that a
/// request that reaches it has the origin already; what is left to tell
/// is the path. A target that cannot be read goes nowhere.
pub open spec fn on_callback_path(target: Seq<char>, callback_path: Seq<char>) -> bool {
    url_parses(LOCAL_BASE@ + target) && url_path_of(LOCAL_BASE@ + target) == callback_path
}

/// The hearing of a request with target `target` while an authorization
/// code is waited for.
pub open spec fn code_hearing(
    target: Seq<char>,
    callback_path: Seq<char>,
    csrf_state: Seq<char>,
) -> Hearing {
    if !on_callback_path(target, callback_path) {
        Hearing::Ignore
    } else {
        match code_for(url_query_of(LOCAL_BASE@ + target), csrf_state) {
            Some(code) => Hearing::Accept(CallbackResultView::Code(code)),
            None => Hearing::Ignore,
        }
    }
}

/// The hearing of a request, received at `now`, while a posted token is
/// waited for.
pub open spec fn token_hearing(
    method: Seq<char>,
    target: Seq<char>,
    body: Seq<u8>,
    callback_path: Seq<char>,
    csrf_state: Seq<char>,
    now: Timestamp,
) -> Hearing {
    if !on_callback_path(target, callback_path) || method != "POST"@ {
        Hearing::Ignore
    } else {
        match token_for(form_pairs_of(body), csrf_state, now) {
            Some(info) => Hearing::Accept(CallbackResultView::TokenPayload(info)),
            None => Hearing::Ignore,
        }
    }
}

impl Hearing {
    /// What is done with the request: only an accepted one is answered.
    pub open spec fn action(self) -> ServerActionView {
        match self {
            Hearing::Ignore => ServerActionView::Ignore,
            Hearing::Accept(_) => ServerActionView::Respond {
                header: HTML_HEADER@,
                body: SUCCESS_PAGE@,
            },
        }
    }

    /// Where a wait that was open stands afterwards: only an accepted
    /// request ends it.
    pub open spec fn wait(self) -> WaitView {
        match self {
            Hearing::Accept(result) => WaitView::Done(result),
            _ => WaitView::Waiting,
        }
    }
}

/// A request that does not carry the state of the authorization request
/// never ends the wait: whatever else it carries, the listener goes on
/// listening after it.
pub proof fn lemma_forged_callback_keeps_listener_waiting(
    method: Seq<char>,
    target: Seq<char>,
    body: Seq<u8>,
    callback_path: Seq<char>,
    csrf_state: Seq<char>,
    now: Timestamp,
)
    ensures
        first_value(url_query_of(LOCAL_BASE@ + target), "state"@) != Some(csrf_state)
            ==> code_hearing(target, callback_path, csrf_state).wait() is Waiting && code_hearing(
            target,
            callback_path,
            csrf_state,
        ).action() == ServerActionView::Ignore,
        first_value(form_pairs_of(body), "state"@) != Some(csrf_state) ==> token_hearing(
            method,
            target,
            body,
            callback_path,
            csrf_state,
            now,
        ).wait() is Waiting && token_hearing(
            method,
            target,
            body,
            callback_path,
            csrf_state,
            now,
        ).action() == ServerActionView::Ignore,
{
}

/// A request to another path than that of the callback URL is passed
/// over, whatever it carries.
pub proof fn lemma_other_paths_are_ignored(
    method: Seq<char>,
    target: Seq<char>,
    body: Seq<u8>,
    callback_path: Seq<char>,
    csrf_state: Seq<char>,
    now: Timestamp,
)
    requires
        !on_callback_path(target, callback_path),
    ensures
        code_hearing(target, callback_path, csrf_state) is Ignore,
        token_hearing(method, target, body, callback_path, csrf_state, now) is Ignore,
{
}

/// A request is either accepted and answered, or passed over without an
/// answer: there is no third outcome, whatever the request holds. What is
/// accepted is what the request carried.
pub proof fn lemma_request_is_accepted_or_ignored(
    method: Seq<char>,
    target: Seq<char>,
    body: Seq<u8>,
    callback_path: Seq<char>,
    csrf_state: Seq<char>,
    now: Timestamp,
)
    ensures
        code_hearing(target, callback_path, csrf_state) is Ignore ==> code_hearing(
            target,
            callback_path,
            csrf_state,
        ).wait() is Waiting,
        token_hearing(method, target, body, callback_path, csrf_state, now) is Ignore
            ==> token_hearing(method, target, body, callback_path, csrf_state, now).wait()
            is Waiting,
        token_hearing(method, target, body, callback_path, csrf_state, now) matches Hearing::Accept(
            result,
        ) ==> result matches CallbackResultView::TokenPayload(info) && Some(info.access_token)
            == first_value(form_pairs_of(body), "access_token"@),
{
}

/// One attempt to capture a callback with a local listener.
#[derive(Clone, Debug, PartialEq, Eq)]
pub struct AuthServer {
    /// The port of `127.0.0.1` to listen on.
    pub port: u16,
    /// The path of the callback URL.
    pub callback_path: String,
    /// The state that the authorization request was issued with.
    pub csrf_state: String,
    /// Where the attempt stands.
    pub wait: Wait,
}

impl AuthServer {
    /// Starts an attempt for the callback URL: the listener belongs on the
    /// port that the URL names, or else on the usual port of its scheme,
    /// and it takes the requests to the path of the URL.
    pub fn new(callback_url: &str, csrf_state: String) -> (r: Result<AuthServer, ServerError>)
        ensures
            !url_parses(callback_url@) ==> r == Err::<AuthServer, ServerError>(
                ServerError::InvalidCallbackUrl,
            ),
            url_parses(callback_url@) && url_port_of(callback_url@) is None ==> r == Err::<
                AuthServer,
                ServerError,
            >(ServerError::UnknownPort),
            url_parses(callback_url@) && url_port_of(callback_url@) is Some ==> r is Ok
                && r->Ok_0.port == url_port_of(callback_url@)->0 && r->Ok_0.callback_path@
                == url_path_of(callback_url@) && r->Ok_0.csrf_state == csrf_state
                && r->Ok_0.wait@ is Waiting,
    {
        let port = match url_port(callback_url) {
            None => {
                return Err(ServerError::InvalidCallbackUrl);
            },
            Some(None) => {
                return Err(ServerError::UnknownPort);
            },
            Some(Some(port)) => port,
        };
        match url_path(callback_url) {
            Some(callback_path) => Ok(
                AuthServer { port, callback_path, csrf_state, wait: Wait::Waiting },
            ),
            None => Err(ServerError::InvalidCallbackUrl),
        }
    }

    /// Whether listening on the port takes special rights on most systems.
    pub fn needs_privileges(&self) -> (r: bool)
        ensures
            r == (self.port <= LAST_RESTRICTED_PORT),
    {
        self.port <= LAST_RESTRICTED_PORT
    }

    /// The answer to an accepted request.
    fn respond() -> (r: ServerAction)
        ensures
            r@ == (ServerActionView::Respond { header: HTML_HEADER@, body: SUCCESS_PAGE@ }),
    {
        ServerAction::Respond { header: HTML_HEADER.to_owned(), body: SUCCESS_PAGE.to_owned() }
    }

    /// The address of a request to the path of the callback URL; `None`
    /// for every other request.
    fn callback_address(&self, target: &str) -> (r: Option<String>)
        ensures
            r is Some <==> on_callback_path(target@, self.callback_path@),
            r is Some ==> r->0@ == LOCAL_BASE@ + target@,
    {
        let url = LOCAL_BASE.to_owned().concat(target);
        match url_path(url.as_str()) {
            Some(path) => {
                if path == self.callback_path {
                    Some(url)
                } else {
                    None
                }
            },
            None => None,
        }
    }

    /// Handles one incoming request while an authorization code is waited
    /// for. The request ends the wait only if it goes to the path of the
    /// callback URL and its query carries the expected state and a code.
    /// Once the wait is over, requests are left alone.
    pub fn get_code(&mut self, request: &IncomingRequest) -> (r: ServerAction)
        ensures
            final(self).port == old(self).port,
            final(self).callback_path == old(self).callback_path,
            final(self).csrf_state == old(self).csrf_state,
            old(self).wait@ is Waiting ==> r@ == code_hearing(
                request.url@,
                old(self).callback_path@,
                old(self).csrf_state@,
            ).action() && final(self).wait@ == code_hearing(
                request.url@,
                old(self).callback_path@,
                old(self).csrf_state@,
            ).wait(),
            !(old(self).wait@ is Waiting) ==> r@ == ServerActionView::Nothing && final(self).wait@
                == old(self).wait@,
    {
        if !self.wait.is_waiting() {
            return ServerAction::Nothing;
        }
        let url = match self.callback_address(request.url.as_str()) {
            Some(url) => url,
            None => {
                return ServerAction::Ignore;
            },
        };
        let pairs = match url_query_pairs(url.as_str()) {
            Some(pairs) => pairs,
            None => {
                return ServerAction::Ignore;
            },
        };
        match code_from_pairs(&pairs, self.csrf_state.as_str()) {
            Some(code) => {
                self.wait = Wait::Done(CallbackResult::Code(code));
                AuthServer::respond()
            },
            None => ServerAction::Ignore,
        }
    }

    /// Handles one incoming request, received at `now`, while a posted
    /// token is waited for. The request ends the wait only if it is a
    /// `POST` to the path of the callback URL whose form carries the
    /// expected state. Once the wait is over, requests are left alone.
    pub fn get_token_data(&mut self, request: &IncomingRequest, now: Timestamp) -> (r:
        ServerAction)
        ensures
            final(self).port == old(self).port,
            final(self).callback_path == old(self).callback_path,
            final(self).csrf_state == old(self).csrf_state,
            old(self).wait@ is Waiting ==> r@ == token_hearing(
                request.method@,
                request.url@,
                request.body@,
                old(self).callback_path@,
                old(self).csrf_state@,
                now,
            ).action() && final(self).wait@ == token_hearing(
                request.method@,
                request.url@,
                request.body@,
                old(self).callback_path@,
                old(self).csrf_state@,
                now,
            ).wait(),
            !(old(self).wait@ is Waiting) ==> r@ == ServerActionView::Nothing && final(self).wait@
                == old(self).wait@,
    {
        if !self.wait.is_waiting() {
            return ServerAction::Nothing;
        }
        if self.callback_address(request.url.as_str()).is_none() {
            return ServerAction::Ignore;
        }
        if request.method != "POST".to_owned() {
            return ServerAction::Ignore;
        }
        let pairs = form_pairs(request.body.as_slice());
        match token_from_pairs(&pairs, self.csrf_state.as_str(), now) {
            Some(info) => {
                self.wait = Wait::Done(CallbackResult::TokenPayload(info));
                AuthServer::respond()
            },
            None => ServerAction::Ignore,
        }
    }

    /// Records that the deadline has passed. Tells whether this ended the
    /// wait, in which case the listener has to be unblocked.
    pub fn timed_out(&mut self) -> (unblock: bool)
        ensures
            final(self).port == old(self).port,
            final(self).callback_path == old(self).callback_path,
            final(self).csrf_state == old(self).csrf_state,
            final(self).wait@ == old(self).wait@.after_timeout(),
            unblock == (old(self).wait@ is Waiting),
    {
        self.wait.expire()
    }
}

} // verus!
