//! Capturing the callback inside a browser page: every request the page
//! makes is paused, and this module decides what becomes of it.

use vstd::prelude::*;
use vstd::string::StringSliceAdditionalSpecFns;
use crate::callback::{
    code_for, code_from_pairs, join_entries, joined, token_for, token_from_pairs, CallbackResult,
    CallbackResultView, Wait, WaitView,
};
use crate::token_info::Timestamp;
use crate::web::{
    base64_standard, base64_standard_of, form_pairs, form_pairs_of, url_origins_equal, url_parses,
    url_path, url_path_of, url_query_of, url_query_pairs, url_same_origin,
};

verus! {

/// The page shown when the callback was accepted.
pub const CONTENT_OK: &'static str = "<html><head></head><body><h1>OK</h1></body></html>";

/// The page shown when the callback was not accepted.
pub const CONTENT_NOT_OK: &'static str = "<html><head></head><body><h1>NOT OK</h1></body></html>";

/// A request that the browser has paused, as plain values.
#[derive(Clone, Debug, PartialEq, Eq)]
pub struct PausedRequest {
    pub method: String,
    pub url: String,
    /// The chunks of the posted body, if any was posted.
    pub post_data_entries: Vec<Vec<u8>>,
}

/// What to do with a paused request.
#[derive(Clone, Debug, PartialEq, Eq)]
pub enum PageAction {
    /// Let the request go on to the network unchanged.
    ContinueRequest,
    /// Answer the request locally, with this base64 body and status.
    FulfillRequest { body: String, response_code: u16 },
    /// The wait is over: leave the request alone.
    Nothing,
}

/// The mathematical value of a [`PageAction`].
pub enum PageActionView {
    ContinueRequest,
    FulfillRequest { body: Seq<char>, response_code: u16 },
    Nothing,
}

impl View for PageAction {
    type V = PageActionView;

    open spec fn view(&self) -> PageActionView {
        match *self {
            PageAction::ContinueRequest => PageActionView::ContinueRequest,
            PageAction::FulfillRequest { body, response_code } => PageActionView::FulfillRequest {
                body: body@,
                response_code,
            },
            PageAction::Nothing => PageActionView::Nothing,
        }
    }
}

/// What a paused request means to a page that is still waiting.
pub enum Verdict {
    /// The request goes elsewhere than to the callback URL.
    PassThrough,
    /// The request goes to the callback URL without what is waited for.
    Reject,
    /// The request goes to the callback URL and hands this over.
    Accept(CallbackResultView),
}

/// Whether a request goes to the callback URL: same origin and same path.
/// An address that is no absolute URL goes nowhere, and nothing goes to a
/// callback URL that is none.
pub open spec fn is_callback(request_url: Seq<char>, callback_url: Seq<char>) -> bool {
    url_parses(request_url) && url_parses(callback_url) && url_origins_equal(
        request_url,
        callback_url,
    ) && url_path_of(request_url) == url_path_of(callback_url)
}

/// The verdict on a paused request while an authorization code is waited
/// for.
pub open spec fn code_verdict(
    request_url: Seq<char>,
    callback_url: Seq<char>,
    csrf_state: Seq<char>,
) -> Verdict {
    if !is_callback(request_url, callback_url) {
        Verdict::PassThrough
    } else {
        match code_for(url_query_of(request_url), csrf_state) {
            Some(code) => Verdict::Accept(CallbackResultView::Code(code)),
            None => Verdict::Reject,
        }
    }
}

/// The verdict on a paused request, seen at `now`, while a posted token is
/// waited for.
pub open spec fn token_verdict(
    method: Seq<char>,
    request_url: Seq<char>,
    entries: Seq<Vec<u8>>,
    callback_url: Seq<char>,
    csrf_state: Seq<char>,
    now: Timestamp,
) -> Verdict {
    if !is_callback(request_url, callback_url) {
        Verdict::PassThrough
    } else if method != "POST"@ {
        Verdict::Reject
    } else {
        match token_for(form_pairs_of(joined(entries)), csrf_state, now) {
            Some(info) => Verdict::Accept(CallbackResultView::TokenPayload(info)),
            None => Verdict::Reject,
        }
    }
}

impl Verdict {
    /// What is done with the request: the callback is always answered
    /// locally, with a page that tells whether it was accepted; everything
    /// else goes on to the network.
    pub open spec fn action(self) -> PageActionView {
        match self {
            Verdict::PassThrough => PageActionView::ContinueRequest,
            Verdict::Reject => PageActionView::FulfillRequest {
                body: base64_standard_of(CONTENT_NOT_OK.spec_bytes()),
                response_code: 200,
            },
            Verdict::Accept(_) => PageActionView::FulfillRequest {
                body: base64_standard_of(CONTENT_OK.spec_bytes()),
                response_code: 200,
            },
        }
    }

    /// Where a wait that was open stands afterwards: only an accepted
    /// callback ends it.
    pub open spec fn wait(self) -> WaitView {
        match self {
            Verdict::Accept(result) => WaitView::Done(result),
            _ => WaitView::Waiting,
        }
    }
}

/// Every request to the callback URL is answered locally, with status 200
/// and one of the two pages, whatever it carries; every other request goes
/// on to the network unchanged.
pub proof fn lemma_callback_is_always_answered(
    method: Seq<char>,
    request_url: Seq<char>,
    entries: Seq<Vec<u8>>,
    callback_url: Seq<char>,
    csrf_state: Seq<char>,
    now: Timestamp,
)
    ensures
        ({
            let code = code_verdict(request_url, callback_url, csrf_state);
            let token = token_verdict(method, request_url, entries, callback_url, csrf_state, now);
            let ok = PageActionView::FulfillRequest {
                body: base64_standard_of(CONTENT_OK.spec_bytes()),
                response_code: 200,
            };
            let not_ok = PageActionView::FulfillRequest {
                body: base64_standard_of(CONTENT_NOT_OK.spec_bytes()),
                response_code: 200,
            };
            if is_callback(request_url, callback_url) {
                &&& code.action() == (if code is Accept {
                    ok
                } else {
                    not_ok
                })
                &&& token.action() == (if token is Accept {
                    ok
                } else {
                    not_ok
                })
            } else {
                code.action() == PageActionView::ContinueRequest && token.action()
                    == PageActionView::ContinueRequest
            }
        }),
{
}

/// A request that does not carry the state of the authorization request
/// never ends the wait: whatever else it carries and wherever it goes, the
/// page goes on waiting after it.
pub proof fn lemma_forged_callback_keeps_page_waiting(
    method: Seq<char>,
    request_url: Seq<char>,
    entries: Seq<Vec<u8>>,
    callback_url: Seq<char>,
    csrf_state: Seq<char>,
    now: Timestamp,
)
    ensures
        crate::params::first_value(url_query_of(request_url), "state"@) != Some(csrf_state)
            ==> code_verdict(request_url, callback_url, csrf_state).wait() is Waiting,
        crate::params::first_value(form_pairs_of(joined(entries)), "state"@) != Some(csrf_state)
            ==> token_verdict(method, request_url, entries, callback_url, csrf_state, now).wait()
            is Waiting,
{
}

/// One attempt to capture a callback in a browser page.
#[derive(Clone, Debug, PartialEq, Eq)]
pub struct Page {
    /// Where the authorization server sends the browser back to.
    pub callback_url: String,
    /// The state that the authorization request was issued with.
    pub csrf_state: String,
    /// Where the attempt stands.
    pub wait: Wait,
}

impl Page {
    /// Starts an attempt; `None` when `callback_url` is no absolute URL.
    pub fn new(callback_url: String, csrf_state: String) -> (r: Option<Page>)
        ensures
            r is Some <==> url_parses(callback_url@),
            r is Some ==> r->0.callback_url == callback_url && r->0.csrf_state == csrf_state
                && r->0.wait@ is Waiting,
    {
        if crate::web::url_is_valid(callback_url.as_str()) {
            Some(Page { callback_url, csrf_state, wait: Wait::Waiting })
        } else {
            None
        }
    }

    /// Tells whether `request_url` goes to the callback URL.
    pub fn targets_callback(&self, request_url: &str) -> (r: bool)
        ensures
            r == is_callback(request_url@, self.callback_url@),
    {
        let same_origin = url_same_origin(request_url, self.callback_url.as_str());
        let request_path = url_path(request_url);
        let callback_path = url_path(self.callback_url.as_str());
        match (same_origin, request_path, callback_path) {
            (Some(same), Some(request_path), Some(callback_path)) => same && request_path
                == callback_path,
            _ => false,
        }
    }

    /// The answer to a paused request that went to the callback URL.
    fn fulfill(accepted: bool) -> (r: PageAction)
        ensures
            r@ == (PageActionView::FulfillRequest {
                body: base64_standard_of(
                    if accepted {
                        CONTENT_OK.spec_bytes()
                    } else {
                        CONTENT_NOT_OK.spec_bytes()
                    },
                ),
                response_code: 200,
            }),
    {
        let content = if accepted {
            CONTENT_OK
        } else {
            CONTENT_NOT_OK
        };
        PageAction::FulfillRequest { body: base64_standard(content.as_bytes()), response_code: 200 }
    }

    /// Handles one paused request while an authorization code is waited
    /// for. A request to the callback URL is answered locally; it ends the
    /// wait only if it carries the expected state and a code. Once the wait
    /// is over, requests are left alone.
    pub fn get_code(&mut self, request: &PausedRequest) -> (r: PageAction)
        ensures
            final(self).callback_url == old(self).callback_url,
            final(self).csrf_state == old(self).csrf_state,
            old(self).wait@ is Waiting ==> r@ == code_verdict(
                request.url@,
                old(self).callback_url@,
                old(self).csrf_state@,
            ).action() && final(self).wait@ == code_verdict(
                request.url@,
                old(self).callback_url@,
                old(self).csrf_state@,
            ).wait(),
            !(old(self).wait@ is Waiting) ==> r@ == PageActionView::Nothing && final(self).wait@
                == old(self).wait@,
    {
        if !self.wait.is_waiting() {
            return PageAction::Nothing;
        }
        if !self.targets_callback(request.url.as_str()) {
            return PageAction::ContinueRequest;
        }
        let pairs = match url_query_pairs(request.url.as_str()) {
            Some(pairs) => pairs,
            None => {
                return PageAction::ContinueRequest;
            },
        };
        match code_from_pairs(&pairs, self.csrf_state.as_str()) {
            Some(code) => {
                self.wait = Wait::Done(CallbackResult::Code(code));
                Page::fulfill(true)
            },
            None => Page::fulfill(false),
        }
    }

    /// Handles one paused request, seen at `now`, while a posted token is
    /// waited for. A request to the callback URL is answered locally; it
    /// ends the wait only if it is a `POST` whose form carries the expected
    /// state. Once the wait is over, requests are left alone.
    pub fn get_token_data(&mut self, request: &PausedRequest, now: Timestamp) -> (r: PageAction)
        ensures
            final(self).callback_url == old(self).callback_url,
            final(self).csrf_state == old(self).csrf_state,
            old(self).wait@ is Waiting ==> r@ == token_verdict(
                request.method@,
                request.url@,
                request.post_data_entries@,
                old(self).callback_url@,
                old(self).csrf_state@,
                now,
            ).action() && final(self).wait@ == token_verdict(
                request.method@,
                request.url@,
                request.post_data_entries@,
                old(self).callback_url@,
                old(self).csrf_state@,
                now,
            ).wait(),
            !(old(self).wait@ is Waiting) ==> r@ == PageActionView::Nothing && final(self).wait@
                == old(self).wait@,
    {
        if !self.wait.is_waiting() {
            return PageAction::Nothing;
        }
        if !self.targets_callback(request.url.as_str()) {
            return PageAction::ContinueRequest;
        }
        if request.method != "POST".to_owned() {
            return Page::fulfill(false);
        }
        let body = join_entries(&request.post_data_entries);
        let pairs = form_pairs(body.as_slice());
        match token_from_pairs(&pairs, self.csrf_state.as_str(), now) {
            Some(info) => {
                self.wait = Wait::Done(CallbackResult::TokenPayload(info));
                Page::fulfill(true)
            },
            None => Page::fulfill(false),
        }
    }

    /// Records that the deadline has passed. Tells whether this ended the
    /// wait.
    pub fn timed_out(&mut self) -> (ended: bool)
        ensures
            final(self).callback_url == old(self).callback_url,
            final(self).csrf_state == old(self).csrf_state,
            final(self).wait@ == old(self).wait@.after_timeout(),
            ended == (old(self).wait@ is Waiting),
    {
        self.wait.expire()
    }
}

} // verus!
