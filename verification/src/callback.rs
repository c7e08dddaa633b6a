//! What a request to the callback URL is worth: an authorization code, a
//! token, or nothing, depending on the anti-forgery state it carries.

use vstd::prelude::*;
use crate::params::{find_param, first_value};
use crate::text::{decimal_u64, parse_u64};
use crate::token_info::{opt_view, Timestamp, TokenInfo, TokenInfoView};
use crate::web::pairs_view;

verus! {

/// The code that a query string hands over: the value of its first `code`
/// parameter, provided that its first `state` parameter equals the state
/// that the authorization request was issued with.
pub open spec fn code_for(pairs: Seq<(Seq<char>, Seq<char>)>, csrf_state: Seq<char>) -> Option<
    Seq<char>,
> {
    match (first_value(pairs, "state"@), first_value(pairs, "code"@)) {
        (Some(state), Some(code)) => if state == csrf_state {
            Some(code)
        } else {
            None
        },
        _ => None,
    }
}

/// The token that a posted form, received at `now`, hands over. The form
/// has to carry `access_token`, `expires_in` and `state`, each taken at its
/// first occurrence; the state has to equal the state that the
/// authorization request was issued with; and the lifetime has to be an
/// unsigned decimal number of seconds that does not lead beyond the last
/// representable second. Every other form hands nothing over.
pub open spec fn token_for(
    pairs: Seq<(Seq<char>, Seq<char>)>,
    csrf_state: Seq<char>,
    now: Timestamp,
) -> Option<TokenInfoView> {
    match (
        first_value(pairs, "access_token"@),
        first_value(pairs, "expires_in"@),
        first_value(pairs, "state"@),
    ) {
        (Some(access_token), Some(expires_in), Some(state)) => if state != csrf_state {
            None
        } else {
            match decimal_u64(expires_in) {
                Some(secs) => if now.secs_since_epoch + secs > u64::MAX {
                    None
                } else {
                    Some(
                        TokenInfoView {
                            access_token,
                            refresh_token: None,
                            expires: Some(now.plus_secs(secs)),
                            scope: None,
                        },
                    )
                },
                None => None,
            }
        },
        _ => None,
    }
}

/// The mathematical value of a token that may be missing.
pub open spec fn info_view(info: Option<TokenInfo>) -> Option<TokenInfoView> {
    match info {
        Some(i) => Some(i@),
        None => None,
    }
}

/// Decides whether a decoded query string hands over an authorization
/// code.
pub fn code_from_pairs(pairs: &Vec<(String, String)>, csrf_state: &str) -> (r: Option<String>)
    ensures
        opt_view(r) == code_for(pairs_view(pairs@), csrf_state@),
{
    let state = find_param(pairs, "state");
    let code = find_param(pairs, "code");
    match (state, code) {
        (Some(state), Some(code)) => {
            if state == csrf_state.to_owned() {
                Some(code)
            } else {
                None
            }
        },
        _ => None,
    }
}

/// Decides what a decoded form, received at `now`, hands over. A form
/// that lacks a field, carries another state or a lifetime that cannot be
/// used is passed over.
pub fn token_from_pairs(pairs: &Vec<(String, String)>, csrf_state: &str, now: Timestamp) -> (r:
    Option<TokenInfo>)
    ensures
        info_view(r) == token_for(pairs_view(pairs@), csrf_state@, now),
{
    let access_token = find_param(pairs, "access_token");
    let expires_in = find_param(pairs, "expires_in");
    let state = find_param(pairs, "state");
    match (access_token, expires_in, state) {
        (Some(access_token), Some(expires_in), Some(state)) => {
            if state != csrf_state.to_owned() {
                return None;
            }
            let secs = match parse_u64(expires_in.as_str()) {
                Some(secs) => secs,
                None => {
                    return None;
                },
            };
            match now.checked_add_secs(secs) {
                Some(expires) => Some(
                    TokenInfo {
                        access_token,
                        refresh_token: None,
                        expires: Some(expires),
                        scope: None,
                    },
                ),
                None => None,
            }
        },
        _ => None,
    }
}

/// The chunks of `entries`, written one after another with `&` between
/// them.
pub open spec fn joined(entries: Seq<Vec<u8>>) -> Seq<u8>
    decreases entries.len(),
{
    if entries.len() == 0 {
        Seq::empty()
    } else if entries.len() == 1 {
        entries[0]@
    } else {
        joined(entries.drop_last()) + seq![0x26u8] + entries.last()@
    }
}

/// Puts the chunks of a posted body together, with `&` between them.
pub fn join_entries(entries: &Vec<Vec<u8>>) -> (r: Vec<u8>)
    ensures
        r@ == joined(entries@),
{
    let mut out: Vec<u8> = Vec::new();
    let mut i: usize = 0;
    while i < entries.len()
        invariant
            i <= entries.len(),
            out@ == joined(entries@.take(i as int)),
        decreases entries.len() - i,
    {
        proof {
            assert(entries@.take(i + 1).drop_last() =~= entries@.take(i as int));
        }
        if i > 0 {
            out.push(0x26u8);
        }
        let entry = &entries[i];
        let ghost before = out@;
        let mut j: usize = 0;
        while j < entry.len()
            invariant
                j <= entry.len(),
                out@ == before + entry@.take(j as int),
            decreases entry.len() - j,
        {
            out.push(entry[j]);
            proof {
                assert(entry@.take(j + 1) =~= entry@.take(j as int).push(entry@[j as int]));
            }
            j += 1;
        }
        proof {
            assert(entry@.take(entry.len() as int) =~= entry@);
            assert(entries@.take(i + 1).last() == entries@[i as int]);
            if i == 0 {
                assert(before =~= Seq::<u8>::empty());
                assert(out@ =~= entry@);
            }
        }
        i += 1;
    }
    proof {
        assert(entries@.take(entries.len() as int) =~= entries@);
    }
    out
}

/// What a callback hands over to the grant that waits for it.
#[derive(Clone, Debug, PartialEq, Eq)]
pub enum CallbackResult {
    /// An authorization code, still to be exchanged.
    Code(String),
    /// A token that arrived with the callback itself.
    TokenPayload(TokenInfo),
}

/// The mathematical value of a [`CallbackResult`].
pub enum CallbackResultView {
    Code(Seq<char>),
    TokenPayload(TokenInfoView),
}

impl View for CallbackResult {
    type V = CallbackResultView;

    open spec fn view(&self) -> CallbackResultView {
        match *self {
            CallbackResult::Code(code) => CallbackResultView::Code(code@),
            CallbackResult::TokenPayload(info) => CallbackResultView::TokenPayload(info@),
        }
    }
}

/// Where one wait for a callback stands. It starts in `Waiting` and leaves
/// it once, for good.
#[derive(Clone, Debug, PartialEq, Eq)]
pub enum Wait {
    /// No matching callback yet, and the deadline has not passed.
    Waiting,
    /// A callback with the expected state arrived first.
    Done(CallbackResult),
    /// The deadline passed first.
    TimedOut,
}

/// The mathematical value of a [`Wait`].
pub enum WaitView {
    Waiting,
    Done(CallbackResultView),
    TimedOut,
}

impl View for Wait {
    type V = WaitView;

    open spec fn view(&self) -> WaitView {
        match *self {
            Wait::Waiting => WaitView::Waiting,
            Wait::Done(result) => WaitView::Done(result@),
            Wait::TimedOut => WaitView::TimedOut,
        }
    }
}

impl WaitView {
    /// The wait after the deadline has passed: only a wait that is still
    /// open becomes a timeout.
    pub open spec fn after_timeout(self) -> WaitView {
        match self {
            WaitView::Waiting => WaitView::TimedOut,
            other => other,
        }
    }

    /// The wait after `result` was delivered: only a wait that is still
    /// open takes it.
    pub open spec fn after_delivery(self, result: CallbackResultView) -> WaitView {
        match self {
            WaitView::Waiting => WaitView::Done(result),
            other => other,
        }
    }
}

impl Wait {
    /// Whether the wait is still open.
    pub fn is_waiting(&self) -> (r: bool)
        ensures
            r == (self@ is Waiting),
    {
        match self {
            Wait::Waiting => true,
            _ => false,
        }
    }

    /// Records that the deadline has passed. Tells whether this ended the
    /// wait, in which case whoever listens has to be stopped.
    pub fn expire(&mut self) -> (ended: bool)
        ensures
            final(self)@ == old(self)@.after_timeout(),
            ended == (old(self)@ is Waiting),
    {
        if self.is_waiting() {
            *self = Wait::TimedOut;
            true
        } else {
            false
        }
    }

    /// Records a callback that carried the expected state. Tells whether
    /// the wait took it.
    pub fn deliver(&mut self, result: CallbackResult) -> (taken: bool)
        ensures
            final(self)@ == old(self)@.after_delivery(result@),
            taken == (old(self)@ is Waiting),
    {
        if self.is_waiting() {
            *self = Wait::Done(result);
            true
        } else {
            false
        }
    }
}

/// A callback is accepted only with the state that the authorization
/// request was issued with: whatever else it carries, a query string or a
/// form whose first `state` is missing or different hands nothing over.
pub proof fn lemma_foreign_state_is_never_accepted(
    pairs: Seq<(Seq<char>, Seq<char>)>,
    csrf_state: Seq<char>,
    now: Timestamp,
)
    requires
        first_value(pairs, "state"@) != Some(csrf_state),
    ensures
        code_for(pairs, csrf_state) is None,
        token_for(pairs, csrf_state, now) is None,
{
}

/// What is accepted is what the callback carried: the code is the first
/// `code` parameter, the token the first `access_token` field.
pub proof fn lemma_accepted_is_carried(
    pairs: Seq<(Seq<char>, Seq<char>)>,
    csrf_state: Seq<char>,
    now: Timestamp,
)
    ensures
        code_for(pairs, csrf_state) is Some ==> first_value(pairs, "state"@) == Some(csrf_state)
            && code_for(pairs, csrf_state) == first_value(pairs, "code"@),
        token_for(pairs, csrf_state, now) matches Some(info) ==> first_value(
            pairs,
            "state"@,
        ) == Some(csrf_state) && Some(info.access_token) == first_value(pairs, "access_token"@),
{
}

/// A wait is decided once: no later timeout or delivery changes a wait that
/// has left `Waiting`.
pub proof fn lemma_wait_decided_once(wait: WaitView, result: CallbackResultView)
    requires
        !(wait is Waiting),
    ensures
        wait.after_timeout() == wait,
        wait.after_delivery(result) == wait,
        wait.after_timeout().after_delivery(result) == wait,
        wait.after_delivery(result).after_timeout() == wait,
{
}

/// Whichever of the deadline and a matching callback comes first decides:
/// the other one no longer counts.
pub proof fn lemma_wait_first_wins(result: CallbackResultView)
    ensures
        WaitView::Waiting.after_timeout().after_delivery(result) == WaitView::TimedOut,
        WaitView::Waiting.after_delivery(result).after_timeout() == WaitView::Done(result),
{
}

} // verus!
