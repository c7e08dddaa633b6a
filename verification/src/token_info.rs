//! The durable unit of the token cache and the moment a token stops being
//! usable.

use vstd::prelude::*;
use vstd::string::StringExecFns;

verus! {

/// A point in time, counted from the Unix epoch.
#[derive(Clone, Copy, Debug, PartialEq, Eq, Structural)]
pub struct Timestamp {
    pub secs_since_epoch: u64,
    pub nanos_since_epoch: u32,
}

impl Timestamp {
    /// The position of the timestamp on the time line, in nanoseconds.
    pub open spec fn nanos(self) -> int {
        self.secs_since_epoch as int * 1_000_000_000 + self.nanos_since_epoch as int
    }

    /// A timestamp is well formed when its sub-second part is below one
    /// second.
    pub open spec fn wf(self) -> bool {
        self.nanos_since_epoch < 1_000_000_000
    }

    /// The timestamp `secs` whole seconds after `self`.
    pub open spec fn plus_secs(self, secs: u64) -> Timestamp {
        Timestamp {
            secs_since_epoch: (self.secs_since_epoch + secs) as u64,
            nanos_since_epoch: self.nanos_since_epoch,
        }
    }

    /// Whether `self` lies strictly before `other`.
    pub open spec fn before(self, other: Timestamp) -> bool {
        self.secs_since_epoch < other.secs_since_epoch || (self.secs_since_epoch
            == other.secs_since_epoch && self.nanos_since_epoch < other.nanos_since_epoch)
    }

    /// Strict comparison on the time line.
    pub fn is_before(&self, other: &Timestamp) -> (r: bool)
        ensures
            r == self.before(*other),
            self.wf() && other.wf() ==> (r <==> self.nanos() < other.nanos()),
    {
        self.secs_since_epoch < other.secs_since_epoch || (self.secs_since_epoch
            == other.secs_since_epoch && self.nanos_since_epoch < other.nanos_since_epoch)
    }

    /// Moves the timestamp forward by whole seconds; `None` when the result
    /// would not fit.
    pub fn checked_add_secs(&self, secs: u64) -> (r: Option<Timestamp>)
        ensures
            r is Some <==> self.secs_since_epoch + secs <= u64::MAX,
            r is Some ==> r->0 == self.plus_secs(secs),
    {
        match self.secs_since_epoch.checked_add(secs) {
            Some(total) => Some(
                Timestamp { secs_since_epoch: total, nanos_since_epoch: self.nanos_since_epoch },
            ),
            None => None,
        }
    }
}

/// What a token endpoint answered, as plain values.
#[derive(Clone, Debug, PartialEq, Eq)]
pub struct TokenResponse {
    pub access_token: String,
    pub refresh_token: Option<String>,
    /// Lifetime of the access token in seconds, when the server stated one.
    pub expires_in: Option<u64>,
    /// The scopes the server granted, when it listed them.
    pub scopes: Option<Vec<String>>,
}

/// A token together with what is needed to reuse or renew it.
#[derive(Clone, Debug, PartialEq, Eq)]
pub struct TokenInfo {
    pub access_token: String,
    pub refresh_token: Option<String>,
    pub expires: Option<Timestamp>,
    pub scope: Option<String>,
}

/// The mathematical value of a [`TokenInfo`].
pub struct TokenInfoView {
    pub access_token: Seq<char>,
    pub refresh_token: Option<Seq<char>>,
    pub expires: Option<Timestamp>,
    pub scope: Option<Seq<char>>,
}

/// The view of an optional string.
pub open spec fn opt_view(s: Option<String>) -> Option<Seq<char>> {
    match s {
        Some(text) => Some(text@),
        None => None,
    }
}

/// All strings of `parts` written one after another, with nothing between
/// them.
pub open spec fn concat_all(parts: Seq<String>) -> Seq<char>
    decreases parts.len(),
{
    if parts.len() == 0 {
        Seq::empty()
    } else {
        concat_all(parts.drop_last()) + parts.last()@
    }
}

/// Copies an optional string.
pub fn clone_opt_string(s: &Option<String>) -> (r: Option<String>)
    ensures
        r == *s,
{
    match s {
        Some(text) => Some(text.clone()),
        None => None,
    }
}

impl View for TokenInfo {
    type V = TokenInfoView;

    open spec fn view(&self) -> TokenInfoView {
        TokenInfoView {
            access_token: self.access_token@,
            refresh_token: opt_view(self.refresh_token),
            expires: self.expires,
            scope: opt_view(self.scope),
        }
    }
}

impl TokenInfoView {
    /// A token without an expiry never expires; one with an expiry is
    /// expired once that moment lies strictly before `now`.
    pub open spec fn expired_at(self, now: Timestamp) -> bool {
        match self.expires {
            Some(expires) => expires.before(now),
            None => false,
        }
    }
}

impl TokenResponse {
    /// The token that `self` stands for when it was received at `now`.
    pub open spec fn info_at(self, now: Timestamp) -> TokenInfoView {
        TokenInfoView {
            access_token: self.access_token@,
            refresh_token: opt_view(self.refresh_token),
            expires: match self.expires_in {
                Some(secs) => Some(now.plus_secs(secs)),
                None => None,
            },
            scope: match self.scopes {
                Some(scopes) => Some(concat_all(scopes@)),
                None => None,
            },
        }
    }

    /// Whether the expiry of `self`, received at `now`, can be represented.
    pub open spec fn fits_at(self, now: Timestamp) -> bool {
        self.expires_in matches Some(secs) ==> now.secs_since_epoch + secs <= u64::MAX
    }
}

/// Writes the strings of `parts` one after another.
pub fn join_scopes(parts: &Vec<String>) -> (r: String)
    ensures
        r@ == concat_all(parts@),
{
    let mut out = String::new();
    let mut i: usize = 0;
    while i < parts.len()
        invariant
            i <= parts.len(),
            out@ == concat_all(parts@.take(i as int)),
        decreases parts.len() - i,
    {
        proof {
            assert(parts@.take(i + 1).drop_last() =~= parts@.take(i as int));
        }
        out.append(parts[i].as_str());
        i += 1;
    }
    proof {
        assert(parts@.take(parts.len() as int) =~= parts@);
    }
    out
}

impl TokenInfo {
    /// Turns the answer of a token endpoint, received at `now`, into the
    /// token to keep: the expiry becomes absolute and the granted scopes are
    /// written as one string.
    pub fn from_token_response(response: TokenResponse, now: Timestamp) -> (r: TokenInfo)
        requires
            response.fits_at(now),
        ensures
            r@ == response.info_at(now),
    {
        let expires = match response.expires_in {
            Some(secs) => now.checked_add_secs(secs),
            None => None,
        };
        let scope = match &response.scopes {
            Some(scopes) => Some(join_scopes(scopes)),
            None => None,
        };
        TokenInfo {
            access_token: response.access_token,
            refresh_token: response.refresh_token,
            expires,
            scope,
        }
    }

    /// Like [`TokenInfo::from_token_response`], for any answer: `None` when
    /// the expiry would lie beyond the last representable second.
    pub fn try_from_token_response(response: TokenResponse, now: Timestamp) -> (r: Option<
        TokenInfo,
    >)
        ensures
            r is Some <==> response.fits_at(now),
            r is Some ==> r->0@ == response.info_at(now),
    {
        let fits = match response.expires_in {
            Some(secs) => now.checked_add_secs(secs).is_some(),
            None => true,
        };
        if fits {
            Some(TokenInfo::from_token_response(response, now))
        } else {
            None
        }
    }

    /// Whether the token can no longer be used at `now`.
    pub fn is_expired(&self, now: &Timestamp) -> (r: bool)
        ensures
            r == self@.expired_at(*now),
    {
        match &self.expires {
            Some(expires) => expires.is_before(now),
            None => false,
        }
    }

    /// An independent copy with the same value.
    pub fn duplicate(&self) -> (r: TokenInfo)
        ensures
            r@ == self@,
    {
        TokenInfo {
            access_token: self.access_token.clone(),
            refresh_token: clone_opt_string(&self.refresh_token),
            expires: self.expires,
            scope: clone_opt_string(&self.scope),
        }
    }
}

} // verus!
