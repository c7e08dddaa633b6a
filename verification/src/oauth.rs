//! What the `oauth2` and `rand` crates contribute: authorization URLs, proof
//! keys and random values.
//!
//! Nothing in this file is proved: each function states what the crate it
//! calls returns, and the rest of the library reasons from those statements.

use vstd::prelude::*;
use oauth2::basic::BasicClient;
use oauth2::{AuthUrl, ClientId, CsrfToken, PkceCodeChallenge, PkceCodeVerifier, RedirectUrl, Scope};
use crate::web::{pairs_view, url_parses};

verus! {

/// The shortest proof key verifier that `oauth2` takes, in bytes.
pub const MIN_VERIFIER_LEN: usize = 43;

/// The longest proof key verifier that `oauth2` takes, in bytes.
pub const MAX_VERIFIER_LEN: usize = 128;

/// The number of characters of a nonce.
pub const NONCE_LEN: usize = 16;

/// The longest text, in bytes, that goes into an authorization URL.
pub const MAX_URL_TEXT_LEN: usize = 0x0100_0000;

/// The largest number of extra parameters of an authorization URL.
pub const MAX_URL_EXTRAS: usize = 8;

/// The challenge that `oauth2::PkceCodeChallenge::from_code_verifier_sha256`
/// derives from `verifier`.
pub uninterp spec fn pkce_s256_of(verifier: Seq<char>) -> Seq<char>;

/// The text of the URL that `oauth2::AuthorizationRequest::url` returns
/// for the authorization URL `base` and the parameters `pairs`: `base` as
/// the `url` crate parses it, with `pairs` appended to its query by
/// `extend_pairs`.
pub uninterp spec fn url_extended_of(base: Seq<char>, pairs: Seq<(Seq<char>, Seq<char>)>) -> Seq<
    char,
>;

/// The parameters that `oauth2::AuthorizationRequest::url` writes before
/// the extra ones: response type, client id and state, then the challenge
/// with its method, the redirect URI, and the scope unless it is empty.
pub open spec fn authorize_pairs(
    response_type: Seq<char>,
    client_id: Seq<char>,
    state: Seq<char>,
    challenge: Option<Seq<char>>,
    redirect_url: Seq<char>,
    scope: Seq<char>,
) -> Seq<(Seq<char>, Seq<char>)> {
    seq![("response_type"@, response_type), ("client_id"@, client_id), ("state"@, state)] + (
    match challenge {
        Some(c) => seq![("code_challenge"@, c), ("code_challenge_method"@, "S256"@)],
        None => Seq::empty(),
    }) + seq![("redirect_uri"@, redirect_url)] + (if scope.len() > 0 {
        seq![("scope"@, scope)]
    } else {
        Seq::empty()
    })
}

/// Whether `text` is short enough to go into an authorization URL.
pub open spec fn text_fits(text: Seq<char>) -> bool {
    vstd::utf8::encode_utf8(text).len() <= MAX_URL_TEXT_LEN
}

/// Whether `pairs` are few enough and short enough to go into an
/// authorization URL.
pub open spec fn pairs_fit(pairs: Seq<(Seq<char>, Seq<char>)>) -> bool {
    pairs.len() <= MAX_URL_EXTRAS && forall|i: int|
        0 <= i < pairs.len() ==> text_fits((#[trigger] pairs[i]).0) && text_fits(pairs[i].1)
}

/// Whether an authorization URL can be made of these texts. The `url`
/// crate keeps positions within a URL in 32 bits and gives up on a URL
/// that grows beyond them. With every text at most 16 MiB long and at most
/// eight extra parameters, the URL stays far below that, even where every
/// byte is written as three.
pub open spec fn url_fits(
    auth_url: Seq<char>,
    client_id: Seq<char>,
    redirect_url: Seq<char>,
    scope: Seq<char>,
    state: Seq<char>,
    extras: Seq<(Seq<char>, Seq<char>)>,
) -> bool {
    text_fits(auth_url) && text_fits(client_id) && text_fits(redirect_url) && text_fits(scope)
        && text_fits(state) && pairs_fit(extras)
}

/// Whether `verifier` has a length that `oauth2` takes for a proof key.
pub open spec fn verifier_fits(verifier: Seq<char>) -> bool {
    MIN_VERIFIER_LEN <= vstd::utf8::encode_utf8(verifier).len() <= MAX_VERIFIER_LEN
}

/// Calls `oauth2::PkceCodeChallenge::new_random_sha256` and keeps the
/// verifier. Of the random result only the length is stated, which the
/// crate itself asserts: 43 to 128 bytes.
#[verifier::external_body]
pub(crate) fn random_pkce_verifier() -> (r: String)
    ensures
        verifier_fits(r@),
{
    PkceCodeChallenge::new_random_sha256().1.secret().clone()
}

/// Calls `oauth2::CsrfToken::new_random`. Of the random result only a
/// bound on the length is stated: the crate encodes 16 random bytes, which
/// gives 22 bytes of text.
#[verifier::external_body]
pub(crate) fn random_csrf_state() -> (r: String)
    ensures
        text_fits(r@),
{
    CsrfToken::new_random().secret().clone()
}

/// Calls `sample_string` of `rand::distr::Alphanumeric` on the thread's
/// generator. Of the random result only the length is stated: as many
/// characters as asked for, each of one byte.
#[verifier::external_body]
pub(crate) fn random_nonce() -> (r: String)
    ensures
        r@.len() == NONCE_LEN,
        text_fits(r@),
{
    rand::distr::SampleString::sample_string(&rand::distr::Alphanumeric, &mut rand::rng(), NONCE_LEN)
}

/// Calls `oauth2::Client::authorize_url` for the code flow and asks the
/// request for its URL: the authorization URL with the parameters of
/// [`authorize_pairs`] and then `extras` appended to its query. The texts
/// are bounded so that the URL stays within what the `url` crate can hold.
#[verifier::external_body]
pub(crate) fn code_flow_url(
    auth_url: &str,
    client_id: &str,
    redirect_url: &str,
    scope: &str,
    state: &str,
    extras: &Vec<(String, String)>,
) -> (r: String)
    requires
        url_parses(auth_url@),
        url_parses(redirect_url@),
        url_fits(auth_url@, client_id@, redirect_url@, scope@, state@, pairs_view(extras@)),
    ensures
        r@ == url_extended_of(
            auth_url@,
            authorize_pairs("code"@, client_id@, state@, None, redirect_url@, scope@) + pairs_view(
                extras@,
            ),
        ),
{
    let client = BasicClient::new(ClientId::new(client_id.to_owned()))
        .set_auth_uri(AuthUrl::new(auth_url.to_owned()).unwrap())
        .set_redirect_uri(RedirectUrl::new(redirect_url.to_owned()).unwrap());
    let request = client.authorize_url(|| CsrfToken::new(state.to_owned()))
        .add_scope(Scope::new(scope.to_owned()));
    extras.iter().fold(request, |r, (k, v)| r.add_extra_param(k, v)).url().0.into()
}

/// Calls `oauth2::Client::authorize_url` for the code flow with the
/// challenge that `oauth2` derives from `verifier`, and asks the request
/// for its URL. The texts are bounded so that the URL stays within what
/// the `url` crate can hold.
#[verifier::external_body]
pub(crate) fn code_flow_url_with_pkce(
    auth_url: &str,
    client_id: &str,
    redirect_url: &str,
    scope: &str,
    state: &str,
    verifier: &str,
    extras: &Vec<(String, String)>,
) -> (r: String)
    requires
        url_parses(auth_url@),
        url_parses(redirect_url@),
        verifier_fits(verifier@),
        url_fits(auth_url@, client_id@, redirect_url@, scope@, state@, pairs_view(extras@)),
    ensures
        r@ == url_extended_of(
            auth_url@,
            authorize_pairs(
                "code"@,
                client_id@,
                state@,
                Some(pkce_s256_of(verifier@)),
                redirect_url@,
                scope@,
            ) + pairs_view(extras@),
        ),
{
    let client = BasicClient::new(ClientId::new(client_id.to_owned()))
        .set_auth_uri(AuthUrl::new(auth_url.to_owned()).unwrap())
        .set_redirect_uri(RedirectUrl::new(redirect_url.to_owned()).unwrap());
    let verifier = PkceCodeVerifier::new(verifier.to_owned());
    let request = client.authorize_url(|| CsrfToken::new(state.to_owned()))
        .add_scope(Scope::new(scope.to_owned()))
        .set_pkce_challenge(PkceCodeChallenge::from_code_verifier_sha256(&verifier));
    extras.iter().fold(request, |r, (k, v)| r.add_extra_param(k, v)).url().0.into()
}

/// Calls `oauth2::Client::authorize_url`, switches the request to the
/// implicit flow and asks it for its URL. The texts are bounded so that the
/// URL stays within what the `url` crate can hold.
#[verifier::external_body]
pub(crate) fn implicit_flow_url(
    auth_url: &str,
    client_id: &str,
    redirect_url: &str,
    scope: &str,
    state: &str,
    extras: &Vec<(String, String)>,
) -> (r: String)
    requires
        url_parses(auth_url@),
        url_parses(redirect_url@),
        url_fits(auth_url@, client_id@, redirect_url@, scope@, state@, pairs_view(extras@)),
    ensures
        r@ == url_extended_of(
            auth_url@,
            authorize_pairs("token"@, client_id@, state@, None, redirect_url@, scope@)
                + pairs_view(extras@),
        ),
{
    let client = BasicClient::new(ClientId::new(client_id.to_owned()))
        .set_auth_uri(AuthUrl::new(auth_url.to_owned()).unwrap())
        .set_redirect_uri(RedirectUrl::new(redirect_url.to_owned()).unwrap());
    let request = client.authorize_url(|| CsrfToken::new(state.to_owned()))
        .add_scope(Scope::new(scope.to_owned()))
        .use_implicit_flow();
    extras.iter().fold(request, |r, (k, v)| r.add_extra_param(k, v)).url().0.into()
}

} // verus!
