//! The protocol client: which endpoints an acquisition talks to, which URL
//! the user is sent to, and what is asked of the token endpoint.

use vstd::prelude::*;
use vstd::string::StringExecFns;
use crate::args::Arguments;
use crate::grant::Grant;
use crate::oauth::{
    authorize_pairs, code_flow_url, code_flow_url_with_pkce, implicit_flow_url, pairs_fit,
    pkce_s256_of, random_csrf_state, random_nonce, random_pkce_verifier, text_fits,
    url_extended_of, url_fits, verifier_fits, MAX_URL_EXTRAS, MAX_URL_TEXT_LEN, MAX_VERIFIER_LEN,
    MIN_VERIFIER_LEN, NONCE_LEN,
};
use crate::text::{remove_all, without};
use crate::token_info::{clone_opt_string, opt_view};
use crate::web::{pairs_view, url_is_valid, url_parses};

verus! {

/// The scope that makes no sense when a client acts for itself.
pub const OFFLINE_ACCESS: &'static str = "offline_access";

/// The two endpoints that a discovery document advertises.
#[derive(Clone, Debug, PartialEq, Eq)]
pub struct OpenIDProviderMetadata {
    pub token_endpoint: String,
    pub authorization_endpoint: String,
}

impl OpenIDProviderMetadata {
    /// An independent copy with the same value.
    pub fn duplicate(&self) -> (r: OpenIDProviderMetadata)
        ensures
            r == *self,
    {
        OpenIDProviderMetadata {
            token_endpoint: self.token_endpoint.clone(),
            authorization_endpoint: self.authorization_endpoint.clone(),
        }
    }
}

/// The endpoints of one acquisition, once resolved.
#[derive(Clone, Debug, PartialEq, Eq)]
pub struct EndpointSet {
    pub token_url: Option<String>,
    pub authorization_url: Option<String>,
}

/// The URLs of a configuration.
#[derive(Clone, Copy, Debug, PartialEq, Eq, Structural)]
pub enum EndpointField {
    TokenUrl,
    AuthorizationUrl,
    CallbackUrl,
}

/// Why a configuration cannot be turned into a client, or a client cannot
/// make a request.
#[derive(Clone, Copy, Debug, PartialEq, Eq, Structural)]
pub enum ConfigError {
    /// A discovery URL is configured and no discovery document was had.
    DiscoveryFailed,
    /// The grant needs this URL and it is neither configured nor
    /// discovered.
    MissingEndpoint(EndpointField),
    /// This URL is no absolute URL.
    InvalidEndpoint(EndpointField),
    /// The password grant is asked for without a user name.
    MissingUsername,
    /// The password grant is asked for without a password.
    MissingPassword,
    /// The proof key is shorter than 43 or longer than 128 bytes.
    InvalidVerifier,
    /// A text that goes into the authorization URL is longer than 16 MiB.
    UrlTooLong,
}

impl ConfigError {
    /// The sentence that belongs to each fault.
    pub open spec fn text(self) -> Seq<char> {
        match self {
            ConfigError::DiscoveryFailed => "Failed during OIDC discovery call"@,
            ConfigError::MissingEndpoint(EndpointField::TokenUrl) =>
                "`--token-url` has to be provided"@,
            ConfigError::MissingEndpoint(EndpointField::AuthorizationUrl) =>
                "`--authorization-url` has to be provided"@,
            ConfigError::MissingEndpoint(EndpointField::CallbackUrl) =>
                "`--callback-url` has to be provided"@,
            ConfigError::InvalidEndpoint(EndpointField::TokenUrl) =>
                "`--token-url` is not a correct absolute URL."@,
            ConfigError::InvalidEndpoint(EndpointField::AuthorizationUrl) =>
                "`--authorization-url` is not a correct absolute URL."@,
            ConfigError::InvalidEndpoint(EndpointField::CallbackUrl) =>
                "`--callback-url` is not a correct absolute URL."@,
            ConfigError::MissingUsername => "`--username` has to be provided"@,
            ConfigError::MissingPassword => "`--password` has to be provided"@,
            ConfigError::InvalidVerifier => "The proof key has to be 43 to 128 bytes long"@,
            ConfigError::UrlTooLong => "The authorization URL would be too long"@,
        }
    }

    /// The sentence shown for the fault.
    pub fn message(&self) -> (r: &'static str)
        ensures
            r@ == self.text(),
    {
        match self {
            ConfigError::DiscoveryFailed => "Failed during OIDC discovery call",
            ConfigError::MissingEndpoint(EndpointField::TokenUrl) =>
                "`--token-url` has to be provided",
            ConfigError::MissingEndpoint(EndpointField::AuthorizationUrl) =>
                "`--authorization-url` has to be provided",
            ConfigError::MissingEndpoint(EndpointField::CallbackUrl) =>
                "`--callback-url` has to be provided",
            ConfigError::InvalidEndpoint(EndpointField::TokenUrl) =>
                "`--token-url` is not a correct absolute URL.",
            ConfigError::InvalidEndpoint(EndpointField::AuthorizationUrl) =>
                "`--authorization-url` is not a correct absolute URL.",
            ConfigError::InvalidEndpoint(EndpointField::CallbackUrl) =>
                "`--callback-url` is not a correct absolute URL.",
            ConfigError::MissingUsername => "`--username` has to be provided",
            ConfigError::MissingPassword => "`--password` has to be provided",
            ConfigError::InvalidVerifier => "The proof key has to be 43 to 128 bytes long",
            ConfigError::UrlTooLong => "The authorization URL would be too long",
        }
    }
}

/// One single-use request to the authorization endpoint.
#[derive(Clone, Debug, PartialEq, Eq)]
pub struct AuthorizationRequest {
    /// Where to send the user.
    pub url: String,
    /// The state that the callback has to echo.
    pub csrf_state: String,
    /// The proof key to present when the code is exchanged.
    pub pkce_verifier: Option<String>,
    /// The nonce of a code flow.
    pub nonce: Option<String>,
}

/// What is asked of the token endpoint.
#[derive(Clone, Debug, PartialEq, Eq)]
pub enum TokenGrant {
    AuthorizationCode { code: String, pkce_verifier: Option<String> },
    ClientCredentials { scope: String, audience: Option<String> },
    Password { username: String, password: String, scope: String, audience: Option<String> },
    RefreshToken { refresh_token: String },
}

/// One request to the token endpoint.
#[derive(Clone, Debug, PartialEq, Eq)]
pub struct TokenRequest {
    pub token_url: String,
    pub grant: TokenGrant,
}

/// The mathematical value of an [`AuthorizationRequest`].
pub struct AuthorizationRequestView {
    pub url: Seq<char>,
    pub csrf_state: Seq<char>,
    pub pkce_verifier: Option<Seq<char>>,
    pub nonce: Option<Seq<char>>,
}

impl View for AuthorizationRequest {
    type V = AuthorizationRequestView;

    open spec fn view(&self) -> AuthorizationRequestView {
        AuthorizationRequestView {
            url: self.url@,
            csrf_state: self.csrf_state@,
            pkce_verifier: opt_view(self.pkce_verifier),
            nonce: opt_view(self.nonce),
        }
    }
}

/// The mathematical value of a [`TokenGrant`].
pub enum TokenGrantView {
    AuthorizationCode { code: Seq<char>, pkce_verifier: Option<Seq<char>> },
    ClientCredentials { scope: Seq<char>, audience: Option<Seq<char>> },
    Password {
        username: Seq<char>,
        password: Seq<char>,
        scope: Seq<char>,
        audience: Option<Seq<char>>,
    },
    RefreshToken { refresh_token: Seq<char> },
}

impl View for TokenGrant {
    type V = TokenGrantView;

    open spec fn view(&self) -> TokenGrantView {
        match *self {
            TokenGrant::AuthorizationCode { code, pkce_verifier } => {
                TokenGrantView::AuthorizationCode {
                    code: code@,
                    pkce_verifier: opt_view(pkce_verifier),
                }
            },
            TokenGrant::ClientCredentials { scope, audience } => TokenGrantView::ClientCredentials {
                scope: scope@,
                audience: opt_view(audience),
            },
            TokenGrant::Password { username, password, scope, audience } => {
                TokenGrantView::Password {
                    username: username@,
                    password: password@,
                    scope: scope@,
                    audience: opt_view(audience),
                }
            },
            TokenGrant::RefreshToken { refresh_token } => TokenGrantView::RefreshToken {
                refresh_token: refresh_token@,
            },
        }
    }
}

/// The mathematical value of a [`TokenRequest`].
pub struct TokenRequestView {
    pub token_url: Seq<char>,
    pub grant: TokenGrantView,
}

impl View for TokenRequest {
    type V = TokenRequestView;

    open spec fn view(&self) -> TokenRequestView {
        TokenRequestView { token_url: self.token_url@, grant: self.grant@ }
    }
}

/// The mathematical value of an authorization request that may have
/// failed to come about.
pub open spec fn authorization_view(r: Result<AuthorizationRequest, ConfigError>) -> Result<
    AuthorizationRequestView,
    ConfigError,
> {
    match r {
        Ok(request) => Ok(request@),
        Err(e) => Err(e),
    }
}

/// The mathematical value of a request to the token endpoint that may
/// have failed to come about.
pub open spec fn request_view(r: Result<TokenRequest, ConfigError>) -> Result<
    TokenRequestView,
    ConfigError,
> {
    match r {
        Ok(request) => Ok(request@),
        Err(e) => Err(e),
    }
}

/// The endpoints that a configuration names, before they are checked: the
/// discovered ones where a discovery URL is configured, else the
/// configured ones.
pub open spec fn candidates(args: Arguments, discovered: Option<OpenIDProviderMetadata>) -> Result<
    (Option<Seq<char>>, Option<Seq<char>>),
    ConfigError,
> {
    if args.discovery_url is Some {
        match discovered {
            None => Err(ConfigError::DiscoveryFailed),
            Some(metadata) => Ok(
                (Some(metadata.token_endpoint@), Some(metadata.authorization_endpoint@)),
            ),
        }
    } else {
        Ok((opt_view(args.token_url), opt_view(args.authorization_url)))
    }
}

/// The first thing that is wrong with the endpoints of a grant. An
/// interactive grant needs an authorization URL and a callback URL, every
/// other grant a token URL, and whatever is there has to be an absolute
/// URL.
pub open spec fn endpoint_fault(
    grant: Grant,
    token: Option<Seq<char>>,
    authorization: Option<Seq<char>>,
    callback: Option<Seq<char>>,
) -> Option<ConfigError> {
    if grant.interactive() && authorization is None {
        Some(ConfigError::MissingEndpoint(EndpointField::AuthorizationUrl))
    } else if !grant.interactive() && token is None {
        Some(ConfigError::MissingEndpoint(EndpointField::TokenUrl))
    } else if token is Some && !url_parses(token->0) {
        Some(ConfigError::InvalidEndpoint(EndpointField::TokenUrl))
    } else if authorization is Some && !url_parses(authorization->0) {
        Some(ConfigError::InvalidEndpoint(EndpointField::AuthorizationUrl))
    } else if grant.interactive() && callback is None {
        Some(ConfigError::MissingEndpoint(EndpointField::CallbackUrl))
    } else if callback is Some && !url_parses(callback->0) {
        Some(ConfigError::InvalidEndpoint(EndpointField::CallbackUrl))
    } else {
        None
    }
}

/// What keeps a configuration, with the discovery document that was had
/// for it, from being turned into a client.
pub open spec fn client_fault(
    args: Arguments,
    discovered: Option<OpenIDProviderMetadata>,
) -> Option<ConfigError> {
    match candidates(args, discovered) {
        Err(e) => Some(e),
        Ok(found) => endpoint_fault(args.grant, found.0, found.1, opt_view(args.callback_url)),
    }
}

/// Whether `client` is the client of the configuration `args` with the
/// discovery document `discovered`: it keeps the configuration and talks
/// to the endpoints that the two name.
pub open spec fn is_client_of(
    client: OAuthClient,
    args: Arguments,
    discovered: Option<OpenIDProviderMetadata>,
) -> bool {
    &&& client_fault(args, discovered) is None
    &&& client.args() == args
    &&& candidates(args, discovered) matches Ok(found) && opt_view(client.endpoints().token_url)
        == found.0 && opt_view(client.endpoints().authorization_url) == found.1
}

/// The value that was provided for the URL that `error` finds fault with:
/// the discovered one where a discovery document is used, else the
/// configured one. Only an invalid URL has such a value.
pub open spec fn provided_value(
    args: Arguments,
    discovered: Option<OpenIDProviderMetadata>,
    error: ConfigError,
) -> Option<Seq<char>> {
    match error {
        ConfigError::InvalidEndpoint(EndpointField::TokenUrl) => match candidates(
            args,
            discovered,
        ) {
            Ok(found) => found.0,
            Err(_) => None,
        },
        ConfigError::InvalidEndpoint(EndpointField::AuthorizationUrl) => match candidates(
            args,
            discovered,
        ) {
            Ok(found) => found.1,
            Err(_) => None,
        },
        ConfigError::InvalidEndpoint(EndpointField::CallbackUrl) => opt_view(args.callback_url),
        _ => None,
    }
}

/// The sentence for `error` together with the value that was provided for
/// the URL it names, where there is one.
pub open spec fn description(
    args: Arguments,
    discovered: Option<OpenIDProviderMetadata>,
    error: ConfigError,
) -> Seq<char> {
    match provided_value(args, discovered, error) {
        Some(value) => error.text() + " Provided value: "@ + value,
        None => error.text(),
    }
}

impl ConfigError {
    /// The sentence shown for the fault that `OAuthClient::new` found with
    /// `args` and `discovered`. For a URL that is no absolute URL it ends
    /// with the value that was provided.
    pub fn describe(&self, args: &Arguments, discovered: &Option<OpenIDProviderMetadata>) -> (r:
        String)
        ensures
            r@ == description(*args, *discovered, *self),
    {
        let (token_url, authorization_url) = if args.discovery_url.is_some() {
            match discovered {
                Some(metadata) => (
                    Some(metadata.token_endpoint.clone()),
                    Some(metadata.authorization_endpoint.clone()),
                ),
                None => (None, None),
            }
        } else {
            (clone_opt_string(&args.token_url), clone_opt_string(&args.authorization_url))
        };
        let value = match self {
            ConfigError::InvalidEndpoint(EndpointField::TokenUrl) => token_url,
            ConfigError::InvalidEndpoint(EndpointField::AuthorizationUrl) => authorization_url,
            ConfigError::InvalidEndpoint(EndpointField::CallbackUrl) => clone_opt_string(
                &args.callback_url,
            ),
            _ => None,
        };
        let mut out = self.message().to_owned();
        match value {
            Some(value) => {
                out.append(" Provided value: ");
                out.append(value.as_str());
            },
            None => {},
        }
        out
    }
}

/// The parameters that this library adds to a code flow behind those of
/// `oauth2`: the audience where one is configured, then the nonce.
pub open spec fn code_extras(audience: Option<Seq<char>>, nonce: Seq<char>) -> Seq<
    (Seq<char>, Seq<char>),
> {
    (match audience {
        Some(a) => seq![("audience"@, a)],
        None => Seq::empty(),
    }) + seq![("nonce"@, nonce)]
}

/// The parameters that this library adds to the implicit flow: the
/// audience where one is configured, then the request to post the token
/// as a form.
pub open spec fn implicit_extras(audience: Option<Seq<char>>) -> Seq<(Seq<char>, Seq<char>)> {
    (match audience {
        Some(a) => seq![("audience"@, a)],
        None => Seq::empty(),
    }) + seq![("response_mode"@, "form_post"@)]
}

/// Tells whether `text` is short enough to go into an authorization URL.
fn fits(text: &str) -> (r: bool)
    ensures
        r == text_fits(text@),
{
    let bytes = text.as_bytes();
    assert(bytes@ == vstd::utf8::encode_utf8(text@));
    bytes.len() <= MAX_URL_TEXT_LEN
}

/// Tells whether `extras` are few enough and short enough to go into an
/// authorization URL.
fn extras_fit(extras: &Vec<(String, String)>) -> (r: bool)
    ensures
        r == pairs_fit(pairs_view(extras@)),
{
    if extras.len() > MAX_URL_EXTRAS {
        return false;
    }
    let ghost pairs = pairs_view(extras@);
    let mut i: usize = 0;
    while i < extras.len()
        invariant
            i <= extras.len(),
            pairs == pairs_view(extras@),
            forall|k: int| 0 <= k < i ==> text_fits((#[trigger] pairs[k]).0) && text_fits(pairs[k].1),
        decreases extras.len() - i,
    {
        if !fits(extras[i].0.as_str()) || !fits(extras[i].1.as_str()) {
            assert(!(text_fits(pairs[i as int].0) && text_fits(pairs[i as int].1)));
            return false;
        }
        i += 1;
    }
    true
}

/// The names of the parameters that this library adds are short enough to
/// go into an authorization URL.
pub proof fn lemma_names_fit()
    ensures
        text_fits("audience"@),
        text_fits("nonce"@),
        text_fits("response_mode"@),
        text_fits("form_post"@),
{
    reveal_strlit("audience");
    reveal_strlit("nonce");
    reveal_strlit("response_mode");
    reveal_strlit("form_post");
    assert(vstd::utf8::is_ascii_chars("audience"@));
    assert(vstd::utf8::is_ascii_chars("nonce"@));
    assert(vstd::utf8::is_ascii_chars("response_mode"@));
    assert(vstd::utf8::is_ascii_chars("form_post"@));
    vstd::utf8::is_ascii_chars_encode_utf8("audience"@);
    vstd::utf8::is_ascii_chars_encode_utf8("nonce"@);
    vstd::utf8::is_ascii_chars_encode_utf8("response_mode"@);
    vstd::utf8::is_ascii_chars_encode_utf8("form_post"@);
}

/// The parameters that this library adds fit into an authorization URL
/// exactly when the audience and the nonce do.
pub proof fn lemma_extras_fit(audience: Option<Seq<char>>, nonce: Seq<char>)
    ensures
        pairs_fit(code_extras(audience, nonce)) <==> (audience matches Some(a) ==> text_fits(a))
            && text_fits(nonce),
        pairs_fit(implicit_extras(audience)) <==> (audience matches Some(a) ==> text_fits(a)),
{
    lemma_names_fit();
    let code = code_extras(audience, nonce);
    let implicit = implicit_extras(audience);
    match audience {
        Some(a) => {
            assert(code =~= seq![("audience"@, a), ("nonce"@, nonce)]);
            assert(implicit =~= seq![("audience"@, a), ("response_mode"@, "form_post"@)]);
            assert(code[0] == ("audience"@, a) && code[1] == ("nonce"@, nonce));
            assert(implicit[0] == ("audience"@, a));
            assert(implicit[1] == ("response_mode"@, "form_post"@));
        },
        None => {
            assert(code =~= seq![("nonce"@, nonce)]);
            assert(implicit =~= seq![("response_mode"@, "form_post"@)]);
            assert(code[0] == ("nonce"@, nonce));
            assert(implicit[0] == ("response_mode"@, "form_post"@));
        },
    }
}

/// The protocol client of one acquisition.
#[derive(Debug, PartialEq, Eq)]
pub struct OAuthClient {
    args: Arguments,
    endpoints: EndpointSet,
}

impl OAuthClient {
    #[verifier::type_invariant]
    spec fn inv(&self) -> bool {
        endpoint_fault(
            self.args.grant,
            opt_view(self.endpoints.token_url),
            opt_view(self.endpoints.authorization_url),
            opt_view(self.args.callback_url),
        ) is None
    }

    /// The configuration that the client was made for.
    pub closed spec fn args(&self) -> Arguments {
        self.args
    }

    /// The endpoints that the client talks to.
    pub closed spec fn endpoints(&self) -> EndpointSet {
        self.endpoints
    }

    /// The discovery document to fetch before a client can be made, if
    /// the configuration asks for discovery.
    pub fn discovery_url(args: &Arguments) -> (r: Option<String>)
        ensures
            opt_view(r) == opt_view(args.discovery_url),
    {
        clone_opt_string(&args.discovery_url)
    }

    /// Decides whether the answer to the discovery request counts: it
    /// does when its status is one of the 2xx and its body was understood.
    pub fn accept_discovery(status: u16, body: Option<OpenIDProviderMetadata>) -> (r: Option<
        OpenIDProviderMetadata,
    >)
        ensures
            r == (if 200 <= status < 300 {
                body
            } else {
                None
            }),
    {
        if 200 <= status && status < 300 {
            body
        } else {
            None
        }
    }

    /// Makes the client of a configuration. `discovered` is the discovery
    /// document, where one was asked for and had. The endpoints are taken
    /// from it, or else from the configuration, and then checked for the
    /// grant.
    pub fn new(args: Arguments, discovered: Option<OpenIDProviderMetadata>) -> (r: Result<
        OAuthClient,
        ConfigError,
    >)
        ensures
            match client_fault(args, discovered) {
                Some(e) => r == Err::<OAuthClient, ConfigError>(e),
                None => r is Ok && is_client_of(r->Ok_0, args, discovered),
            },
    {
        let (token_url, authorization_url) = if args.discovery_url.is_some() {
            match discovered {
                None => {
                    return Err(ConfigError::DiscoveryFailed);
                },
                Some(metadata) => (
                    Some(metadata.token_endpoint),
                    Some(metadata.authorization_endpoint),
                ),
            }
        } else {
            (clone_opt_string(&args.token_url), clone_opt_string(&args.authorization_url))
        };
        let interactive = args.grant.is_interactive();
        if interactive && authorization_url.is_none() {
            return Err(ConfigError::MissingEndpoint(EndpointField::AuthorizationUrl));
        }
        if !interactive && token_url.is_none() {
            return Err(ConfigError::MissingEndpoint(EndpointField::TokenUrl));
        }
        if let Some(url) = &token_url {
            if !url_is_valid(url.as_str()) {
                return Err(ConfigError::InvalidEndpoint(EndpointField::TokenUrl));
            }
        }
        if let Some(url) = &authorization_url {
            if !url_is_valid(url.as_str()) {
                return Err(ConfigError::InvalidEndpoint(EndpointField::AuthorizationUrl));
            }
        }
        if interactive && args.callback_url.is_none() {
            return Err(ConfigError::MissingEndpoint(EndpointField::CallbackUrl));
        }
        if let Some(url) = &args.callback_url {
            if !url_is_valid(url.as_str()) {
                return Err(ConfigError::InvalidEndpoint(EndpointField::CallbackUrl));
            }
        }
        Ok(OAuthClient { args, endpoints: EndpointSet { token_url, authorization_url } })
    }

    /// The configuration that the client was made for.
    pub fn arguments(&self) -> (r: &Arguments)
        ensures
            *r == self.args(),
    {
        &self.args
    }

    /// The endpoints that the client talks to. What is there is an
    /// absolute URL.
    pub fn endpoint_set(&self) -> (r: &EndpointSet)
        ensures
            *r == self.endpoints(),
            endpoint_fault(
                self.args().grant,
                opt_view(r.token_url),
                opt_view(r.authorization_url),
                opt_view(self.args().callback_url),
            ) is None,
    {
        proof {
            use_type_invariant(self);
        }
        &self.endpoints
    }

    /// The URL of a code flow with the given state, nonce and proof key.
    pub open spec fn code_url_text(
        &self,
        pkce_verifier: Option<Seq<char>>,
        csrf_state: Seq<char>,
        nonce: Seq<char>,
    ) -> Seq<char> {
        url_extended_of(
            self.endpoints().authorization_url->0@,
            authorize_pairs(
                "code"@,
                self.args().client_id@,
                csrf_state,
                match pkce_verifier {
                    Some(v) => Some(pkce_s256_of(v)),
                    None => None,
                },
                self.args().callback_url->0@,
                self.args().scope@,
            ) + code_extras(opt_view(self.args().audience), nonce),
        )
    }

    /// The URL of the implicit flow with the given state.
    pub open spec fn implicit_url_text(&self, csrf_state: Seq<char>) -> Seq<char> {
        url_extended_of(
            self.endpoints().authorization_url->0@,
            authorize_pairs(
                "token"@,
                self.args().client_id@,
                csrf_state,
                None,
                self.args().callback_url->0@,
                self.args().scope@,
            ) + implicit_extras(opt_view(self.args().audience)),
        )
    }

    /// The authorization request of a code flow with the given state,
    /// nonce and proof key.
    pub open spec fn code_authorization(
        &self,
        pkce_verifier: Option<Seq<char>>,
        csrf_state: Seq<char>,
        nonce: Seq<char>,
    ) -> AuthorizationRequestView {
        AuthorizationRequestView {
            url: self.code_url_text(pkce_verifier, csrf_state, nonce),
            csrf_state,
            pkce_verifier,
            nonce: Some(nonce),
        }
    }

    /// The authorization request of the implicit flow with the given
    /// state.
    pub open spec fn implicit_authorization(&self, csrf_state: Seq<char>) -> AuthorizationRequestView {
        AuthorizationRequestView {
            url: self.implicit_url_text(csrf_state),
            csrf_state,
            pkce_verifier: None,
            nonce: None,
        }
    }

    /// The audience parameter, where an audience is configured.
    fn audience_extras(&self) -> (r: Vec<(String, String)>)
        ensures
            pairs_view(r@) == (match opt_view(self.args().audience) {
                Some(a) => seq![("audience"@, a)],
                None => Seq::empty(),
            }),
    {
        let mut extras: Vec<(String, String)> = Vec::new();
        if let Some(audience) = &self.args.audience {
            extras.push(("audience".to_owned(), audience.clone()));
        }
        proof {
            match opt_view(self.args().audience) {
                Some(a) => {
                    assert(pairs_view(extras@) =~= seq![("audience"@, a)]);
                },
                None => {
                    assert(pairs_view(extras@) =~= Seq::empty());
                },
            }
        }
        extras
    }

    /// What keeps the client from sending the user anywhere: it needs an
    /// authorization URL and a callback URL.
    pub open spec fn authorization_fault(&self) -> Option<ConfigError> {
        if self.endpoints().authorization_url is None {
            Some(ConfigError::MissingEndpoint(EndpointField::AuthorizationUrl))
        } else if self.args().callback_url is None {
            Some(ConfigError::MissingEndpoint(EndpointField::CallbackUrl))
        } else {
            None
        }
    }

    /// Whether the texts that the configuration contributes to an
    /// authorization URL are short enough for it: the two URLs, the client
    /// id, the scope and the audience.
    pub open spec fn config_fits(&self) -> bool {
        &&& text_fits(self.endpoints().authorization_url->0@)
        &&& text_fits(self.args().client_id@)
        &&& text_fits(self.args().callback_url->0@)
        &&& text_fits(self.args().scope@)
        &&& self.args().audience matches Some(a) ==> text_fits(a@)
    }

    /// Whether the URL of a code flow with the given state and nonce can
    /// be made.
    pub open spec fn code_url_fits(&self, csrf_state: Seq<char>, nonce: Seq<char>) -> bool {
        url_fits(
            self.endpoints().authorization_url->0@,
            self.args().client_id@,
            self.args().callback_url->0@,
            self.args().scope@,
            csrf_state,
            code_extras(opt_view(self.args().audience), nonce),
        )
    }

    /// Whether the URL of the implicit flow with the given state can be
    /// made.
    pub open spec fn implicit_url_fits(&self, csrf_state: Seq<char>) -> bool {
        url_fits(
            self.endpoints().authorization_url->0@,
            self.args().client_id@,
            self.args().callback_url->0@,
            self.args().scope@,
            csrf_state,
            implicit_extras(opt_view(self.args().audience)),
        )
    }

    /// The authorization request of a code flow with the given state,
    /// nonce and proof key, or why there is none: the client lacks a URL,
    /// the proof key is shorter than 43 or longer than 128 bytes, or one
    /// of the texts is too long for a URL.
    pub open spec fn code_authorization_result(
        &self,
        pkce_verifier: Option<Seq<char>>,
        csrf_state: Seq<char>,
        nonce: Seq<char>,
    ) -> Result<AuthorizationRequestView, ConfigError> {
        match self.authorization_fault() {
            Some(e) => Err(e),
            None => if pkce_verifier is Some && !verifier_fits(pkce_verifier->0) {
                Err(ConfigError::InvalidVerifier)
            } else if !self.code_url_fits(csrf_state, nonce) {
                Err(ConfigError::UrlTooLong)
            } else {
                Ok(self.code_authorization(pkce_verifier, csrf_state, nonce))
            },
        }
    }

    /// The authorization request of the implicit flow with the given
    /// state, or why there is none.
    pub open spec fn implicit_authorization_result(&self, csrf_state: Seq<char>) -> Result<
        AuthorizationRequestView,
        ConfigError,
    > {
        match self.authorization_fault() {
            Some(e) => Err(e),
            None => if !self.implicit_url_fits(csrf_state) {
                Err(ConfigError::UrlTooLong)
            } else {
                Ok(self.implicit_authorization(csrf_state))
            },
        }
    }

    /// Tells whether an authorization URL can be made of these texts.
    fn texts_fit(
        &self,
        authorization_url: &str,
        callback_url: &str,
        csrf_state: &str,
        extras: &Vec<(String, String)>,
    ) -> (r: bool)
        ensures
            r == url_fits(
                authorization_url@,
                self.args().client_id@,
                callback_url@,
                self.args().scope@,
                csrf_state@,
                pairs_view(extras@),
            ),
    {
        fits(authorization_url) && fits(self.args.client_id.as_str()) && fits(callback_url)
            && fits(self.args.scope.as_str()) && fits(csrf_state) && extras_fit(extras)
    }

    /// The two URLs that an authorization request is made of.
    fn authorization_urls(&self) -> (r: Result<(String, String), ConfigError>)
        ensures
            match self.authorization_fault() {
                Some(e) => r == Err::<(String, String), ConfigError>(e),
                None => r is Ok && r->Ok_0.0@ == self.endpoints().authorization_url->0@
                    && r->Ok_0.1@ == self.args().callback_url->0@ && url_parses(r->Ok_0.0@)
                    && url_parses(r->Ok_0.1@),
            },
    {
        proof {
            use_type_invariant(self);
        }
        let authorization_url = match &self.endpoints.authorization_url {
            Some(url) => url.clone(),
            None => {
                return Err(ConfigError::MissingEndpoint(EndpointField::AuthorizationUrl));
            },
        };
        match &self.args.callback_url {
            Some(url) => Ok((authorization_url, url.clone())),
            None => Err(ConfigError::MissingEndpoint(EndpointField::CallbackUrl)),
        }
    }

    /// Builds the authorization request of a code flow from the given
    /// state, nonce and proof key. Its URL is the authorization URL with
    /// the response type `code`, the client id, the state, the challenge
    /// of the proof key with the method `S256`, the callback URL, the
    /// scope, the audience and the nonce.
    pub fn authorize_url_with(
        &self,
        pkce_verifier: Option<String>,
        csrf_state: String,
        nonce: String,
    ) -> (r: Result<AuthorizationRequest, ConfigError>)
        ensures
            authorization_view(r) == self.code_authorization_result(
                opt_view(pkce_verifier),
                csrf_state@,
                nonce@,
            ),
    {
        let (authorization_url, callback_url) = match self.authorization_urls() {
            Ok(urls) => urls,
            Err(e) => {
                return Err(e);
            },
        };
        let mut extras = self.audience_extras();
        let ghost audience_part = pairs_view(extras@);
        extras.push(("nonce".to_owned(), nonce.clone()));
        proof {
            assert(pairs_view(extras@) =~= audience_part + seq![("nonce"@, nonce@)]);
        }
        if let Some(verifier) = &pkce_verifier {
            let bytes = verifier.as_str().as_bytes();
            assert(bytes@ == vstd::utf8::encode_utf8(verifier@));
            if bytes.len() < MIN_VERIFIER_LEN || bytes.len() > MAX_VERIFIER_LEN {
                return Err(ConfigError::InvalidVerifier);
            }
        }
        if !self.texts_fit(
            authorization_url.as_str(),
            callback_url.as_str(),
            csrf_state.as_str(),
            &extras,
        ) {
            return Err(ConfigError::UrlTooLong);
        }
        let url = match &pkce_verifier {
            Some(verifier) => {
                code_flow_url_with_pkce(
                    authorization_url.as_str(),
                    self.args.client_id.as_str(),
                    callback_url.as_str(),
                    self.args.scope.as_str(),
                    csrf_state.as_str(),
                    verifier.as_str(),
                    &extras,
                )
            },
            None => code_flow_url(
                authorization_url.as_str(),
                self.args.client_id.as_str(),
                callback_url.as_str(),
                self.args.scope.as_str(),
                csrf_state.as_str(),
                &extras,
            ),
        };
        Ok(AuthorizationRequest { url, csrf_state, pkce_verifier, nonce: Some(nonce) })
    }

    /// Builds the authorization request of a code flow with a fresh random
    /// state and nonce and, if asked for, a fresh random proof key. A
    /// client with an authorization URL and a callback URL has a request
    /// exactly when the texts of its configuration are short enough for a
    /// URL: it carries a nonce of 16 characters and, exactly if asked for,
    /// a proof key of 43 to 128 bytes, and it is the request that
    /// [`OAuthClient::authorize_url_with`] builds from what it carries.
    pub fn authorize_url(&self, with_pkce: bool) -> (r: Result<AuthorizationRequest, ConfigError>)
        ensures
            self.authorization_fault() matches Some(e) ==> r == Err::<
                AuthorizationRequest,
                ConfigError,
            >(e),
            self.authorization_fault() is None && self.config_fits() ==> r is Ok,
            self.authorization_fault() is None && !self.config_fits() ==> r == Err::<
                AuthorizationRequest,
                ConfigError,
            >(ConfigError::UrlTooLong),
            r matches Ok(request) ==> request.nonce is Some && request.nonce->0@.len()
                == NONCE_LEN && (request.pkce_verifier is Some <==> with_pkce) && (
            request.pkce_verifier matches Some(v) ==> verifier_fits(v@)) && request@
                == self.code_authorization(
                opt_view(request.pkce_verifier),
                request.csrf_state@,
                request.nonce->0@,
            ),
    {
        let pkce_verifier = if with_pkce {
            Some(random_pkce_verifier())
        } else {
            None
        };
        let csrf_state = random_csrf_state();
        let nonce = random_nonce();
        proof {
            lemma_extras_fit(opt_view(self.args().audience), nonce@);
        }
        self.authorize_url_with(pkce_verifier, csrf_state, nonce)
    }

    /// Builds the authorization request of the implicit flow from the
    /// given state. Its URL is the authorization URL with the response
    /// type `token`, the client id, the state, the callback URL, the
    /// scope, the audience and the response mode `form_post`.
    pub fn implicit_url_with(&self, csrf_state: String) -> (r: Result<
        AuthorizationRequest,
        ConfigError,
    >)
        ensures
            authorization_view(r) == self.implicit_authorization_result(csrf_state@),
    {
        let (authorization_url, callback_url) = match self.authorization_urls() {
            Ok(urls) => urls,
            Err(e) => {
                return Err(e);
            },
        };
        let mut extras = self.audience_extras();
        let ghost audience_part = pairs_view(extras@);
        extras.push(("response_mode".to_owned(), "form_post".to_owned()));
        proof {
            assert(pairs_view(extras@) =~= audience_part + seq![
                ("response_mode"@, "form_post"@),
            ]);
        }
        if !self.texts_fit(
            authorization_url.as_str(),
            callback_url.as_str(),
            csrf_state.as_str(),
            &extras,
        ) {
            return Err(ConfigError::UrlTooLong);
        }
        let url = implicit_flow_url(
            authorization_url.as_str(),
            self.args.client_id.as_str(),
            callback_url.as_str(),
            self.args.scope.as_str(),
            csrf_state.as_str(),
            &extras,
        );
        Ok(AuthorizationRequest { url, csrf_state, pkce_verifier: None, nonce: None })
    }

    /// Builds the authorization request of the implicit flow with a fresh
    /// random state. A client with an authorization URL and a callback URL
    /// has a request exactly when the texts of its configuration are short
    /// enough for a URL, and it is the request that
    /// [`OAuthClient::implicit_url_with`] builds from the state it
    /// carries.
    pub fn implicit_url(&self) -> (r: Result<AuthorizationRequest, ConfigError>)
        ensures
            self.authorization_fault() matches Some(e) ==> r == Err::<
                AuthorizationRequest,
                ConfigError,
            >(e),
            self.authorization_fault() is None && self.config_fits() ==> r is Ok,
            self.authorization_fault() is None && !self.config_fits() ==> r == Err::<
                AuthorizationRequest,
                ConfigError,
            >(ConfigError::UrlTooLong),
            r matches Ok(request) ==> request@ == self.implicit_authorization(request.csrf_state@),
    {
        let csrf_state = random_csrf_state();
        proof {
            lemma_extras_fit(opt_view(self.args().audience), Seq::empty());
        }
        self.implicit_url_with(csrf_state)
    }

    /// What is asked of the token endpoint with `grant`: that needs a
    /// token URL.
    pub open spec fn request_to(&self, grant: TokenGrantView) -> Result<
        TokenRequestView,
        ConfigError,
    > {
        match self.endpoints().token_url {
            Some(url) => Ok(TokenRequestView { token_url: url@, grant }),
            None => Err(ConfigError::MissingEndpoint(EndpointField::TokenUrl)),
        }
    }

    /// The request that exchanges the authorization code `code`, with the
    /// proof key where one was used.
    pub open spec fn code_request(&self, code: Seq<char>, pkce_verifier: Option<Seq<char>>) -> Result<
        TokenRequestView,
        ConfigError,
    > {
        self.request_to(TokenGrantView::AuthorizationCode { code, pkce_verifier })
    }

    /// The request that exchanges the credentials of the client: the
    /// configured scope without any `offline_access`, and the audience.
    pub open spec fn client_request(&self) -> Result<TokenRequestView, ConfigError> {
        self.request_to(
            TokenGrantView::ClientCredentials {
                scope: without(self.args().scope@, OFFLINE_ACCESS@),
                audience: opt_view(self.args().audience),
            },
        )
    }

    /// The request that exchanges the user name and password of the
    /// resource owner. The token URL is looked for first, then the user
    /// name, then the password.
    pub open spec fn password_request(&self) -> Result<TokenRequestView, ConfigError> {
        if self.endpoints().token_url is None {
            Err(ConfigError::MissingEndpoint(EndpointField::TokenUrl))
        } else if self.args().username is None {
            Err(ConfigError::MissingUsername)
        } else if self.args().password is None {
            Err(ConfigError::MissingPassword)
        } else {
            self.request_to(
                TokenGrantView::Password {
                    username: self.args().username->0@,
                    password: self.args().password->0@,
                    scope: self.args().scope@,
                    audience: opt_view(self.args().audience),
                },
            )
        }
    }

    /// The request that exchanges the refresh token `refresh_token`.
    pub open spec fn refresh_request(&self, refresh_token: Seq<char>) -> Result<
        TokenRequestView,
        ConfigError,
    > {
        self.request_to(TokenGrantView::RefreshToken { refresh_token })
    }

    /// The token URL of the client, or the fault that it has none.
    fn token_endpoint(&self) -> (r: Result<String, ConfigError>)
        ensures
            self.endpoints().token_url is None ==> r == Err::<String, ConfigError>(
                ConfigError::MissingEndpoint(EndpointField::TokenUrl),
            ),
            self.endpoints().token_url matches Some(url) ==> r is Ok && r->Ok_0@ == url@
                && url_parses(url@),
    {
        proof {
            use_type_invariant(self);
        }
        match &self.endpoints.token_url {
            Some(url) => Ok(url.clone()),
            None => Err(ConfigError::MissingEndpoint(EndpointField::TokenUrl)),
        }
    }

    /// The request that exchanges an authorization code, with the proof
    /// key where one was used. It needs a token URL.
    pub fn exchange_code(&self, code: &str, code_verifier: Option<String>) -> (r: Result<
        TokenRequest,
        ConfigError,
    >)
        ensures
            request_view(r) == self.code_request(code@, opt_view(code_verifier)),
    {
        match self.token_endpoint() {
            Err(e) => Err(e),
            Ok(token_url) => Ok(
                TokenRequest {
                    token_url,
                    grant: TokenGrant::AuthorizationCode {
                        code: code.to_owned(),
                        pkce_verifier: code_verifier,
                    },
                },
            ),
        }
    }

    /// The request that exchanges the credentials of the client. Every
    /// `offline_access` is taken out of the configured scope, since a
    /// client that acts for itself has nothing to act offline for.
    pub fn exchange_client_credentials(&self) -> (r: Result<TokenRequest, ConfigError>)
        ensures
            request_view(r) == self.client_request(),
    {
        match self.token_endpoint() {
            Err(e) => Err(e),
            Ok(token_url) => Ok(
                TokenRequest {
                    token_url,
                    grant: TokenGrant::ClientCredentials {
                        scope: remove_all(self.args.scope.as_str(), OFFLINE_ACCESS),
                        audience: clone_opt_string(&self.args.audience),
                    },
                },
            ),
        }
    }

    /// The request that exchanges the user name and password of the
    /// resource owner. It needs a token URL, a user name and a password,
    /// and names the first of them that is missing.
    pub fn exchange_resource_owner_password_client_credentials(&self) -> (r: Result<
        TokenRequest,
        ConfigError,
    >)
        ensures
            request_view(r) == self.password_request(),
    {
        let token_url = match self.token_endpoint() {
            Err(e) => {
                return Err(e);
            },
            Ok(url) => url,
        };
        let username = match &self.args.username {
            Some(username) => username.clone(),
            None => {
                return Err(ConfigError::MissingUsername);
            },
        };
        let password = match &self.args.password {
            Some(password) => password.clone(),
            None => {
                return Err(ConfigError::MissingPassword);
            },
        };
        Ok(
            TokenRequest {
                token_url,
                grant: TokenGrant::Password {
                    username,
                    password,
                    scope: self.args.scope.clone(),
                    audience: clone_opt_string(&self.args.audience),
                },
            },
        )
    }

    /// The request that exchanges a refresh token. It needs a token URL.
    pub fn refresh_token(&self, refresh_token: String) -> (r: Result<TokenRequest, ConfigError>)
        ensures
            request_view(r) == self.refresh_request(refresh_token@),
    {
        match self.token_endpoint() {
            Err(e) => Err(e),
            Ok(token_url) => Ok(
                TokenRequest { token_url, grant: TokenGrant::RefreshToken { refresh_token } },
            ),
        }
    }
}

} // verus!
