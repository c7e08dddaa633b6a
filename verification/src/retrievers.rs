//! The grant strategies: one single-shot run per grant, told as a sequence
//! of steps. Each step names what has to be done outside, and the next
//! event tells how that went.

use vstd::prelude::*;
use crate::callback::CallbackResult;
use crate::grant::Grant;
use crate::oauth::{verifier_fits, NONCE_LEN};
use crate::oauth_client::{
    request_view, AuthorizationRequest, AuthorizationRequestView, ConfigError, OAuthClient,
    OpenIDProviderMetadata, TokenRequest, TokenRequestView,
};
use crate::token_info::{
    clone_opt_string, opt_view, Timestamp, TokenInfo, TokenInfoView, TokenResponse,
};

verus! {

/// Why no token was retrieved.
#[derive(Clone, Copy, Debug, PartialEq, Eq, Structural)]
pub enum RetrievalError {
    /// The configuration does not allow the request.
    Config(ConfigError),
    /// No matching callback arrived before the deadline.
    Timeout,
    /// The token endpoint refused, or could not be reached or understood.
    Exchange,
    /// The token would expire beyond the last representable second.
    ExpiryOutOfRange,
    /// The cache holds no usable token.
    NotFound,
    /// An event arrived that the run was not waiting for.
    OutOfTurn,
}

impl RetrievalError {
    /// The sentence that belongs to each failure.
    pub open spec fn text(self) -> Seq<char> {
        match self {
            RetrievalError::Config(e) => e.text(),
            RetrievalError::Timeout => "No requests with required data. Timeout."@,
            RetrievalError::Exchange => "Failed to exchange credentials for a token"@,
            RetrievalError::ExpiryOutOfRange => "The token expires beyond the end of time"@,
            RetrievalError::NotFound => "Token not found in state file"@,
            RetrievalError::OutOfTurn => "Nothing was waiting for this event"@,
        }
    }

    /// The sentence shown for the failure.
    pub fn message(&self) -> (r: &'static str)
        ensures
            r@ == self.text(),
    {
        match self {
            RetrievalError::Config(e) => e.message(),
            RetrievalError::Timeout => "No requests with required data. Timeout.",
            RetrievalError::Exchange => "Failed to exchange credentials for a token",
            RetrievalError::ExpiryOutOfRange => "The token expires beyond the end of time",
            RetrievalError::NotFound => "Token not found in state file",
            RetrievalError::OutOfTurn => "Nothing was waiting for this event",
        }
    }
}

/// What happened outside since the last step.
#[derive(Clone, Debug, PartialEq, Eq)]
pub enum Event {
    /// Nothing yet: the run begins.
    Start,
    /// The discovery document was fetched and understood.
    Discovered(OpenIDProviderMetadata),
    /// The discovery document could not be had.
    DiscoveryFailed,
    /// The callback arrived with the expected state.
    Callback(CallbackResult),
    /// The deadline for the callback passed.
    TimedOut,
    /// The token endpoint answered with a token.
    Exchanged(TokenResponse),
    /// The token endpoint did not answer with a token.
    ExchangeFailed,
}

/// What has to be done next.
#[derive(Clone, Debug, PartialEq, Eq)]
pub enum Step {
    /// Fetch the discovery document at this URL.
    Discover(String),
    /// Send the user to the URL and wait for a callback with a code.
    AwaitCode(AuthorizationRequest),
    /// Send the user to the URL and wait for a callback with a token.
    AwaitToken(AuthorizationRequest),
    /// Ask the token endpoint.
    Exchange(TokenRequest),
    /// The run is over: here is the token.
    Done(TokenInfo),
    /// The run is over without a token.
    Failed(RetrievalError),
}

/// The mathematical value of a [`Step`].
pub enum StepView {
    Discover(Seq<char>),
    AwaitCode(AuthorizationRequestView),
    AwaitToken(AuthorizationRequestView),
    Exchange(TokenRequestView),
    Done(TokenInfoView),
    Failed(RetrievalError),
}

impl View for Step {
    type V = StepView;

    open spec fn view(&self) -> StepView {
        match *self {
            Step::Discover(url) => StepView::Discover(url@),
            Step::AwaitCode(request) => StepView::AwaitCode(request@),
            Step::AwaitToken(request) => StepView::AwaitToken(request@),
            Step::Exchange(request) => StepView::Exchange(request@),
            Step::Done(info) => StepView::Done(info@),
            Step::Failed(e) => StepView::Failed(e),
        }
    }
}

impl StepView {
    /// Whether the step ends the run.
    pub open spec fn is_final(self) -> bool {
        self is Done || self is Failed
    }
}

/// Where the run of a grant stands.
#[derive(Clone, Debug, PartialEq, Eq)]
pub enum Phase {
    /// Not begun.
    Idle,
    /// Waiting for a callback with a code; the proof key is kept for the
    /// exchange.
    AwaitingCode { pkce_verifier: Option<String> },
    /// Waiting for a callback with a token.
    AwaitingToken,
    /// Waiting for the token endpoint.
    Exchanging,
    /// Over.
    Finished,
}

/// The mathematical value of a [`Phase`].
pub enum PhaseView {
    Idle,
    AwaitingCode { pkce_verifier: Option<Seq<char>> },
    AwaitingToken,
    Exchanging,
    Finished,
}

impl View for Phase {
    type V = PhaseView;

    open spec fn view(&self) -> PhaseView {
        match *self {
            Phase::Idle => PhaseView::Idle,
            Phase::AwaitingCode { pkce_verifier } => PhaseView::AwaitingCode {
                pkce_verifier: opt_view(pkce_verifier),
            },
            Phase::AwaitingToken => PhaseView::AwaitingToken,
            Phase::Exchanging => PhaseView::Exchanging,
            Phase::Finished => PhaseView::Finished,
        }
    }
}

/// The step that asks the token endpoint, or the failure to make the
/// request.
pub open spec fn exchange_or_fail(
    request: Result<TokenRequestView, ConfigError>,
    post: PhaseView,
    step: StepView,
) -> bool {
    match request {
        Ok(r) => step == StepView::Exchange(r) && post == PhaseView::Exchanging,
        Err(e) => step == StepView::Failed(RetrievalError::Config(e)) && post
            == PhaseView::Finished,
    }
}

/// How the run of a code flow begins. A client without an authorization
/// URL or a callback URL cannot begin it, nor one whose texts are too long
/// for a URL. Every other client begins it with a request that carries a
/// state and a nonce of 16 characters, and a proof key of 43 to 128 bytes
/// exactly when the grant uses one. The proof key is kept.
pub open spec fn begins_code_flow(
    client: &OAuthClient,
    with_pkce: bool,
    post: PhaseView,
    step: StepView,
) -> bool {
    match client.authorization_fault() {
        Some(e) => step == StepView::Failed(RetrievalError::Config(e)) && post
            == PhaseView::Finished,
        None if !client.config_fits() => step == StepView::Failed(
            RetrievalError::Config(ConfigError::UrlTooLong),
        ) && post == PhaseView::Finished,
        None => {
            &&& step matches StepView::AwaitCode(request)
            &&& request.nonce matches Some(nonce)
            &&& nonce.len() == NONCE_LEN
            &&& request.pkce_verifier is Some <==> with_pkce
            &&& request.pkce_verifier matches Some(v) ==> verifier_fits(v)
            &&& request == client.code_authorization(
                request.pkce_verifier,
                request.csrf_state,
                nonce,
            )
            &&& post == PhaseView::AwaitingCode { pkce_verifier: request.pkce_verifier }
        },
    }
}

/// How the run of the implicit flow begins. A client without an
/// authorization URL or a callback URL cannot begin it, nor one whose
/// texts are too long for a URL. Every other client begins it with a
/// request that carries a state.
pub open spec fn begins_implicit_flow(client: &OAuthClient, post: PhaseView, step: StepView) -> bool {
    match client.authorization_fault() {
        Some(e) => step == StepView::Failed(RetrievalError::Config(e)) && post
            == PhaseView::Finished,
        None if !client.config_fits() => step == StepView::Failed(
            RetrievalError::Config(ConfigError::UrlTooLong),
        ) && post == PhaseView::Finished,
        None => {
            &&& step matches StepView::AwaitToken(request)
            &&& request == client.implicit_authorization(request.csrf_state)
            &&& post == PhaseView::AwaitingToken
        },
    }
}

/// How the run of a grant begins: an interactive grant sends the user to
/// the authorization URL, every other grant asks the token endpoint at
/// once.
pub open spec fn begins(grant: Grant, client: &OAuthClient, post: PhaseView, step: StepView) -> bool {
    match grant {
        Grant::AuthorizationCodeWithPkce => begins_code_flow(client, true, post, step),
        Grant::AuthorizationCode => begins_code_flow(client, false, post, step),
        Grant::Implicit => begins_implicit_flow(client, post, step),
        Grant::ClientCredentials => exchange_or_fail(client.client_request(), post, step),
        Grant::ResourceOwnerPasswordClientCredentials => exchange_or_fail(
            client.password_request(),
            post,
            step,
        ),
    }
}

/// How the run ends once the token endpoint has answered at `now`.
pub open spec fn ends_with(response: TokenResponse, now: Timestamp, step: StepView) -> bool {
    if response.fits_at(now) {
        step == StepView::Done(response.info_at(now))
    } else {
        step == StepView::Failed(RetrievalError::ExpiryOutOfRange)
    }
}

/// One step of the run of a grant: from where the run stood and what
/// happened, to where it stands and what is to be done. An event that the
/// run was not waiting for ends it.
pub open spec fn grant_step(
    grant: Grant,
    client: &OAuthClient,
    pre: PhaseView,
    event: Event,
    now: Timestamp,
    post: PhaseView,
    step: StepView,
) -> bool {
    match pre {
        PhaseView::Idle => match event {
            Event::Start => begins(grant, client, post, step),
            _ => step == StepView::Failed(RetrievalError::OutOfTurn) && post == PhaseView::Finished,
        },
        PhaseView::AwaitingCode { pkce_verifier } => match event {
            Event::Callback(CallbackResult::Code(code)) => exchange_or_fail(
                client.code_request(code@, pkce_verifier),
                post,
                step,
            ),
            Event::TimedOut => step == StepView::Failed(RetrievalError::Timeout) && post
                == PhaseView::Finished,
            _ => step == StepView::Failed(RetrievalError::OutOfTurn) && post == PhaseView::Finished,
        },
        PhaseView::AwaitingToken => match event {
            Event::Callback(CallbackResult::TokenPayload(info)) => step == StepView::Done(info@)
                && post == PhaseView::Finished,
            Event::TimedOut => step == StepView::Failed(RetrievalError::Timeout) && post
                == PhaseView::Finished,
            _ => step == StepView::Failed(RetrievalError::OutOfTurn) && post == PhaseView::Finished,
        },
        PhaseView::Exchanging => match event {
            Event::Exchanged(response) => ends_with(response, now, step) && post
                == PhaseView::Finished,
            Event::ExchangeFailed => step == StepView::Failed(RetrievalError::Exchange) && post
                == PhaseView::Finished,
            _ => step == StepView::Failed(RetrievalError::OutOfTurn) && post == PhaseView::Finished,
        },
        PhaseView::Finished => step == StepView::Failed(RetrievalError::OutOfTurn) && post
            == PhaseView::Finished,
    }
}

/// Something that retrieves a token step by step.
pub trait TokenRetriever: Sized {
    /// The steps that the retriever may take: from the retriever `pre` and
    /// an event at `now` to the retriever `post` and the step to be done.
    spec fn takes(
        pre: Self,
        client: &OAuthClient,
        event: Event,
        now: Timestamp,
        post: Self,
        step: StepView,
    ) -> bool;

    /// Takes the run one step further.
    fn retrieve(&mut self, client: &OAuthClient, event: Event, now: Timestamp) -> (step: Step)
        ensures
            Self::takes(*old(self), client, event, now, *final(self), step@),
    ;
}

/// The step that asks the token endpoint, or the failure to make the
/// request, together with where the run then stands.
pub fn exchange_step(request: Result<TokenRequest, ConfigError>) -> (r: (Phase, Step))
    ensures
        exchange_or_fail(request_view(request), r.0@, r.1@),
{
    match request {
        Ok(request) => (Phase::Exchanging, Step::Exchange(request)),
        Err(e) => (Phase::Finished, Step::Failed(RetrievalError::Config(e))),
    }
}

/// The step that ends a run whose token endpoint has answered at `now`.
pub fn finish_step(response: TokenResponse, now: Timestamp) -> (r: Step)
    ensures
        ends_with(response, now, r@),
{
    match TokenInfo::try_from_token_response(response, now) {
        Some(info) => Step::Done(info),
        None => Step::Failed(RetrievalError::ExpiryOutOfRange),
    }
}

/// Begins the run of a code flow.
fn begin_code_flow(client: &OAuthClient, with_pkce: bool) -> (r: (Phase, Step))
    ensures
        begins_code_flow(client, with_pkce, r.0@, r.1@),
{
    match client.authorize_url(with_pkce) {
        Ok(request) => (
            Phase::AwaitingCode { pkce_verifier: clone_opt_string(&request.pkce_verifier) },
            Step::AwaitCode(request),
        ),
        Err(e) => (Phase::Finished, Step::Failed(RetrievalError::Config(e))),
    }
}

/// Begins the run of the implicit flow.
fn begin_implicit_flow(client: &OAuthClient) -> (r: (Phase, Step))
    ensures
        begins_implicit_flow(client, r.0@, r.1@),
{
    match client.implicit_url() {
        Ok(request) => (Phase::AwaitingToken, Step::AwaitToken(request)),
        Err(e) => (Phase::Finished, Step::Failed(RetrievalError::Config(e))),
    }
}

/// Takes the run of the grant `grant` one step further, as [`grant_step`]
/// says.
pub fn take_step(
    grant: Grant,
    phase: &mut Phase,
    client: &OAuthClient,
    event: Event,
    now: Timestamp,
) -> (step: Step)
    ensures
        grant_step(grant, client, old(phase)@, event, now, final(phase)@, step@),
{
    let mut current = Phase::Finished;
    core::mem::swap(phase, &mut current);
    let out_of_turn = Step::Failed(RetrievalError::OutOfTurn);
    let (next, step) = match current {
        Phase::Idle => match event {
            Event::Start => match grant {
                Grant::AuthorizationCodeWithPkce => begin_code_flow(client, true),
                Grant::AuthorizationCode => begin_code_flow(client, false),
                Grant::Implicit => begin_implicit_flow(client),
                Grant::ClientCredentials => exchange_step(client.exchange_client_credentials()),
                Grant::ResourceOwnerPasswordClientCredentials => exchange_step(
                    client.exchange_resource_owner_password_client_credentials(),
                ),
            },
            _ => (Phase::Finished, out_of_turn),
        },
        Phase::AwaitingCode { pkce_verifier } => match event {
            Event::Callback(CallbackResult::Code(code)) => exchange_step(
                client.exchange_code(code.as_str(), pkce_verifier),
            ),
            Event::TimedOut => (Phase::Finished, Step::Failed(RetrievalError::Timeout)),
            _ => (Phase::Finished, out_of_turn),
        },
        Phase::AwaitingToken => match event {
            Event::Callback(CallbackResult::TokenPayload(info)) => (
                Phase::Finished,
                Step::Done(info),
            ),
            Event::TimedOut => (Phase::Finished, Step::Failed(RetrievalError::Timeout)),
            _ => (Phase::Finished, out_of_turn),
        },
        Phase::Exchanging => match event {
            Event::Exchanged(response) => (Phase::Finished, finish_step(response, now)),
            Event::ExchangeFailed => (Phase::Finished, Step::Failed(RetrievalError::Exchange)),
            _ => (Phase::Finished, out_of_turn),
        },
        Phase::Finished => (Phase::Finished, out_of_turn),
    };
    *phase = next;
    step
}

/// The run of the authorization code grant with a proof key.
#[derive(Clone, Debug, PartialEq, Eq)]
pub struct AuthorizationCodeWithPKCERetriever {
    /// Where the run stands.
    pub phase: Phase,
}

impl AuthorizationCodeWithPKCERetriever {
    /// A run that has not begun.
    pub fn new() -> (r: Self)
        ensures
            r.phase@ == PhaseView::Idle,
    {
        AuthorizationCodeWithPKCERetriever { phase: Phase::Idle }
    }
}

impl TokenRetriever for AuthorizationCodeWithPKCERetriever {
    /// The user is sent to the authorization URL with the challenge of a
    /// fresh proof key, and the code that comes back is exchanged together
    /// with the proof key.
    open spec fn takes(
        pre: Self,
        client: &OAuthClient,
        event: Event,
        now: Timestamp,
        post: Self,
        step: StepView,
    ) -> bool {
        grant_step(
            Grant::AuthorizationCodeWithPkce,
            client,
            pre.phase@,
            event,
            now,
            post.phase@,
            step,
        )
    }

    fn retrieve(&mut self, client: &OAuthClient, event: Event, now: Timestamp) -> (step: Step) {
        take_step(Grant::AuthorizationCodeWithPkce, &mut self.phase, client, event, now)
    }
}

/// The run of the authorization code grant.
#[derive(Clone, Debug, PartialEq, Eq)]
pub struct AuthorizationCodeRetriever {
    /// Where the run stands.
    pub phase: Phase,
}

impl AuthorizationCodeRetriever {
    /// A run that has not begun.
    pub fn new() -> (r: Self)
        ensures
            r.phase@ == PhaseView::Idle,
    {
        AuthorizationCodeRetriever { phase: Phase::Idle }
    }
}

impl TokenRetriever for AuthorizationCodeRetriever {
    /// The user is sent to the authorization URL, and the code that comes
    /// back is exchanged.
    open spec fn takes(
        pre: Self,
        client: &OAuthClient,
        event: Event,
        now: Timestamp,
        post: Self,
        step: StepView,
    ) -> bool {
        grant_step(Grant::AuthorizationCode, client, pre.phase@, event, now, post.phase@, step)
    }

    fn retrieve(&mut self, client: &OAuthClient, event: Event, now: Timestamp) -> (step: Step) {
        take_step(Grant::AuthorizationCode, &mut self.phase, client, event, now)
    }
}

/// The run of the implicit grant.
#[derive(Clone, Debug, PartialEq, Eq)]
pub struct ImplicitRetriever {
    /// Where the run stands.
    pub phase: Phase,
}

impl ImplicitRetriever {
    /// A run that has not begun.
    pub fn new() -> (r: Self)
        ensures
            r.phase@ == PhaseView::Idle,
    {
        ImplicitRetriever { phase: Phase::Idle }
    }
}

impl TokenRetriever for ImplicitRetriever {
    /// The user is sent to the authorization URL, and the token comes back
    /// with the callback: nothing is exchanged.
    open spec fn takes(
        pre: Self,
        client: &OAuthClient,
        event: Event,
        now: Timestamp,
        post: Self,
        step: StepView,
    ) -> bool {
        grant_step(Grant::Implicit, client, pre.phase@, event, now, post.phase@, step)
    }

    fn retrieve(&mut self, client: &OAuthClient, event: Event, now: Timestamp) -> (step: Step) {
        take_step(Grant::Implicit, &mut self.phase, client, event, now)
    }
}

/// The run of the client credentials grant.
#[derive(Clone, Debug, PartialEq, Eq)]
pub struct ClientCredentialsRetriever {
    /// Where the run stands.
    pub phase: Phase,
}

impl ClientCredentialsRetriever {
    /// A run that has not begun.
    pub fn new() -> (r: Self)
        ensures
            r.phase@ == PhaseView::Idle,
    {
        ClientCredentialsRetriever { phase: Phase::Idle }
    }
}

impl TokenRetriever for ClientCredentialsRetriever {
    /// The credentials of the client are exchanged at once, without any
    /// callback.
    open spec fn takes(
        pre: Self,
        client: &OAuthClient,
        event: Event,
        now: Timestamp,
        post: Self,
        step: StepView,
    ) -> bool {
        grant_step(Grant::ClientCredentials, client, pre.phase@, event, now, post.phase@, step)
    }

    fn retrieve(&mut self, client: &OAuthClient, event: Event, now: Timestamp) -> (step: Step) {
        take_step(Grant::ClientCredentials, &mut self.phase, client, event, now)
    }
}

/// The run of the resource owner password credentials grant.
#[derive(Clone, Debug, PartialEq, Eq)]
pub struct ResourceOwnerPasswordClientCredentialsRetriever {
    /// Where the run stands.
    pub phase: Phase,
}

impl ResourceOwnerPasswordClientCredentialsRetriever {
    /// A run that has not begun.
    pub fn new() -> (r: Self)
        ensures
            r.phase@ == PhaseView::Idle,
    {
        ResourceOwnerPasswordClientCredentialsRetriever { phase: Phase::Idle }
    }
}

impl TokenRetriever for ResourceOwnerPasswordClientCredentialsRetriever {
    /// The user name and password of the resource owner are exchanged at
    /// once, without any callback.
    open spec fn takes(
        pre: Self,
        client: &OAuthClient,
        event: Event,
        now: Timestamp,
        post: Self,
        step: StepView,
    ) -> bool {
        grant_step(
            Grant::ResourceOwnerPasswordClientCredentials,
            client,
            pre.phase@,
            event,
            now,
            post.phase@,
            step,
        )
    }

    fn retrieve(&mut self, client: &OAuthClient, event: Event, now: Timestamp) -> (step: Step) {
        take_step(
            Grant::ResourceOwnerPasswordClientCredentials,
            &mut self.phase,
            client,
            event,
            now,
        )
    }
}

/// The strategy of one grant: exactly one of the five runs.
#[derive(Clone, Debug, PartialEq, Eq)]
pub enum GrantRetriever {
    AuthorizationCodeWithPkce(AuthorizationCodeWithPKCERetriever),
    AuthorizationCode(AuthorizationCodeRetriever),
    Implicit(ImplicitRetriever),
    ResourceOwnerPasswordClientCredentials(ResourceOwnerPasswordClientCredentialsRetriever),
    ClientCredentials(ClientCredentialsRetriever),
}

impl GrantRetriever {
    /// The grant whose strategy this is.
    pub open spec fn grant(self) -> Grant {
        match self {
            GrantRetriever::AuthorizationCodeWithPkce(_) => Grant::AuthorizationCodeWithPkce,
            GrantRetriever::AuthorizationCode(_) => Grant::AuthorizationCode,
            GrantRetriever::Implicit(_) => Grant::Implicit,
            GrantRetriever::ResourceOwnerPasswordClientCredentials(_) => {
                Grant::ResourceOwnerPasswordClientCredentials
            },
            GrantRetriever::ClientCredentials(_) => Grant::ClientCredentials,
        }
    }

    /// Where the run stands.
    pub open spec fn phase(self) -> Phase {
        match self {
            GrantRetriever::AuthorizationCodeWithPkce(r) => r.phase,
            GrantRetriever::AuthorizationCode(r) => r.phase,
            GrantRetriever::Implicit(r) => r.phase,
            GrantRetriever::ResourceOwnerPasswordClientCredentials(r) => r.phase,
            GrantRetriever::ClientCredentials(r) => r.phase,
        }
    }

    /// The strategy of `grant`, not begun.
    pub fn new(grant: Grant) -> (r: GrantRetriever)
        ensures
            r.grant() == grant,
            r.phase()@ == PhaseView::Idle,
    {
        match grant {
            Grant::AuthorizationCodeWithPkce => GrantRetriever::AuthorizationCodeWithPkce(
                AuthorizationCodeWithPKCERetriever::new(),
            ),
            Grant::AuthorizationCode => GrantRetriever::AuthorizationCode(
                AuthorizationCodeRetriever::new(),
            ),
            Grant::Implicit => GrantRetriever::Implicit(ImplicitRetriever::new()),
            Grant::ResourceOwnerPasswordClientCredentials => {
                GrantRetriever::ResourceOwnerPasswordClientCredentials(
                    ResourceOwnerPasswordClientCredentialsRetriever::new(),
                )
            },
            Grant::ClientCredentials => GrantRetriever::ClientCredentials(
                ClientCredentialsRetriever::new(),
            ),
        }
    }

    /// Where the run stands.
    pub fn current_phase(&self) -> (r: &Phase)
        ensures
            *r == self.phase(),
    {
        match self {
            GrantRetriever::AuthorizationCodeWithPkce(r) => &r.phase,
            GrantRetriever::AuthorizationCode(r) => &r.phase,
            GrantRetriever::Implicit(r) => &r.phase,
            GrantRetriever::ResourceOwnerPasswordClientCredentials(r) => &r.phase,
            GrantRetriever::ClientCredentials(r) => &r.phase,
        }
    }
}

impl TokenRetriever for GrantRetriever {
    /// The strategy stays that of its grant and takes the steps of that
    /// grant.
    open spec fn takes(
        pre: Self,
        client: &OAuthClient,
        event: Event,
        now: Timestamp,
        post: Self,
        step: StepView,
    ) -> bool {
        post.grant() == pre.grant() && grant_step(
            pre.grant(),
            client,
            pre.phase()@,
            event,
            now,
            post.phase()@,
            step,
        )
    }

    fn retrieve(&mut self, client: &OAuthClient, event: Event, now: Timestamp) -> (step: Step) {
        match self {
            GrantRetriever::AuthorizationCodeWithPkce(r) => r.retrieve(client, event, now),
            GrantRetriever::AuthorizationCode(r) => r.retrieve(client, event, now),
            GrantRetriever::Implicit(r) => r.retrieve(client, event, now),
            GrantRetriever::ResourceOwnerPasswordClientCredentials(r) => r.retrieve(
                client,
                event,
                now,
            ),
            GrantRetriever::ClientCredentials(r) => r.retrieve(client, event, now),
        }
    }
}

} // verus!
