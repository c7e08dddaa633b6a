//! The expiry and refresh policy of the token cache: a cached token is
//! handed out while it is valid, renewed with its refresh token once it has
//! expired, and forgotten when it cannot be renewed.

use vstd::prelude::*;
use crate::file_state::FileState;
use crate::oauth_client::OAuthClient;
use crate::retrievers::{Event, RetrievalError, Step, StepView, TokenRetriever};
use crate::token_info::{Timestamp, TokenInfo, TokenInfoView};

verus! {

/// Where the look into the cache stands.
#[derive(Clone, Copy, Debug, PartialEq, Eq, Structural)]
pub enum CachePhase {
    /// Not begun.
    Idle,
    /// Waiting for the token endpoint to renew the token.
    Refreshing,
    /// Over.
    Finished,
}

/// What the cache holds, where the look stands and what is to be done.
pub struct CacheOutcome {
    pub cache: Map<Seq<char>, TokenInfoView>,
    pub phase: CachePhase,
    pub step: StepView,
}

/// The look is over without a token, and the entry of `client_id` is gone.
pub open spec fn forget(cache: Map<Seq<char>, TokenInfoView>, client_id: Seq<char>) -> CacheOutcome {
    CacheOutcome {
        cache: cache.remove(client_id),
        phase: CachePhase::Finished,
        step: StepView::Failed(RetrievalError::NotFound),
    }
}

/// What a first look into the cache finds, before anyone is asked.
#[derive(Clone, Debug, PartialEq, Eq)]
pub enum CacheLook {
    /// A token that has not expired.
    Found(TokenInfo),
    /// No token that can be used or renewed.
    NotFound,
    /// An expired token that can be renewed with this refresh token.
    RefreshDue(String),
}

/// The mathematical value of a [`CacheLook`].
pub enum CacheLookView {
    Found(TokenInfoView),
    NotFound,
    RefreshDue(Seq<char>),
}

impl View for CacheLook {
    type V = CacheLookView;

    open spec fn view(&self) -> CacheLookView {
        match *self {
            CacheLook::Found(info) => CacheLookView::Found(info@),
            CacheLook::NotFound => CacheLookView::NotFound,
            CacheLook::RefreshDue(refresh_token) => CacheLookView::RefreshDue(refresh_token@),
        }
    }
}

/// The first look into the cache at `now`, for which nobody has to be
/// asked, and the cache as the look leaves it. Without an entry nothing is
/// found. An entry that has not expired is found as it is. An expired entry
/// with a refresh token is due for renewal and stays for now; one without
/// is forgotten.
pub open spec fn glance(
    cache: Map<Seq<char>, TokenInfoView>,
    client_id: Seq<char>,
    now: Timestamp,
) -> (Map<Seq<char>, TokenInfoView>, CacheLookView) {
    if !cache.dom().contains(client_id) {
        (cache, CacheLookView::NotFound)
    } else if !cache[client_id].expired_at(now) {
        (cache, CacheLookView::Found(cache[client_id]))
    } else {
        match cache[client_id].refresh_token {
            Some(refresh_token) => (cache, CacheLookView::RefreshDue(refresh_token)),
            None => (cache.remove(client_id), CacheLookView::NotFound),
        }
    }
}

/// Whether the first look into the cache at `now` clears an entry, which
/// then has to be written: it does for an expired entry without a refresh
/// token.
pub open spec fn glance_touches(
    cache: Map<Seq<char>, TokenInfoView>,
    client_id: Seq<char>,
    now: Timestamp,
) -> bool {
    cache.dom().contains(client_id) && cache[client_id].expired_at(now)
        && cache[client_id].refresh_token is None
}

/// Whether a renewal that is due clears the entry at once: it does where
/// the request cannot be made.
pub open spec fn renewal_touches(client: &OAuthClient, refresh_token: Seq<char>) -> bool {
    client.refresh_request(refresh_token) is Err
}

/// What becomes of a renewal that is due: the token endpoint is asked, or,
/// where the request cannot even be made, the entry is forgotten.
pub open spec fn renewal(
    client: &OAuthClient,
    cache: Map<Seq<char>, TokenInfoView>,
    client_id: Seq<char>,
    refresh_token: Seq<char>,
) -> CacheOutcome {
    match client.refresh_request(refresh_token) {
        Ok(request) => CacheOutcome {
            cache,
            phase: CachePhase::Refreshing,
            step: StepView::Exchange(request),
        },
        Err(_) => forget(cache, client_id),
    }
}

/// How the look into the cache begins at `now`. Without an entry nothing
/// is found. An entry that has not expired is handed out as it is. An
/// expired entry with a refresh token is to be renewed; one without, or
/// one that cannot be sent for renewal, is forgotten.
pub open spec fn look_up(
    client: &OAuthClient,
    cache: Map<Seq<char>, TokenInfoView>,
    client_id: Seq<char>,
    now: Timestamp,
) -> CacheOutcome {
    let (left, found) = glance(cache, client_id, now);
    match found {
        CacheLookView::Found(info) => CacheOutcome {
            cache: left,
            phase: CachePhase::Finished,
            step: StepView::Done(info),
        },
        CacheLookView::NotFound => CacheOutcome {
            cache: left,
            phase: CachePhase::Finished,
            step: StepView::Failed(RetrievalError::NotFound),
        },
        CacheLookView::RefreshDue(refresh_token) => renewal(client, left, client_id, refresh_token),
    }
}

/// Whether the beginning of the look into the cache stores or clears
/// anything.
pub open spec fn look_up_touches(
    client: &OAuthClient,
    cache: Map<Seq<char>, TokenInfoView>,
    client_id: Seq<char>,
    now: Timestamp,
) -> bool {
    glance_touches(cache, client_id, now) || (glance(cache, client_id, now).1
        matches CacheLookView::RefreshDue(refresh_token) && renewal_touches(client, refresh_token))
}

/// Whether one step of the look into the cache stores or clears anything,
/// so that the cache has to be written afterwards: the beginning may clear
/// an entry, and the end of a renewal always stores or clears one.
pub open spec fn cache_step_touches(
    client: &OAuthClient,
    cache: Map<Seq<char>, TokenInfoView>,
    client_id: Seq<char>,
    pre: CachePhase,
    event: Event,
    now: Timestamp,
) -> bool {
    match pre {
        CachePhase::Idle => event is Start && look_up_touches(client, cache, client_id, now),
        CachePhase::Refreshing => event is Exchanged || event is ExchangeFailed,
        CachePhase::Finished => false,
    }
}

/// One step of the look into the cache. A renewal that succeeds at `now`
/// replaces the entry and hands the new token out; one that fails forgets
/// the entry. An event that the look was not waiting for ends it and
/// leaves the cache alone.
pub open spec fn cache_step(
    client: &OAuthClient,
    cache: Map<Seq<char>, TokenInfoView>,
    client_id: Seq<char>,
    pre: CachePhase,
    event: Event,
    now: Timestamp,
) -> CacheOutcome {
    let out_of_turn = CacheOutcome {
        cache,
        phase: CachePhase::Finished,
        step: StepView::Failed(RetrievalError::OutOfTurn),
    };
    match pre {
        CachePhase::Idle => match event {
            Event::Start => look_up(client, cache, client_id, now),
            _ => out_of_turn,
        },
        CachePhase::Refreshing => match event {
            Event::Exchanged(response) => if response.fits_at(now) {
                CacheOutcome {
                    cache: cache.insert(client_id, response.info_at(now)),
                    phase: CachePhase::Finished,
                    step: StepView::Done(response.info_at(now)),
                }
            } else {
                forget(cache, client_id)
            },
            Event::ExchangeFailed => forget(cache, client_id),
            _ => out_of_turn,
        },
        CachePhase::Finished => out_of_turn,
    }
}

/// The look into the token cache for the token of one client id.
#[derive(Debug, PartialEq, Eq)]
pub struct FileRetriever {
    /// The cache.
    pub file_state: FileState,
    /// The client id whose token is looked for.
    pub client_id: String,
    /// Where the look stands.
    pub phase: CachePhase,
}

impl FileRetriever {
    /// A look that has not begun.
    pub fn new(client_id: String, file_state: FileState) -> (r: FileRetriever)
        ensures
            r.file_state == file_state,
            r.client_id == client_id,
            r.phase == CachePhase::Idle,
    {
        FileRetriever { file_state, client_id, phase: CachePhase::Idle }
    }

    /// Forgets the entry and ends the look without a token.
    fn give_up(&mut self) -> (step: Step)
        ensures
            final(self).client_id == old(self).client_id,
            final(self).file_state.version() == old(self).file_state.version(),
            final(self).file_state.unsaved(),
            (CacheOutcome {
                cache: final(self).file_state@,
                phase: final(self).phase,
                step: step@,
            }) == forget(old(self).file_state@, old(self).client_id@),
    {
        self.file_state.clear_token_info(self.client_id.clone());
        self.phase = CachePhase::Finished;
        Step::Failed(RetrievalError::NotFound)
    }

    /// Takes the first look into the cache at `now`. Nobody is asked for
    /// anything; an expired entry that cannot be renewed is forgotten.
    pub fn look(&mut self, now: Timestamp) -> (r: CacheLook)
        ensures
            final(self).client_id == old(self).client_id,
            final(self).phase == old(self).phase,
            final(self).file_state.version() == old(self).file_state.version(),
            final(self).file_state.unsaved() == (old(self).file_state.unsaved() || glance_touches(
                old(self).file_state@,
                old(self).client_id@,
                now,
            )),
            (final(self).file_state@, r@) == glance(old(self).file_state@, old(self).client_id@, now),
    {
        let info = match self.file_state.read_token_info(&self.client_id) {
            Some(info) => info,
            None => {
                return CacheLook::NotFound;
            },
        };
        if !info.is_expired(&now) {
            return CacheLook::Found(info);
        }
        match info.refresh_token {
            Some(refresh_token) => CacheLook::RefreshDue(refresh_token),
            None => {
                self.file_state.clear_token_info(self.client_id.clone());
                CacheLook::NotFound
            },
        }
    }

    /// Asks for the renewal of a token with its refresh token, or forgets
    /// the entry where the request cannot be made.
    pub fn refresh(&mut self, client: &OAuthClient, refresh_token: String) -> (step: Step)
        ensures
            final(self).client_id == old(self).client_id,
            final(self).file_state.version() == old(self).file_state.version(),
            final(self).file_state.unsaved() == (old(self).file_state.unsaved() || renewal_touches(
                client,
                refresh_token@,
            )),
            (CacheOutcome {
                cache: final(self).file_state@,
                phase: final(self).phase,
                step: step@,
            }) == renewal(client, old(self).file_state@, old(self).client_id@, refresh_token@),
    {
        match client.refresh_token(refresh_token) {
            Ok(request) => {
                self.phase = CachePhase::Refreshing;
                Step::Exchange(request)
            },
            Err(_) => self.give_up(),
        }
    }

    /// Begins the look at `now`.
    fn begin(&mut self, client: &OAuthClient, now: Timestamp) -> (step: Step)
        ensures
            final(self).client_id == old(self).client_id,
            final(self).file_state.version() == old(self).file_state.version(),
            final(self).file_state.unsaved() == (old(self).file_state.unsaved() || look_up_touches(
                client,
                old(self).file_state@,
                old(self).client_id@,
                now,
            )),
            (CacheOutcome {
                cache: final(self).file_state@,
                phase: final(self).phase,
                step: step@,
            }) == look_up(client, old(self).file_state@, old(self).client_id@, now),
    {
        match self.look(now) {
            CacheLook::Found(info) => {
                self.phase = CachePhase::Finished;
                Step::Done(info)
            },
            CacheLook::NotFound => {
                self.phase = CachePhase::Finished;
                Step::Failed(RetrievalError::NotFound)
            },
            CacheLook::RefreshDue(refresh_token) => self.refresh(client, refresh_token),
        }
    }

    /// Stores a token that was acquired afresh, in place of what the cache
    /// held for the client id.
    pub fn store(&mut self, token_info: TokenInfo)
        ensures
            final(self).client_id == old(self).client_id,
            final(self).phase == old(self).phase,
            final(self).file_state.version() == old(self).file_state.version(),
            final(self).file_state.unsaved(),
            final(self).file_state@ == old(self).file_state@.insert(
                old(self).client_id@,
                token_info@,
            ),
    {
        self.file_state.upsert_token_info(self.client_id.clone(), token_info);
    }
}

impl TokenRetriever for FileRetriever {
    /// The steps of the look into the cache are those of [`cache_step`];
    /// the client id and the version of the cache file stay, and the cache
    /// has to be written once a step has stored or cleared anything.
    open spec fn takes(
        pre: Self,
        client: &OAuthClient,
        event: Event,
        now: Timestamp,
        post: Self,
        step: StepView,
    ) -> bool {
        &&& post.client_id == pre.client_id
        &&& post.file_state.version() == pre.file_state.version()
        &&& post.file_state.unsaved() == (pre.file_state.unsaved() || cache_step_touches(
            client,
            pre.file_state@,
            pre.client_id@,
            pre.phase,
            event,
            now,
        ))
        &&& (CacheOutcome { cache: post.file_state@, phase: post.phase, step }) == cache_step(
            client,
            pre.file_state@,
            pre.client_id@,
            pre.phase,
            event,
            now,
        )
    }

    /// Takes the look one step further, as [`cache_step`] says.
    fn retrieve(&mut self, client: &OAuthClient, event: Event, now: Timestamp) -> (step: Step) {
        let phase = self.phase;
        match phase {
            CachePhase::Idle => match event {
                Event::Start => {
                    return self.begin(client, now);
                },
                _ => {},
            },
            CachePhase::Refreshing => match event {
                Event::Exchanged(response) => {
                    return match TokenInfo::try_from_token_response(response, now) {
                        Some(info) => {
                            self.file_state.upsert_token_info(
                                self.client_id.clone(),
                                info.duplicate(),
                            );
                            self.phase = CachePhase::Finished;
                            Step::Done(info)
                        },
                        None => self.give_up(),
                    };
                },
                Event::ExchangeFailed => {
                    return self.give_up();
                },
                _ => {},
            },
            CachePhase::Finished => {},
        }
        self.phase = CachePhase::Finished;
        Step::Failed(RetrievalError::OutOfTurn)
    }
}

/// An expired token with a refresh token is renewed: the look asks for the
/// exchange of that refresh token, and once the token endpoint has
/// answered, the new token is handed out and the cache holds it in place of
/// the old one.
pub proof fn lemma_expired_token_is_refreshed(
    client: &OAuthClient,
    cache: Map<Seq<char>, TokenInfoView>,
    client_id: Seq<char>,
    response: crate::token_info::TokenResponse,
    now: Timestamp,
    later: Timestamp,
)
    requires
        cache.dom().contains(client_id),
        cache[client_id].expired_at(now),
        cache[client_id].refresh_token is Some,
        client.endpoints().token_url is Some,
        response.fits_at(later),
    ensures
        ({
            let first = cache_step(client, cache, client_id, CachePhase::Idle, Event::Start, now);
            let second = cache_step(
                client,
                first.cache,
                client_id,
                first.phase,
                Event::Exchanged(response),
                later,
            );
            &&& first.cache == cache
            &&& Ok::<crate::oauth_client::TokenRequestView, crate::oauth_client::ConfigError>(
                first.step->Exchange_0,
            ) == client.refresh_request(cache[client_id].refresh_token->0)
            &&& first.step is Exchange
            &&& second.step == StepView::Done(response.info_at(later))
            &&& second.cache.dom().contains(client_id)
            &&& second.cache[client_id] == response.info_at(later)
            &&& second.cache == cache.insert(client_id, response.info_at(later))
        }),
{
}

/// An expired token that cannot be renewed is forgotten: without a refresh
/// token at once, with one as soon as the renewal has failed. Either way
/// nothing is found and the cache no longer holds an entry for the client
/// id, while every other entry stays.
pub proof fn lemma_expired_token_is_cleared(
    client: &OAuthClient,
    cache: Map<Seq<char>, TokenInfoView>,
    client_id: Seq<char>,
    now: Timestamp,
    later: Timestamp,
)
    requires
        cache.dom().contains(client_id),
        cache[client_id].expired_at(now),
    ensures
        ({
            let first = cache_step(client, cache, client_id, CachePhase::Idle, Event::Start, now);
            let second = cache_step(
                client,
                first.cache,
                client_id,
                first.phase,
                Event::ExchangeFailed,
                later,
            );
            &&& cache[client_id].refresh_token is None ==> first.step == StepView::Failed(
                RetrievalError::NotFound,
            ) && first.cache == cache.remove(client_id)
            &&& first.step is Exchange ==> second.step == StepView::Failed(
                RetrievalError::NotFound,
            ) && second.cache == cache.remove(client_id)
            &&& !cache.remove(client_id).dom().contains(client_id)
        }),
{
}

/// A token that has not expired, or that never expires, is handed out as it
/// is: nothing is asked of anyone and the cache stays as it was.
pub proof fn lemma_valid_token_is_a_hit(
    client: &OAuthClient,
    cache: Map<Seq<char>, TokenInfoView>,
    client_id: Seq<char>,
    now: Timestamp,
)
    requires
        cache.dom().contains(client_id),
        !cache[client_id].expired_at(now),
    ensures
        cache_step(client, cache, client_id, CachePhase::Idle, Event::Start, now) == (CacheOutcome {
            cache,
            phase: CachePhase::Finished,
            step: StepView::Done(cache[client_id]),
        }),
        cache[client_id].expires is None ==> !cache[client_id].expired_at(now),
{
}

} // verus!
