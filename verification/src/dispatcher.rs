//! The dispatcher: the cache first, unless a fresh flow is forced, then the
//! strategy of the configured grant, whose token is stored in the cache.
//! Nobody is asked for anything before the cache has been looked into: the
//! discovery document is fetched, and the protocol client made, only once a
//! token has to be renewed or acquired.

use vstd::prelude::*;
use crate::args::Arguments;
use crate::file_retriever::{
    cache_step, cache_step_touches, glance, glance_touches, renewal, renewal_touches, CacheLook,
    CacheLookView, CacheOutcome, CachePhase, FileRetriever,
};
use crate::file_state::FileState;
use crate::grant::Grant;
use crate::oauth_client::{
    client_fault, description, is_client_of, OAuthClient, OpenIDProviderMetadata,
};
use crate::retrievers::{
    grant_step, Event, GrantRetriever, PhaseView, RetrievalError, Step, StepView, TokenRetriever,
};
use crate::token_info::{Timestamp, TokenInfoView};

verus! {

/// What the protocol client is needed for.
#[derive(Clone, Debug, PartialEq, Eq)]
pub enum Goal {
    /// The renewal of the cached token with this refresh token.
    Refresh(String),
    /// The strategy of the grant.
    Grant,
}

/// The mathematical value of a [`Goal`].
pub enum GoalView {
    Refresh(Seq<char>),
    Grant,
}

impl View for Goal {
    type V = GoalView;

    open spec fn view(&self) -> GoalView {
        match *self {
            Goal::Refresh(refresh_token) => GoalView::Refresh(refresh_token@),
            Goal::Grant => GoalView::Grant,
        }
    }
}

impl Goal {
    /// An independent copy with the same value.
    pub fn duplicate(&self) -> (r: Goal)
        ensures
            r == *self,
    {
        match self {
            Goal::Refresh(refresh_token) => Goal::Refresh(refresh_token.clone()),
            Goal::Grant => Goal::Grant,
        }
    }
}

/// Which part of an acquisition is at work.
#[derive(Clone, Debug, PartialEq, Eq)]
pub enum Stage {
    /// Not begun.
    Idle,
    /// Waiting for the discovery document, with this to do afterwards.
    Discovering(Goal),
    /// The cache is waiting for the renewal of its token.
    Cache,
    /// The strategy of the grant is at work.
    Grant,
    /// Over.
    Finished,
}

/// The mathematical value of a [`Stage`].
pub enum StageView {
    Idle,
    Discovering(GoalView),
    Cache,
    Grant,
    Finished,
}

impl View for Stage {
    type V = StageView;

    open spec fn view(&self) -> StageView {
        match *self {
            Stage::Idle => StageView::Idle,
            Stage::Discovering(goal) => StageView::Discovering(goal@),
            Stage::Cache => StageView::Cache,
            Stage::Grant => StageView::Grant,
            Stage::Finished => StageView::Finished,
        }
    }
}

/// One acquisition of a token.
#[derive(Debug, PartialEq, Eq)]
pub struct Dispatcher {
    /// The configuration.
    pub args: Arguments,
    /// The discovery document, once it was had.
    pub discovered: Option<OpenIDProviderMetadata>,
    /// The protocol client, once it was needed and could be made.
    pub client: Option<OAuthClient>,
    /// The look into the cache.
    pub cache: FileRetriever,
    /// The run of the grant.
    pub grant: GrantRetriever,
    /// Which of them is at work.
    pub stage: Stage,
}

/// The mathematical value of a [`Dispatcher`].
pub struct DispatcherView {
    pub args: Arguments,
    pub discovered: Option<OpenIDProviderMetadata>,
    pub client: Option<OAuthClient>,
    /// The client id under which the cache is looked into.
    pub client_id: Seq<char>,
    /// The version that the cache file carries.
    pub version: u32,
    /// Whether something was stored or cleared that is still to be
    /// written to the cache file.
    pub unsaved: bool,
    pub cache: Map<Seq<char>, TokenInfoView>,
    pub cache_phase: CachePhase,
    /// The grant whose strategy is held.
    pub kind: Grant,
    pub grant: PhaseView,
    pub stage: StageView,
}

impl View for Dispatcher {
    type V = DispatcherView;

    open spec fn view(&self) -> DispatcherView {
        DispatcherView {
            args: self.args,
            discovered: self.discovered,
            client: self.client,
            client_id: self.cache.client_id@,
            version: self.cache.file_state.version(),
            unsaved: self.cache.file_state.unsaved(),
            cache: self.cache.file_state@,
            cache_phase: self.cache.phase,
            kind: self.grant.grant(),
            grant: self.grant.phase()@,
            stage: self.stage@,
        }
    }
}

/// An event that the acquisition was not waiting for ends it and changes
/// nothing else.
pub open spec fn out_of_turn(pre: DispatcherView, post: DispatcherView, step: StepView) -> bool {
    step == StepView::Failed(RetrievalError::OutOfTurn) && post == (DispatcherView {
        stage: StageView::Finished,
        ..pre
    })
}

/// The strategy of the grant takes one step. A token that it ends with is
/// stored under the client id, and is then to be written; a failure ends
/// the acquisition and is not retried.
pub open spec fn runs_grant(
    client: &OAuthClient,
    pre: DispatcherView,
    event: Event,
    now: Timestamp,
    post: DispatcherView,
    step: StepView,
) -> bool {
    &&& grant_step(pre.kind, client, pre.grant, event, now, post.grant, step)
    &&& post == (DispatcherView {
        cache: match step {
            StepView::Done(info) => pre.cache.insert(pre.client_id, info),
            _ => pre.cache,
        },
        unsaved: pre.unsaved || step is Done,
        grant: post.grant,
        stage: if step.is_final() {
            StageView::Finished
        } else {
            StageView::Grant
        },
        ..pre
    })
}

/// The cache has taken one step, which has stored or cleared something
/// exactly if `touched`. A token that it hands out ends the acquisition.
/// A renewal that it asks for is passed on. Where it finds nothing, the
/// strategy of the grant begins at once, on the cache as the look has left
/// it.
pub open spec fn after_cache(
    client: &OAuthClient,
    outcome: CacheOutcome,
    touched: bool,
    pre: DispatcherView,
    now: Timestamp,
    post: DispatcherView,
    step: StepView,
) -> bool {
    match outcome.step {
        StepView::Failed(RetrievalError::NotFound) => runs_grant(
            client,
            DispatcherView {
                cache: outcome.cache,
                cache_phase: outcome.phase,
                unsaved: pre.unsaved || touched,
                ..pre
            },
            Event::Start,
            now,
            post,
            step,
        ),
        _ => step == outcome.step && post == (DispatcherView {
            cache: outcome.cache,
            cache_phase: outcome.phase,
            unsaved: pre.unsaved || touched,
            stage: if outcome.step.is_final() {
                StageView::Finished
            } else {
                StageView::Cache
            },
            ..pre
        }),
    }
}

/// With the client at hand, what it was needed for is done: the renewal
/// is asked for, or the strategy of the grant begins.
pub open spec fn pursues(
    goal: GoalView,
    client: &OAuthClient,
    pre: DispatcherView,
    now: Timestamp,
    post: DispatcherView,
    step: StepView,
) -> bool {
    match goal {
        GoalView::Grant => runs_grant(client, pre, Event::Start, now, post, step),
        GoalView::Refresh(refresh_token) => after_cache(
            client,
            renewal(client, pre.cache, pre.client_id, refresh_token),
            renewal_touches(client, refresh_token),
            pre,
            now,
            post,
            step,
        ),
    }
}

/// The client is made from the configuration and the discovery document
/// `discovered`, which is kept. A configuration that cannot be turned into
/// a client ends the acquisition; otherwise what the client was needed for
/// is done at once.
pub open spec fn with_client(
    goal: GoalView,
    discovered: Option<OpenIDProviderMetadata>,
    pre: DispatcherView,
    now: Timestamp,
    post: DispatcherView,
    step: StepView,
) -> bool {
    match client_fault(pre.args, discovered) {
        Some(e) => step == StepView::Failed(RetrievalError::Config(e)) && post == (DispatcherView {
            discovered,
            client: None,
            stage: StageView::Finished,
            ..pre
        }),
        None => post.client is Some && is_client_of(post.client->0, pre.args, discovered)
            && pursues(
            goal,
            &post.client->0,
            DispatcherView { discovered, client: post.client, ..pre },
            now,
            post,
            step,
        ),
    }
}

/// The client is needed. Where it is there already, it is used. Where the
/// configuration names a discovery URL, the discovery document is asked
/// for first. Otherwise the client is made at once.
pub open spec fn needs_client(
    goal: GoalView,
    pre: DispatcherView,
    now: Timestamp,
    post: DispatcherView,
    step: StepView,
) -> bool {
    match pre.client {
        Some(client) => pursues(goal, &client, pre, now, post, step),
        None => match pre.args.discovery_url {
            Some(url) => step == StepView::Discover(url@) && post == (DispatcherView {
                stage: StageView::Discovering(goal),
                ..pre
            }),
            None => with_client(goal, None, pre, now, post, step),
        },
    }
}

/// How an acquisition begins at `now`. Where a fresh flow is forced, the
/// cache is passed over and the client is needed for the grant. Otherwise
/// the cache is looked into first, for which nobody is asked: a token that
/// has not expired ends the acquisition at once, and only a token that is
/// due for renewal or missing makes the client needed.
pub open spec fn begins(
    pre: DispatcherView,
    now: Timestamp,
    post: DispatcherView,
    step: StepView,
) -> bool {
    if pre.args.force {
        needs_client(GoalView::Grant, pre, now, post, step)
    } else {
        let (left, found) = glance(pre.cache, pre.client_id, now);
        let looked = DispatcherView {
            cache: left,
            unsaved: pre.unsaved || glance_touches(pre.cache, pre.client_id, now),
            ..pre
        };
        match found {
            CacheLookView::Found(info) => step == StepView::Done(info) && post == (DispatcherView {
                stage: StageView::Finished,
                ..looked
            }),
            CacheLookView::NotFound => needs_client(GoalView::Grant, looked, now, post, step),
            CacheLookView::RefreshDue(refresh_token) => needs_client(
                GoalView::Refresh(refresh_token),
                looked,
                now,
                post,
                step,
            ),
        }
    }
}

/// One step of an acquisition: from where it stood and what happened, to
/// where it stands and what is to be done.
pub open spec fn dispatch(
    pre: DispatcherView,
    event: Event,
    now: Timestamp,
    post: DispatcherView,
    step: StepView,
) -> bool {
    match pre.stage {
        StageView::Idle => match event {
            Event::Start => begins(pre, now, post, step),
            _ => out_of_turn(pre, post, step),
        },
        StageView::Discovering(goal) => match event {
            Event::Discovered(metadata) => with_client(goal, Some(metadata), pre, now, post, step),
            Event::DiscoveryFailed => with_client(goal, None, pre, now, post, step),
            _ => out_of_turn(pre, post, step),
        },
        StageView::Cache => match pre.client {
            Some(client) => after_cache(
                &client,
                cache_step(&client, pre.cache, pre.client_id, pre.cache_phase, event, now),
                cache_step_touches(&client, pre.cache, pre.client_id, pre.cache_phase, event, now),
                pre,
                now,
                post,
                step,
            ),
            None => out_of_turn(pre, post, step),
        },
        StageView::Grant => match pre.client {
            Some(client) => runs_grant(&client, pre, event, now, post, step),
            None => out_of_turn(pre, post, step),
        },
        StageView::Finished => out_of_turn(pre, post, step),
    }
}

impl Dispatcher {
    /// An acquisition that has not begun, for the client id and the grant
    /// of the configuration. Nothing is fetched and no client is made yet.
    pub fn new(args: Arguments, file_state: FileState) -> (r: Dispatcher)
        ensures
            r@ == (DispatcherView {
                args,
                discovered: None,
                client: None,
                client_id: args.client_id@,
                version: file_state.version(),
                unsaved: file_state.unsaved(),
                cache: file_state@,
                cache_phase: CachePhase::Idle,
                kind: args.grant,
                grant: PhaseView::Idle,
                stage: StageView::Idle,
            }),
    {
        let client_id = args.client_id.clone();
        let grant = GrantRetriever::new(args.grant);
        Dispatcher {
            args,
            discovered: None,
            client: None,
            cache: FileRetriever::new(client_id, file_state),
            grant,
            stage: Stage::Idle,
        }
    }

    /// The sentence for a failure of this acquisition. For a URL that is
    /// no absolute URL it ends with the value that was provided.
    pub fn describe(&self, error: RetrievalError) -> (r: String)
        ensures
            r@ == (match error {
                RetrievalError::Config(e) => description(self.args, self.discovered, e),
                _ => error.text(),
            }),
    {
        match error {
            RetrievalError::Config(e) => e.describe(&self.args, &self.discovered),
            _ => error.message().to_owned(),
        }
    }

    /// Ends the acquisition on an event that nothing was waiting for.
    fn refuse(&mut self) -> (step: Step)
        ensures
            out_of_turn(old(self)@, final(self)@, step@),
    {
        self.stage = Stage::Finished;
        Step::Failed(RetrievalError::OutOfTurn)
    }

    /// Lets the strategy of the grant take the event.
    fn run_grant(&mut self, event: Event, now: Timestamp) -> (step: Step)
        requires
            old(self).client is Some,
        ensures
            runs_grant(&old(self).client->0, old(self)@, event, now, final(self)@, step@),
    {
        let client = match &self.client {
            Some(client) => client,
            None => {
                return Step::Failed(RetrievalError::OutOfTurn);
            },
        };
        let step = self.grant.retrieve(client, event, now);
        match &step {
            Step::Done(info) => {
                self.cache.store(info.duplicate());
                self.stage = Stage::Finished;
            },
            Step::Failed(_) => {
                self.stage = Stage::Finished;
            },
            _ => {
                self.stage = Stage::Grant;
            },
        }
        step
    }

    /// Passes on what the cache has come to, and lets the strategy of the
    /// grant begin where the cache has found nothing.
    fn settle_cache(&mut self, step: Step, now: Timestamp) -> (r: Step)
        requires
            old(self).client is Some,
        ensures
            after_cache(
                &old(self).client->0,
                CacheOutcome {
                    cache: old(self).cache.file_state@,
                    phase: old(self).cache.phase,
                    step: step@,
                },
                false,
                old(self)@,
                now,
                final(self)@,
                r@,
            ),
    {
        match &step {
            Step::Failed(RetrievalError::NotFound) => {
                return self.run_grant(Event::Start, now);
            },
            Step::Done(_) => {
                self.stage = Stage::Finished;
            },
            Step::Failed(_) => {
                self.stage = Stage::Finished;
            },
            _ => {
                self.stage = Stage::Cache;
            },
        }
        step
    }

    /// Lets the cache take the event.
    fn run_cache(&mut self, event: Event, now: Timestamp) -> (step: Step)
        requires
            old(self).client is Some,
        ensures
            after_cache(
                &old(self).client->0,
                cache_step(
                    &old(self).client->0,
                    old(self)@.cache,
                    old(self)@.client_id,
                    old(self)@.cache_phase,
                    event,
                    now,
                ),
                cache_step_touches(
                    &old(self).client->0,
                    old(self)@.cache,
                    old(self)@.client_id,
                    old(self)@.cache_phase,
                    event,
                    now,
                ),
                old(self)@,
                now,
                final(self)@,
                step@,
            ),
    {
        let client = match &self.client {
            Some(client) => client,
            None => {
                return Step::Failed(RetrievalError::OutOfTurn);
            },
        };
        let step = self.cache.retrieve(client, event, now);
        self.settle_cache(step, now)
    }

    /// Does what the client was needed for.
    fn pursue(&mut self, goal: Goal, now: Timestamp) -> (step: Step)
        requires
            old(self).client is Some,
        ensures
            pursues(goal@, &old(self).client->0, old(self)@, now, final(self)@, step@),
    {
        match goal {
            Goal::Grant => self.run_grant(Event::Start, now),
            Goal::Refresh(refresh_token) => {
                let client = match &self.client {
                    Some(client) => client,
                    None => {
                        return Step::Failed(RetrievalError::OutOfTurn);
                    },
                };
                let step = self.cache.refresh(client, refresh_token);
                self.settle_cache(step, now)
            },
        }
    }

    /// Makes the client and does what it was needed for.
    fn make_client(
        &mut self,
        goal: Goal,
        discovered: Option<OpenIDProviderMetadata>,
        now: Timestamp,
    ) -> (step: Step)
        ensures
            with_client(goal@, discovered, old(self)@, now, final(self)@, step@),
    {
        let copy = match &discovered {
            Some(metadata) => Some(metadata.duplicate()),
            None => None,
        };
        self.discovered = discovered;
        match OAuthClient::new(self.args.duplicate(), copy) {
            Ok(client) => {
                self.client = Some(client);
                self.pursue(goal, now)
            },
            Err(e) => {
                self.client = None;
                self.stage = Stage::Finished;
                Step::Failed(RetrievalError::Config(e))
            },
        }
    }

    /// Gets the client, by way of the discovery document where the
    /// configuration names one, and does what it is needed for.
    fn need_client(&mut self, goal: Goal, now: Timestamp) -> (step: Step)
        ensures
            needs_client(goal@, old(self)@, now, final(self)@, step@),
    {
        if self.client.is_some() {
            return self.pursue(goal, now);
        }
        match &self.args.discovery_url {
            Some(url) => {
                let url = url.clone();
                self.stage = Stage::Discovering(goal);
                Step::Discover(url)
            },
            None => self.make_client(goal, None, now),
        }
    }

    /// Begins the acquisition.
    fn begin(&mut self, now: Timestamp) -> (step: Step)
        ensures
            begins(old(self)@, now, final(self)@, step@),
    {
        if self.args.force {
            return self.need_client(Goal::Grant, now);
        }
        match self.cache.look(now) {
            CacheLook::Found(info) => {
                self.stage = Stage::Finished;
                Step::Done(info)
            },
            CacheLook::NotFound => self.need_client(Goal::Grant, now),
            CacheLook::RefreshDue(refresh_token) => self.need_client(
                Goal::Refresh(refresh_token),
                now,
            ),
        }
    }
}

/// Takes an acquisition one step further. The first event is
/// [`Event::Start`]; each following one tells how the step before went.
/// The acquisition is over with the step [`Step::Done`], which carries the
/// token, or [`Step::Failed`].
pub fn get_token(dispatcher: &mut Dispatcher, event: Event, now: Timestamp) -> (step: Step)
    ensures
        dispatch(old(dispatcher)@, event, now, final(dispatcher)@, step@),
{
    let goal = match &dispatcher.stage {
        Stage::Idle => {
            return match event {
                Event::Start => dispatcher.begin(now),
                _ => dispatcher.refuse(),
            };
        },
        Stage::Discovering(goal) => goal.duplicate(),
        Stage::Cache => {
            return if dispatcher.client.is_some() {
                dispatcher.run_cache(event, now)
            } else {
                dispatcher.refuse()
            };
        },
        Stage::Grant => {
            return if dispatcher.client.is_some() {
                dispatcher.run_grant(event, now)
            } else {
                dispatcher.refuse()
            };
        },
        Stage::Finished => {
            return dispatcher.refuse();
        },
    };
    match event {
        Event::Discovered(metadata) => dispatcher.make_client(goal, Some(metadata), now),
        Event::DiscoveryFailed => dispatcher.make_client(goal, None, now),
        _ => dispatcher.refuse(),
    }
}

/// A cache hit needs nothing from outside: where no fresh flow is forced
/// and the cache holds a token for the client id that has not expired, the
/// first step hands that token out and ends the acquisition. Nothing else
/// changes: nothing was discovered, no client was made, and cache and
/// grant are untouched.
pub proof fn lemma_cache_hit_is_immediate(
    pre: DispatcherView,
    now: Timestamp,
    post: DispatcherView,
    step: StepView,
)
    requires
        pre.stage is Idle,
        !pre.args.force,
        pre.cache.dom().contains(pre.client_id),
        !pre.cache[pre.client_id].expired_at(now),
        dispatch(pre, Event::Start, now, post, step),
    ensures
        step == StepView::Done(pre.cache[pre.client_id]),
        post == (DispatcherView { stage: StageView::Finished, ..pre }),
{
}

/// The discovery document is asked for only when it is needed: at the
/// beginning of an acquisition whose configuration names a discovery URL,
/// and only where a fresh flow is forced or the cache holds no token that
/// can be handed out as it is.
pub proof fn lemma_discovery_only_when_needed(
    pre: DispatcherView,
    event: Event,
    now: Timestamp,
    post: DispatcherView,
    step: StepView,
)
    requires
        dispatch(pre, event, now, post, step),
        step is Discover,
    ensures
        pre.stage is Idle,
        event is Start,
        pre.client is None,
        pre.args.discovery_url is Some,
        step->Discover_0 == pre.args.discovery_url->0@,
        pre.args.force || !(glance(pre.cache, pre.client_id, now).1 is Found),
        post.stage is Discovering,
{
}

/// Where a fresh flow is forced, the cache is not looked into: a token
/// that it holds is neither handed out nor touched, unless the grant ends
/// with a new one.
pub proof fn lemma_force_skips_the_cache(
    pre: DispatcherView,
    now: Timestamp,
    post: DispatcherView,
    step: StepView,
)
    requires
        pre.stage is Idle,
        pre.args.force,
        dispatch(pre, Event::Start, now, post, step),
    ensures
        needs_client(GoalView::Grant, pre, now, post, step),
        post.cache_phase == pre.cache_phase,
        !(step is Done) ==> post.cache == pre.cache && post.unsaved == pre.unsaved,
{
}

/// An acquisition ends once: a step that hands out a token or fails leaves
/// the acquisition finished, and a finished acquisition answers every
/// further event with a failure and changes nothing. The configuration,
/// the client id, the grant and the version of the cache file never
/// change.
pub proof fn lemma_acquisition_ends_once(
    pre: DispatcherView,
    event: Event,
    now: Timestamp,
    post: DispatcherView,
    step: StepView,
)
    requires
        dispatch(pre, event, now, post, step),
    ensures
        step.is_final() ==> post.stage is Finished,
        pre.stage is Finished ==> post == pre && step == StepView::Failed(
            RetrievalError::OutOfTurn,
        ),
        post.args == pre.args,
        post.client_id == pre.client_id,
        post.kind == pre.kind,
        post.version == pre.version,
{
}

/// A token that the grant ends with is in the cache afterwards, under the
/// client id.
pub proof fn lemma_fresh_token_is_stored(
    client: &OAuthClient,
    pre: DispatcherView,
    event: Event,
    now: Timestamp,
    post: DispatcherView,
    step: StepView,
)
    requires
        runs_grant(client, pre, event, now, post, step),
        step is Done,
    ensures
        post.cache.dom().contains(pre.client_id),
        post.cache[pre.client_id] == step->Done_0,
        post.unsaved,
{
}

} // verus!
