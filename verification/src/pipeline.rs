//! The path of one request through the gateway: which stage follows which,
//! what the caller is asked to do next, and how a failure ends the request.
//!
//! The pipeline does no work of its own outside this crate. It names the
//! next piece of outside work as an [`Action`]; the caller performs it and
//! reports how it went as an [`Event`].

use vstd::prelude::*;
use crate::error::GatewayError;
use crate::hostname::{rewritten, SuffixRewrite};
use crate::identifier::{assemble, assembled, ContentIdentifier, ADDRESS_LEN, CONTENT_HASH_LEN};
use crate::response::{failure_view, HttpResponse, ResponseAccumulator, ResponseView};

verus! {

/// The stages of a request, in the order in which they are passed.
#[derive(Debug, Clone, Copy, PartialEq, Eq, Structural)]
pub enum Stage {
    ResolvingName,
    FetchingContent,
    Loading,
    Executing,
    Responding,
}

/// Where a request stands. `Responding` and `Failed` are final.
#[derive(Debug, Clone, PartialEq, Eq)]
pub enum PipelineState {
    ResolvingName,
    FetchingContent,
    Loading,
    Executing,
    Responding,
    /// The request failed in the given stage with the given error.
    Failed(Stage, GatewayError),
}

/// How the outside work of a stage went.
#[derive(Debug)]
pub enum Event {
    /// Name resolution returned both values.
    NameResolved { address: Vec<u8>, content_hash: Vec<u8> },
    /// Name resolution failed or timed out for one of the two values.
    NameResolutionFailed,
    /// The content store delivered the module's bytes.
    ContentFetched(Vec<u8>),
    /// The content store did not deliver.
    ContentFetchFailed,
    /// The module was parsed, instantiated and found to export what it must.
    ModuleLoaded,
    /// The module could not be loaded.
    ModuleLoadFailed(GatewayError),
    /// The guest's entry point returned without a value.
    GuestReturned(ResponseAccumulator),
    /// The guest trapped or returned a value.
    GuestFailed,
    /// The guest used up its execution budget and was aborted.
    GuestTimedOut,
}

impl Event {
    /// The outcome of name resolution from the outcomes of its two requests,
    /// which run side by side: both values must have come; if either is
    /// missing, resolution has failed.
    pub fn from_resolution(address: Option<Vec<u8>>, content_hash: Option<Vec<u8>>) -> (event:
        Event)
        ensures
            event == match (address, content_hash) {
                (Some(a), Some(h)) => Event::NameResolved { address: a, content_hash: h },
                _ => Event::NameResolutionFailed,
            },
    {
        match (address, content_hash) {
            (Some(a), Some(h)) => Event::NameResolved { address: a, content_hash: h },
            _ => Event::NameResolutionFailed,
        }
    }
}

/// What the caller is asked to do next.
#[derive(Debug)]
pub enum Action {
    /// Resolve the address and the content hash of this name.
    ResolveName(String),
    /// Fetch the bytes stored under this identifier.
    FetchContent(ContentIdentifier),
    /// Load these bytes as a module.
    LoadModule(Vec<u8>),
    /// Invoke the guest's entry point.
    ExecuteGuest,
    /// Send this response. The request is over.
    Respond(HttpResponse),
    /// Nothing: the event did not belong to the stage, or the request is over.
    Nothing,
}

/// An action as mathematical values.
pub enum ActionView {
    ResolveName(Seq<char>),
    FetchContent(Seq<u8>),
    LoadModule(Seq<u8>),
    ExecuteGuest,
    Respond(ResponseView),
    Nothing,
}

impl View for Action {
    type V = ActionView;

    open spec fn view(&self) -> ActionView {
        match self {
            Action::ResolveName(name) => ActionView::ResolveName(name@),
            Action::FetchContent(id) => ActionView::FetchContent(id@),
            Action::LoadModule(bytes) => ActionView::LoadModule(bytes@),
            Action::ExecuteGuest => ActionView::ExecuteGuest,
            Action::Respond(response) => ActionView::Respond(response@),
            Action::Nothing => ActionView::Nothing,
        }
    }
}

/// Whether a state is final.
pub open spec fn is_final(state: PipelineState) -> bool {
    state is Responding || state is Failed
}

/// Whether `error` is one of the failures of loading a module.
pub open spec fn is_load_error(error: GatewayError) -> bool {
    error is ModuleParseFailed || error is UnresolvedImport || error is ImportTypeMismatch
        || error is MissingMemoryExport || error is MissingOrMalformedEntryPoint
}

/// The failure that a failed load is recorded as: the reported error if it
/// is a failure of loading, else `ModuleParseFailed`.
pub open spec fn load_error(error: GatewayError) -> GatewayError {
    if is_load_error(error) {
        error
    } else {
        GatewayError::ModuleParseFailed
    }
}

/// The failure, if any, with which `event` ends a request in `state`.
pub open spec fn failure_of(state: PipelineState, event: Event) -> Option<(Stage, GatewayError)> {
    match (state, event) {
        (PipelineState::ResolvingName, Event::NameResolutionFailed) => Some(
            (Stage::ResolvingName, GatewayError::NameResolutionFailed),
        ),
        (PipelineState::ResolvingName, Event::NameResolved { address, content_hash }) => {
            if address@.len() == ADDRESS_LEN && content_hash@.len() == CONTENT_HASH_LEN {
                None
            } else {
                Some((Stage::ResolvingName, GatewayError::InvalidIdentifierInput))
            }
        },
        (PipelineState::FetchingContent, Event::ContentFetchFailed) => Some(
            (Stage::FetchingContent, GatewayError::ContentFetchFailed),
        ),
        (PipelineState::Loading, Event::ModuleLoadFailed(error)) => Some(
            (Stage::Loading, load_error(error)),
        ),
        (PipelineState::Executing, Event::GuestFailed) => Some(
            (Stage::Executing, GatewayError::GuestExecutionFailed),
        ),
        (PipelineState::Executing, Event::GuestTimedOut) => Some(
            (Stage::Executing, GatewayError::GuestExecutionTimedOut),
        ),
        (PipelineState::Executing, Event::GuestReturned(response)) => {
            if response@.status is Some {
                None
            } else {
                Some((Stage::Executing, GatewayError::GuestExecutionFailed))
            }
        },
        _ => None,
    }
}

/// The state that follows `state` on `event`.
pub open spec fn next_state(state: PipelineState, event: Event) -> PipelineState {
    match failure_of(state, event) {
        Some((stage, error)) => PipelineState::Failed(stage, error),
        None => match (state, event) {
            (PipelineState::ResolvingName, Event::NameResolved { .. }) => {
                PipelineState::FetchingContent
            },
            (PipelineState::FetchingContent, Event::ContentFetched(_)) => PipelineState::Loading,
            (PipelineState::Loading, Event::ModuleLoaded) => PipelineState::Executing,
            (PipelineState::Executing, Event::GuestReturned(_)) => PipelineState::Responding,
            _ => state,
        },
    }
}

/// The action that `event` asks for in `state`.
pub open spec fn next_action(state: PipelineState, event: Event) -> ActionView {
    match failure_of(state, event) {
        Some((_, error)) => ActionView::Respond(failure_view(error)),
        None => match (state, event) {
            (PipelineState::ResolvingName, Event::NameResolved { address, content_hash }) => {
                ActionView::FetchContent(assembled(address@, content_hash@))
            },
            (PipelineState::FetchingContent, Event::ContentFetched(bytes)) => {
                ActionView::LoadModule(bytes@)
            },
            (PipelineState::Loading, Event::ModuleLoaded) => ActionView::ExecuteGuest,
            (PipelineState::Executing, Event::GuestReturned(response)) => ActionView::Respond(
                response@,
            ),
            _ => ActionView::Nothing,
        },
    }
}

/// The state in which a request for `host` starts.
pub open spec fn first_state(host: Option<Seq<char>>) -> PipelineState {
    match host {
        Some(_) => PipelineState::ResolvingName,
        None => PipelineState::Failed(Stage::ResolvingName, GatewayError::MissingHost),
    }
}

/// The first action of a request for `host` under a rewrite rule.
pub open spec fn first_action(
    host: Option<Seq<char>>,
    gateway: Seq<char>,
    domain: Seq<char>,
) -> ActionView {
    match host {
        Some(name) => ActionView::ResolveName(rewritten(name, gateway, domain)),
        None => ActionView::Respond(failure_view(GatewayError::MissingHost)),
    }
}

/// The state after a run of events, taken one after the other.
pub open spec fn state_after(state: PipelineState, events: Seq<Event>) -> PipelineState
    decreases events.len(),
{
    if events.len() == 0 {
        state
    } else {
        next_state(state_after(state, events.drop_last()), events.last())
    }
}

/// The action that the `i`-th event of a run asks for.
pub open spec fn action_at(state: PipelineState, events: Seq<Event>, i: int) -> ActionView {
    next_action(state_after(state, events.take(i)), events[i])
}

/// One request on its way through the gateway.
#[derive(Debug)]
pub struct RequestPipeline {
    state: PipelineState,
}

impl View for RequestPipeline {
    type V = PipelineState;

    closed spec fn view(&self) -> PipelineState {
        self.state
    }
}

impl RequestPipeline {
    /// Starts a request. A request that names no host is over at once and is
    /// answered with `404`; any other asks for its host name, rewritten by
    /// `rule`, to be resolved.
    pub fn start(host: Option<&str>, rule: &SuffixRewrite) -> (started: (RequestPipeline, Action))
        ensures
            started.0@ == first_state(
                match host {
                    Some(h) => Some(h@),
                    None => None,
                },
            ),
            started.1@ == first_action(
                match host {
                    Some(h) => Some(h@),
                    None => None,
                },
                rule.gateway_suffix@,
                rule.domain_suffix@,
            ),
    {
        match host {
            Some(hostname) => {
                let name = rule.normalize(hostname);
                (RequestPipeline { state: PipelineState::ResolvingName }, Action::ResolveName(name))
            },
            None => {
                let error = GatewayError::MissingHost;
                let response = HttpResponse::for_error(&error);
                (
                    RequestPipeline {
                        state: PipelineState::Failed(Stage::ResolvingName, error),
                    },
                    Action::Respond(response),
                )
            },
        }
    }

    /// Where the request stands.
    pub fn state(&self) -> (state: &PipelineState)
        ensures
            *state == self@,
    {
        &self.state
    }

    /// Whether the request is over.
    pub fn is_over(&self) -> (over: bool)
        ensures
            over == is_final(self@),
    {
        match &self.state {
            PipelineState::Responding => true,
            PipelineState::Failed(_, _) => true,
            _ => false,
        }
    }

    /// Ends the request with a failure.
    fn fail(&mut self, stage: Stage, error: GatewayError) -> (action: Action)
        ensures
            final(self)@ == PipelineState::Failed(stage, error),
            action@ == ActionView::Respond(failure_view(error)),
    {
        let response = HttpResponse::for_error(&error);
        self.state = PipelineState::Failed(stage, error);
        Action::Respond(response)
    }

    /// Takes the outcome of the outside work that the last action asked for
    /// and says what to do next.
    ///
    /// A stage that went well leads to the next one. A stage that failed
    /// ends the request: the response for the failure is the only action
    /// left. An event that does not belong to the stage, and any event once
    /// the request is over, changes nothing.
    pub fn advance(&mut self, event: Event) -> (action: Action)
        ensures
            final(self)@ == next_state(old(self)@, event),
            action@ == next_action(old(self)@, event),
    {
        match (&self.state, event) {
            (PipelineState::ResolvingName, Event::NameResolutionFailed) => self.fail(
                Stage::ResolvingName,
                GatewayError::NameResolutionFailed,
            ),
            (PipelineState::ResolvingName, Event::NameResolved { address, content_hash }) => {
                match assemble(address.as_slice(), content_hash.as_slice()) {
                    Ok(id) => {
                        self.state = PipelineState::FetchingContent;
                        Action::FetchContent(id)
                    },
                    Err(error) => self.fail(Stage::ResolvingName, error),
                }
            },
            (PipelineState::FetchingContent, Event::ContentFetchFailed) => self.fail(
                Stage::FetchingContent,
                GatewayError::ContentFetchFailed,
            ),
            (PipelineState::FetchingContent, Event::ContentFetched(bytes)) => {
                self.state = PipelineState::Loading;
                Action::LoadModule(bytes)
            },
            (PipelineState::Loading, Event::ModuleLoaded) => {
                self.state = PipelineState::Executing;
                Action::ExecuteGuest
            },
            (PipelineState::Loading, Event::ModuleLoadFailed(error)) => {
                let recorded = match error {
                    GatewayError::ModuleParseFailed => error,
                    GatewayError::UnresolvedImport(_) => error,
                    GatewayError::ImportTypeMismatch => error,
                    GatewayError::MissingMemoryExport => error,
                    GatewayError::MissingOrMalformedEntryPoint => error,
                    _ => GatewayError::ModuleParseFailed,
                };
                self.fail(Stage::Loading, recorded)
            },
            (PipelineState::Executing, Event::GuestFailed) => self.fail(
                Stage::Executing,
                GatewayError::GuestExecutionFailed,
            ),
            (PipelineState::Executing, Event::GuestTimedOut) => self.fail(
                Stage::Executing,
                GatewayError::GuestExecutionTimedOut,
            ),
            (PipelineState::Executing, Event::GuestReturned(response)) => {
                match response.finish() {
                    Ok(http) => {
                        self.state = PipelineState::Responding;
                        Action::Respond(http)
                    },
                    Err(error) => self.fail(Stage::Executing, error),
                }
            },
            _ => Action::Nothing,
        }
    }
}

/// Once a request is over, no event changes its state or asks for anything.
pub proof fn lemma_final_state_is_absorbing(state: PipelineState, event: Event)
    requires
        is_final(state),
    ensures
        next_state(state, event) == state,
        next_action(state, event) == ActionView::Nothing,
{
}

/// A failure ends the request in the stage in which it happened and asks
/// for the response that belongs to the failure.
pub proof fn lemma_failure_ends_the_request(state: PipelineState, event: Event)
    requires
        failure_of(state, event) is Some,
    ensures
        !is_final(state),
        ({
            let failure = failure_of(state, event)->0;
            &&& next_state(state, event) == PipelineState::Failed(failure.0, failure.1)
            &&& next_action(state, event) == ActionView::Respond(failure_view(failure.1))
            &&& failure_view(failure.1).status == Some(crate::error::status_of(failure.1))
        }),
{
}

/// Each piece of outside work is asked for in its own stage only: content is
/// fetched after the name was resolved, a module is loaded after its bytes
/// were fetched, and the guest is run after the module was loaded.
pub proof fn lemma_work_follows_the_stages(state: PipelineState, event: Event)
    ensures
        next_action(state, event) is FetchContent ==> state is ResolvingName && next_state(
            state,
            event,
        ) is FetchingContent,
        next_action(state, event) is LoadModule ==> state is FetchingContent && next_state(
            state,
            event,
        ) is Loading,
        next_action(state, event) is ExecuteGuest ==> state is Loading && next_state(
            state,
            event,
        ) is Executing,
        next_action(state, event) is Respond ==> !is_final(state) && is_final(
            next_state(state, event),
        ),
        next_action(state, event) !is ResolveName,
{
}

/// A run taken one event further.
pub proof fn lemma_state_after_step(state: PipelineState, events: Seq<Event>, i: int)
    requires
        0 <= i < events.len(),
    ensures
        state_after(state, events.take(i + 1)) == next_state(
            state_after(state, events.take(i)),
            events[i],
        ),
{
    let longer = events.take(i + 1);
    assert(longer.drop_last() =~= events.take(i));
    assert(longer.last() == events[i]);
}

/// A request that is over stays as it is through any run of events, and no
/// event of the run asks for anything.
pub proof fn lemma_over_stays_over(state: PipelineState, events: Seq<Event>)
    requires
        is_final(state),
    ensures
        state_after(state, events) == state,
        forall|i: int| 0 <= i < events.len() ==> action_at(state, events, i) == ActionView::Nothing,
    decreases events.len(),
{
    if events.len() > 0 {
        lemma_over_stays_over(state, events.drop_last());
        assert forall|i: int| 0 <= i < events.len() implies action_at(state, events, i)
            == ActionView::Nothing by {
            lemma_over_stays_over(state, events.take(i));
        }
    }
}

/// The first failure of a run stands: the run ends in that failure, and
/// after the response for it no event asks for anything. In particular no
/// module is loaded and no guest is run once an earlier stage has failed.
pub proof fn lemma_first_failure_stands(state: PipelineState, events: Seq<Event>, i: int)
    requires
        0 <= i < events.len(),
        failure_of(state_after(state, events.take(i)), events[i]) is Some,
    ensures
        ({
            let failure = failure_of(state_after(state, events.take(i)), events[i])->0;
            &&& state_after(state, events) == PipelineState::Failed(failure.0, failure.1)
            &&& action_at(state, events, i) == ActionView::Respond(failure_view(failure.1))
            &&& forall|j: int|
                i < j < events.len() ==> action_at(state, events, j) == ActionView::Nothing
        }),
{
    let failure = failure_of(state_after(state, events.take(i)), events[i])->0;
    let failed = PipelineState::Failed(failure.0, failure.1);
    lemma_state_after_step(state, events, i);
    assert forall|j: int| i < j <= events.len() implies state_after(state, events.take(j))
        == failed by {
        lemma_failed_prefix(state, events, i, j);
    }
    assert(events.take(events.len() as int) =~= events);
}

/// Every longer prefix of a run ends in the failure of a shorter one.
proof fn lemma_failed_prefix(state: PipelineState, events: Seq<Event>, i: int, j: int)
    requires
        0 <= i < j <= events.len(),
        state_after(state, events.take(i + 1)) is Failed,
    ensures
        state_after(state, events.take(j)) == state_after(state, events.take(i + 1)),
    decreases j - i,
{
    if j > i + 1 {
        lemma_failed_prefix(state, events, i, j - 1);
        lemma_state_after_step(state, events, j - 1);
    }
}

/// When the content store does not deliver, the request ends in the
/// fetching stage and is answered with the status of a failed fetch, 502;
/// whatever is reported afterwards, no module is loaded and no guest is run.
pub proof fn lemma_fetch_failure_short_circuits(later: Seq<Event>)
    ensures
        next_state(PipelineState::FetchingContent, Event::ContentFetchFailed)
            == PipelineState::Failed(Stage::FetchingContent, GatewayError::ContentFetchFailed),
        next_action(PipelineState::FetchingContent, Event::ContentFetchFailed)
            == ActionView::Respond(failure_view(GatewayError::ContentFetchFailed)),
        failure_view(GatewayError::ContentFetchFailed).status == Some(502u16),
        state_after(
            next_state(PipelineState::FetchingContent, Event::ContentFetchFailed),
            later,
        ) == PipelineState::Failed(Stage::FetchingContent, GatewayError::ContentFetchFailed),
        forall|i: int|
            0 <= i < later.len() ==> action_at(
                next_state(PipelineState::FetchingContent, Event::ContentFetchFailed),
                later,
                i,
            ) == ActionView::Nothing,
{
    lemma_over_stays_over(
        PipelineState::Failed(Stage::FetchingContent, GatewayError::ContentFetchFailed),
        later,
    );
}

} // verus!
