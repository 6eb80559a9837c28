//! Asking the control plane for the address of a job's instance.
//!
//! The control plane is polled at `{base}/ip?id={job}&region={region}` until
//! it answers with a JSON object whose member `ip` is a non-empty string.
//! Anything else (no answer, an answer that is no JSON, an answer without
//! an address) uses up one attempt and is followed by the policy's wait.

use crate::json::{json_string_member, read_string_member};
use crate::policy::RetryPolicy;
use crate::protocol::{Action, ActionModel, Event, EventModel};
use crate::retry::{Phase, RetryLoop, RetryState, Turn};
use crate::text::{decimal, decimal_text};
use vstd::prelude::*;
use vstd::string::*;

verus! {

/// The address of the control plane's lookup for one job.
pub open spec fn ip_endpoint(base: Seq<char>, job_id: Seq<char>, region: Seq<char>) -> Seq<
    char,
> {
    base + "/ip?id="@ + job_id + "&region="@ + region
}

/// Builds the address of the control plane's lookup for one job. The parts
/// are joined as they are, without escaping.
pub fn ip_endpoint_url(base: &str, job_id: &str, region: &str) -> (url: String)
    ensures
        url@ == ip_endpoint(base@, job_id@, region@),
{
    String::from_str(base).concat("/ip?id=").concat(job_id).concat("&region=").concat(region)
}

/// What one poll of the control plane gave.
#[derive(Clone, Debug, PartialEq, Eq)]
pub enum PollReply {
    /// No answer.
    Unreachable,
    /// An answer that is not JSON.
    Undecodable { body: String },
    /// A JSON answer without an address: no string member `ip`, or an empty
    /// one.
    Unassigned { body: String },
    /// A JSON answer with an address.
    Assigned { body: String, address: String },
}

/// The mathematical content of a [`PollReply`].
pub ghost enum PollReplyModel {
    Unreachable,
    Undecodable { body: Seq<char> },
    Unassigned { body: Seq<char> },
    Assigned { body: Seq<char>, address: Seq<char> },
}

impl View for PollReply {
    type V = PollReplyModel;

    open spec fn view(&self) -> PollReplyModel {
        match self {
            PollReply::Unreachable => PollReplyModel::Unreachable,
            PollReply::Undecodable { body } => PollReplyModel::Undecodable { body: body@ },
            PollReply::Unassigned { body } => PollReplyModel::Unassigned { body: body@ },
            PollReply::Assigned { body, address } => PollReplyModel::Assigned {
                body: body@,
                address: address@,
            },
        }
    }
}

impl PollReplyModel {
    /// The address, if the reply carries one. An empty address is none.
    pub open spec fn address(self) -> Option<Seq<char>> {
        match self {
            PollReplyModel::Assigned { address, .. } => if address.len() == 0 {
                None
            } else {
                Some(address)
            },
            _ => None,
        }
    }

    /// The body, if there was an answer.
    pub open spec fn body(self) -> Option<Seq<char>> {
        match self {
            PollReplyModel::Unreachable => None,
            PollReplyModel::Undecodable { body } => Some(body),
            PollReplyModel::Unassigned { body } => Some(body),
            PollReplyModel::Assigned { body, .. } => Some(body),
        }
    }
}

/// The name of the member that holds the address.
pub open spec fn address_member() -> Seq<char> {
    "ip"@
}

/// Sorts an answer by what was found under the address member: `member` is
/// `None` where the body is no JSON, `Some(None)` where it is JSON without a
/// string there, `Some(Some(s))` where the string `s` is there.
pub open spec fn classify(body: Seq<char>, member: Option<Option<Seq<char>>>) -> PollReplyModel {
    match member {
        None => PollReplyModel::Undecodable { body },
        Some(None) => PollReplyModel::Unassigned { body },
        Some(Some(address)) => if address.len() == 0 {
            PollReplyModel::Unassigned { body }
        } else {
            PollReplyModel::Assigned { body, address }
        },
    }
}

/// What an answer with this body amounts to.
pub open spec fn reply_of(body: Seq<char>) -> PollReplyModel {
    classify(body, json_string_member(body, address_member()))
}

/// Sorts an answer whose address member has already been looked up.
pub fn classify_reply(body: String, member: Option<Option<String>>) -> (reply: PollReply)
    ensures
        reply@ == classify(body@, member.deep_view()),
{
    match member {
        None => PollReply::Undecodable { body },
        Some(None) => PollReply::Unassigned { body },
        Some(Some(address)) => {
            if address.as_str().is_empty() {
                PollReply::Unassigned { body }
            } else {
                PollReply::Assigned { body, address }
            }
        },
    }
}

/// Decodes an answer of the control plane.
pub fn read_reply(body: String) -> (reply: PollReply)
    ensures
        reply@ == reply_of(body@),
{
    let member = read_string_member(body.as_str(), "ip");
    classify_reply(body, member)
}

/// Why no address was found: every attempt was used.
#[derive(Clone, Debug, PartialEq, Eq)]
pub struct ResolutionError {
    /// The attempts that were made.
    pub attempts: u32,
    /// The body of the last answer that was received, empty if there was
    /// none.
    pub last_response: String,
}

/// The mathematical content of a [`ResolutionError`].
pub ghost struct ResolutionErrorModel {
    pub attempts: nat,
    pub last_response: Seq<char>,
}

impl ResolutionErrorModel {
    /// The error in words.
    pub open spec fn message(self) -> Seq<char> {
        "IP address not found after "@ + decimal(self.attempts) + " attempts. Last response: "@
            + self.last_response
    }
}

impl View for ResolutionError {
    type V = ResolutionErrorModel;

    open spec fn view(&self) -> ResolutionErrorModel {
        ResolutionErrorModel {
            attempts: self.attempts as nat,
            last_response: self.last_response@,
        }
    }
}

impl ResolutionError {
    /// The error in words.
    pub fn message(&self) -> (text: String)
        ensures
            text@ == self@.message(),
    {
        let count = decimal_text(self.attempts as u64);
        String::from_str("IP address not found after ").concat(count.as_str()).concat(
            " attempts. Last response: ",
        ).concat(self.last_response.as_str())
    }
}

/// What the resolver needs next, or how it ended.
#[derive(Clone, Debug, PartialEq, Eq)]
pub enum ResolverStep {
    Perform(Action),
    Resolved { address: String },
    Failed(ResolutionError),
}

/// The mathematical content of a [`ResolverStep`].
pub ghost enum ResolverStepModel {
    Perform(ActionModel),
    Resolved { address: Seq<char> },
    Failed(ResolutionErrorModel),
}

impl View for ResolverStep {
    type V = ResolverStepModel;

    open spec fn view(&self) -> ResolverStepModel {
        match self {
            ResolverStep::Perform(action) => ResolverStepModel::Perform(action@),
            ResolverStep::Resolved { address } => ResolverStepModel::Resolved {
                address: address@,
            },
            ResolverStep::Failed(error) => ResolverStepModel::Failed(error@),
        }
    }
}

/// The mathematical state of an [`AddressResolver`].
pub ghost struct ResolverState {
    /// Where the control plane is asked.
    pub url: Seq<char>,
    pub retry: RetryState,
    /// The body of the last answer received, empty if there was none.
    pub last_response: Seq<char>,
    /// The address, once it is known.
    pub address: Option<Seq<char>>,
}

impl ResolverState {
    /// The states a resolver can be in: it has succeeded exactly when it holds
    /// an address, and an address is never empty.
    pub open spec fn wf(self) -> bool {
        &&& self.retry.wf()
        &&& (self.retry.phase == Phase::Succeeded) == self.address.is_some()
        &&& self.address matches Some(address) ==> address.len() > 0
    }

    /// A fresh resolver that asks at `url`.
    pub open spec fn start(url: Seq<char>, policy: RetryPolicy) -> Self {
        ResolverState {
            url,
            retry: RetryState::start(policy),
            last_response: Seq::empty(),
            address: None,
        }
    }

    /// The poll under way gave `reply`. Ignored unless a poll is under way.
    pub open spec fn record(self, reply: PollReplyModel) -> Self {
        if self.retry.phase == Phase::Attempting {
            ResolverState {
                url: self.url,
                retry: self.retry.attempted(reply.address().is_some()),
                last_response: match reply.body() {
                    Some(body) => body,
                    None => self.last_response,
                },
                address: reply.address(),
            }
        } else {
            self
        }
    }

    /// What an event means to the retry loop.
    pub open spec fn turn(event: EventModel) -> Turn {
        match event {
            EventModel::Elapsed => Turn::Elapsed,
            EventModel::PollFailed => Turn::Attempted { success: false },
            EventModel::PollAnswered { body } => Turn::Attempted {
                success: reply_of(body).address().is_some(),
            },
            _ => Turn::Unrelated,
        }
    }

    /// The resolver after an event. Events that answer nothing the resolver
    /// asked for leave it as it is.
    pub open spec fn advance(self, event: EventModel) -> Self {
        match event {
            EventModel::Elapsed => ResolverState { retry: self.retry.elapsed(), ..self },
            EventModel::PollFailed => self.record(PollReplyModel::Unreachable),
            EventModel::PollAnswered { body } => self.record(reply_of(body)),
            _ => self,
        }
    }

    /// The resolver after `events`, taken in order.
    pub open spec fn run(self, events: Seq<EventModel>) -> Self
        decreases events.len(),
    {
        if events.len() == 0 {
            self
        } else {
            self.run(events.drop_last()).advance(events.last())
        }
    }

    /// What the resolver needs next, or how it ended.
    pub open spec fn pending(self) -> ResolverStepModel {
        match self.retry.phase {
            Phase::Attempting => ResolverStepModel::Perform(
                ActionModel::PollControlPlane { url: self.url },
            ),
            Phase::Waiting => ResolverStepModel::Perform(
                ActionModel::Sleep { secs: self.retry.policy.interval_secs },
            ),
            Phase::Succeeded => ResolverStepModel::Resolved { address: self.address.unwrap() },
            Phase::Exhausted => ResolverStepModel::Failed(
                ResolutionErrorModel {
                    attempts: self.retry.attempts,
                    last_response: self.last_response,
                },
            ),
        }
    }

    /// Whether the resolver is over.
    pub open spec fn finished(self) -> bool {
        self.retry.finished()
    }
}

/// Polls the control plane for the address of one job's instance.
#[derive(Debug)]
pub struct AddressResolver {
    url: String,
    retry: RetryLoop,
    last_response: String,
    address: Option<String>,
}

impl View for AddressResolver {
    type V = ResolverState;

    closed spec fn view(&self) -> ResolverState {
        ResolverState {
            url: self.url@,
            retry: self.retry@,
            last_response: self.last_response@,
            address: self.address.deep_view(),
        }
    }
}

impl AddressResolver {
    /// Every resolver is in a state that [`ResolverState::wf`] admits.
    #[verifier::type_invariant]
    pub open spec fn inv(self) -> bool {
        self@.wf()
    }

    /// A resolver for the job `job_id` in `region`, at the control plane
    /// whose base address is `control_plane_url`.
    pub fn new(
        control_plane_url: &str,
        job_id: &str,
        region: &str,
        policy: RetryPolicy,
    ) -> (fresh: Self)
        ensures
            fresh@ == ResolverState::start(
                ip_endpoint(control_plane_url@, job_id@, region@),
                policy,
            ),
    {
        AddressResolver {
            url: ip_endpoint_url(control_plane_url, job_id, region),
            retry: RetryLoop::new(policy),
            last_response: String::new(),
            address: None,
        }
    }

    /// The number of polls that have ended.
    pub fn attempts(&self) -> (n: u32)
        ensures
            n == self@.retry.attempts,
    {
        self.retry.attempts()
    }

    /// Whether the resolver is over.
    pub fn finished(&self) -> (over: bool)
        ensures
            over == self@.finished(),
    {
        self.retry.finished()
    }

    /// What the resolver needs next, or how it ended.
    pub fn pending(&self) -> (step: ResolverStep)
        ensures
            step@ == self@.pending(),
    {
        proof {
            use_type_invariant(self);
        }
        match self.retry.phase() {
            Phase::Attempting => ResolverStep::Perform(
                Action::PollControlPlane { url: self.url.clone() },
            ),
            Phase::Waiting => ResolverStep::Perform(
                Action::Sleep { secs: self.retry.policy().interval_secs },
            ),
            Phase::Succeeded => match &self.address {
                Some(address) => ResolverStep::Resolved { address: address.clone() },
                None => vstd::pervasive::unreached(),
            },
            Phase::Exhausted => ResolverStep::Failed(
                ResolutionError {
                    attempts: self.retry.attempts(),
                    last_response: self.last_response.clone(),
                },
            ),
        }
    }

    /// Takes in what the poll under way gave.
    pub fn record(self, reply: PollReply) -> (next: Self)
        ensures
            next@ == self@.record(reply@),
    {
        proof {
            use_type_invariant(&self);
        }
        match self.retry.phase() {
            Phase::Attempting => {
                let (last_response, address) = match reply {
                    PollReply::Unreachable => (self.last_response, None),
                    PollReply::Undecodable { body } => (body, None),
                    PollReply::Unassigned { body } => (body, None),
                    PollReply::Assigned { body, address } => {
                        if address.as_str().is_empty() {
                            (body, None)
                        } else {
                            (body, Some(address))
                        }
                    },
                };
                AddressResolver {
                    url: self.url,
                    retry: self.retry.attempted(address.is_some()),
                    last_response,
                    address,
                }
            },
            _ => self,
        }
    }

    /// Takes in an event.
    pub fn advance(self, event: Event) -> (next: Self)
        ensures
            next@ == self@.advance(event@),
    {
        proof {
            use_type_invariant(&self);
        }
        match event {
            Event::Elapsed => AddressResolver {
                url: self.url,
                retry: self.retry.elapsed(),
                last_response: self.last_response,
                address: self.address,
            },
            Event::PollFailed => self.record(PollReply::Unreachable),
            Event::PollAnswered { body } => {
                let reply = read_reply(body);
                self.record(reply)
            },
            _ => self,
        }
    }
}

/// What a poll gave, if the event is the end of a poll.
pub open spec fn poll_reply(event: EventModel) -> Option<PollReplyModel> {
    match event {
        EventModel::PollFailed => Some(PollReplyModel::Unreachable),
        EventModel::PollAnswered { body } => Some(reply_of(body)),
        _ => None,
    }
}

/// Rounds in which no address comes: at every even place a poll that ends
/// without one, at every odd place the end of the wait that follows it.
pub open spec fn unanswered_rounds(events: Seq<EventModel>) -> bool {
    forall|j: int|
        0 <= j < events.len() ==> if j % 2 == 0 {
            poll_reply(#[trigger] events[j]) matches Some(reply) && reply.address().is_none()
        } else {
            events[j] == EventModel::Elapsed
        }
}

/// The body of the last answer among `events`, empty if there is none.
pub open spec fn last_answer(events: Seq<EventModel>) -> Seq<char>
    decreases events.len(),
{
    if events.len() == 0 {
        Seq::empty()
    } else {
        match events.last() {
            EventModel::PollAnswered { body } => body,
            _ => last_answer(events.drop_last()),
        }
    }
}

/// The retry loop inside a resolver sees of each event what
/// [`ResolverState::turn`] says, and nothing else moves it.
pub proof fn lemma_resolver_follows_its_loop(state: ResolverState, events: Seq<EventModel>)
    requires
        state.wf(),
    ensures
        state.run(events).wf(),
        state.run(events).url == state.url,
        state.run(events).retry == state.retry.run(
            events.map_values(|e: EventModel| ResolverState::turn(e)),
        ),
    decreases events.len(),
{
    let turns = events.map_values(|e: EventModel| ResolverState::turn(e));
    if events.len() > 0 {
        lemma_resolver_follows_its_loop(state, events.drop_last());
        assert(turns.drop_last() == events.drop_last().map_values(
            |e: EventModel| ResolverState::turn(e),
        ));
        assert(turns.last() == ResolverState::turn(events.last()));
    }
}

proof fn lemma_unanswered_rounds_fail(events: Seq<EventModel>)
    requires
        unanswered_rounds(events),
    ensures
        crate::retry::failing_rounds(events.map_values(|e: EventModel| ResolverState::turn(e))),
{
    let turns = events.map_values(|e: EventModel| ResolverState::turn(e));
    assert forall|j: int| 0 <= j < turns.len() implies #[trigger] turns[j] == if j % 2 == 0 {
        Turn::Attempted { success: false }
    } else {
        Turn::Elapsed
    } by {
        assert(turns[j] == ResolverState::turn(events[j]));
    }
}

proof fn lemma_unanswered_prefix(events: Seq<EventModel>)
    requires
        unanswered_rounds(events),
        events.len() > 0,
    ensures
        unanswered_rounds(events.drop_last()),
{
    let before = events.drop_last();
    assert forall|j: int| 0 <= j < before.len() implies if j % 2 == 0 {
        poll_reply(#[trigger] before[j]) matches Some(reply) && reply.address().is_none()
    } else {
        before[j] == EventModel::Elapsed
    } by {
        assert(before[j] == events[j]);
    }
}

proof fn lemma_unanswered_rounds_keep_the_last_answer(
    url: Seq<char>,
    policy: RetryPolicy,
    events: Seq<EventModel>,
)
    requires
        unanswered_rounds(events),
        events.len() <= 2 * policy.max_attempts,
    ensures
        ResolverState::start(url, policy).run(events).last_response == last_answer(events),
        ResolverState::start(url, policy).run(events).address.is_none(),
    decreases events.len(),
{
    if events.len() > 0 {
        let before = events.drop_last();
        lemma_unanswered_prefix(events);
        lemma_unanswered_rounds_keep_the_last_answer(url, policy, before);
        lemma_resolver_follows_its_loop(ResolverState::start(url, policy), before);
        lemma_unanswered_rounds_fail(before);
        crate::retry::lemma_failing_rounds(
            policy,
            before.map_values(|e: EventModel| ResolverState::turn(e)),
        );
        assert(events.last() == events[events.len() - 1]);
    }
}

/// The first answer that carries an address ends the resolution, with that
/// address: after `k` polls that gave none, each followed by its wait, poll
/// `k + 1` resolves, provided the policy allows that many.
pub proof fn law_resolves_with_the_first_address(
    url: Seq<char>,
    policy: RetryPolicy,
    unanswered: Seq<EventModel>,
    k: nat,
    answer: EventModel,
    address: Seq<char>,
)
    requires
        unanswered_rounds(unanswered),
        unanswered.len() == 2 * k,
        k < policy.max_attempts,
        poll_reply(answer) matches Some(reply) && reply.address() == Some(address),
    ensures
        ({
            let end = ResolverState::start(url, policy).run(unanswered.push(answer));
            &&& end.retry.attempts == k + 1
            &&& end.pending() == ResolverStepModel::Resolved { address }
        }),
{
    let start = ResolverState::start(url, policy);
    lemma_resolver_follows_its_loop(start, unanswered);
    lemma_unanswered_rounds_fail(unanswered);
    crate::retry::lemma_failing_rounds(
        policy,
        unanswered.map_values(|e: EventModel| ResolverState::turn(e)),
    );
    assert(unanswered.push(answer).drop_last() == unanswered);
}

/// Without an address the resolution fails after exactly as many polls as
/// the policy allows, and not before: it asks for a poll, then for a wait of
/// the policy's interval, in turn, and fails when the wait after the last
/// allowed poll is over, with the body of the last answer it received.
pub proof fn law_fails_after_the_last_poll(
    url: Seq<char>,
    policy: RetryPolicy,
    events: Seq<EventModel>,
)
    requires
        unanswered_rounds(events),
        events.len() <= 2 * policy.max_attempts,
    ensures
        ({
            let state = ResolverState::start(url, policy).run(events);
            &&& state.retry.attempts == (events.len() + 1) / 2
            &&& state.pending() == if events.len() == 2 * policy.max_attempts {
                ResolverStepModel::Failed(
                    ResolutionErrorModel {
                        attempts: policy.max_attempts as nat,
                        last_response: last_answer(events),
                    },
                )
            } else if events.len() % 2 == 0 {
                ResolverStepModel::Perform(ActionModel::PollControlPlane { url })
            } else {
                ResolverStepModel::Perform(ActionModel::Sleep { secs: policy.interval_secs })
            }
        }),
{
    let start = ResolverState::start(url, policy);
    lemma_resolver_follows_its_loop(start, events);
    lemma_unanswered_rounds_fail(events);
    crate::retry::lemma_failing_rounds(
        policy,
        events.map_values(|e: EventModel| ResolverState::turn(e)),
    );
    lemma_unanswered_rounds_keep_the_last_answer(url, policy, events);
}

} // verus!
