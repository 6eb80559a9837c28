//! Knocking on the instance: first its port, then its attestation endpoint.

use crate::policy::RetryPolicy;
use crate::protocol::{Action, ActionModel, Event, EventModel};
use crate::retry::{failing_rounds, lemma_failing_rounds, Phase, RetryLoop, RetryState, Turn};
use crate::text::{decimal, decimal_text};
use vstd::prelude::*;
use vstd::string::*;

verus! {

/// `host:port`.
pub open spec fn socket_address(host: Seq<char>, port: u16) -> Seq<char> {
    host + ":"@ + decimal(port as nat)
}

/// Where the instance serves its attestation document.
pub open spec fn attestation_endpoint(host: Seq<char>, port: u16) -> Seq<char> {
    "http://"@ + host + ":"@ + decimal(port as nat) + "/attestation/raw"@
}

/// Builds `host:port`.
pub fn socket_address_text(host: &str, port: u16) -> (address: String)
    ensures
        address@ == socket_address(host@, port),
{
    let number = decimal_text(port as u64);
    String::from_str(host).concat(":").concat(number.as_str())
}

/// Builds the address of the instance's attestation document.
pub fn attestation_endpoint_url(host: &str, port: u16) -> (url: String)
    ensures
        url@ == attestation_endpoint(host@, port),
{
    let number = decimal_text(port as u64);
    String::from_str("http://").concat(host).concat(":").concat(number.as_str()).concat(
        "/attestation/raw",
    )
}

/// Whether an answer of the attestation endpoint counts: the status is one of
/// success (200 to 299) and the body is not empty. What the body holds is not
/// looked at.
pub open spec fn attested(status: u16, body: Seq<u8>) -> bool {
    200 <= status < 300 && body.len() > 0
}

/// Decides whether an answer of the attestation endpoint counts.
pub fn is_attested(status: u16, body: &[u8]) -> (ok: bool)
    ensures
        ok == attested(status, body@),
{
    200 <= status && status < 300 && body.len() > 0
}

/// What a probe needs next, or how it ended.
#[derive(Clone, Debug, PartialEq, Eq)]
pub enum ProbeStep {
    Perform(Action),
    Finished { reachable: bool },
}

/// The mathematical content of a [`ProbeStep`].
pub ghost enum ProbeStepModel {
    Perform(ActionModel),
    Finished { reachable: bool },
}

impl View for ProbeStep {
    type V = ProbeStepModel;

    open spec fn view(&self) -> ProbeStepModel {
        match self {
            ProbeStep::Perform(action) => ProbeStepModel::Perform(action@),
            ProbeStep::Finished { reachable } => ProbeStepModel::Finished {
                reachable: *reachable,
            },
        }
    }
}

/// The mathematical state of a [`TransportProbe`].
pub ghost struct TransportState {
    /// `host:port` of the instance.
    pub address: Seq<char>,
    /// Seconds allowed to one connection attempt.
    pub timeout_secs: u64,
    pub retry: RetryState,
}

impl TransportState {
    /// The states a probe can be in.
    pub open spec fn wf(self) -> bool {
        self.retry.wf()
    }

    /// A fresh probe of `address`.
    pub open spec fn start(address: Seq<char>, timeout_secs: u64, policy: RetryPolicy) -> Self {
        TransportState { address, timeout_secs, retry: RetryState::start(policy) }
    }

    /// What an event means to the probe: a connection that was opened is a
    /// success, one that failed or took too long is not.
    pub open spec fn turn(event: EventModel) -> Turn {
        match event {
            EventModel::Elapsed => Turn::Elapsed,
            EventModel::Connected => Turn::Attempted { success: true },
            EventModel::ConnectFailed => Turn::Attempted { success: false },
            EventModel::ConnectTimedOut => Turn::Attempted { success: false },
            _ => Turn::Unrelated,
        }
    }

    /// The probe after an event. An event that answers nothing the probe asked
    /// for leaves it as it is.
    pub open spec fn advance(self, event: EventModel) -> Self {
        TransportState { retry: self.retry.step(Self::turn(event)), ..self }
    }

    /// The probe after `events`, taken in order.
    pub open spec fn run(self, events: Seq<EventModel>) -> Self
        decreases events.len(),
    {
        if events.len() == 0 {
            self
        } else {
            self.run(events.drop_last()).advance(events.last())
        }
    }

    /// What the probe needs next, or how it ended.
    pub open spec fn pending(self) -> ProbeStepModel {
        match self.retry.phase {
            Phase::Attempting => ProbeStepModel::Perform(
                ActionModel::Connect { address: self.address, timeout_secs: self.timeout_secs },
            ),
            Phase::Waiting => ProbeStepModel::Perform(
                ActionModel::Sleep { secs: self.retry.policy.interval_secs },
            ),
            Phase::Succeeded => ProbeStepModel::Finished { reachable: true },
            Phase::Exhausted => ProbeStepModel::Finished { reachable: false },
        }
    }

    /// Whether the probe is over.
    pub open spec fn finished(self) -> bool {
        self.retry.finished()
    }
}

/// Checks that a TCP connection to the instance can be opened.
#[derive(Debug)]
pub struct TransportProbe {
    address: String,
    timeout_secs: u64,
    retry: RetryLoop,
}

impl View for TransportProbe {
    type V = TransportState;

    closed spec fn view(&self) -> TransportState {
        TransportState {
            address: self.address@,
            timeout_secs: self.timeout_secs,
            retry: self.retry@,
        }
    }
}

impl TransportProbe {
    /// Every probe is in a state that [`TransportState::wf`] admits.
    #[verifier::type_invariant]
    pub open spec fn inv(self) -> bool {
        self@.wf()
    }

    /// A probe of `port` on `host`.
    pub fn new(host: &str, port: u16, timeout_secs: u64, policy: RetryPolicy) -> (fresh: Self)
        ensures
            fresh@ == TransportState::start(socket_address(host@, port), timeout_secs, policy),
    {
        TransportProbe {
            address: socket_address_text(host, port),
            timeout_secs,
            retry: RetryLoop::new(policy),
        }
    }

    /// The number of connection attempts that have ended.
    pub fn attempts(&self) -> (n: u32)
        ensures
            n == self@.retry.attempts,
    {
        self.retry.attempts()
    }

    /// Whether the probe is over.
    pub fn finished(&self) -> (over: bool)
        ensures
            over == self@.finished(),
    {
        self.retry.finished()
    }

    /// What the probe needs next, or how it ended.
    pub fn pending(&self) -> (step: ProbeStep)
        ensures
            step@ == self@.pending(),
    {
        match self.retry.phase() {
            Phase::Attempting => ProbeStep::Perform(
                Action::Connect { address: self.address.clone(), timeout_secs: self.timeout_secs },
            ),
            Phase::Waiting => ProbeStep::Perform(
                Action::Sleep { secs: self.retry.policy().interval_secs },
            ),
            Phase::Succeeded => ProbeStep::Finished { reachable: true },
            Phase::Exhausted => ProbeStep::Finished { reachable: false },
        }
    }

    /// Takes in an event.
    pub fn advance(self, event: Event) -> (next: Self)
        ensures
            next@ == self@.advance(event@),
    {
        proof {
            use_type_invariant(&self);
        }
        let turn = match event {
            Event::Elapsed => Turn::Elapsed,
            Event::Connected => Turn::Attempted { success: true },
            Event::ConnectFailed => Turn::Attempted { success: false },
            Event::ConnectTimedOut => Turn::Attempted { success: false },
            _ => Turn::Unrelated,
        };
        TransportProbe {
            address: self.address,
            timeout_secs: self.timeout_secs,
            retry: self.retry.step(turn),
        }
    }
}

/// The mathematical state of an [`AttestationProbe`].
pub ghost struct AttestationState {
    /// Where the attestation document is fetched.
    pub url: Seq<char>,
    pub retry: RetryState,
}

impl AttestationState {
    /// The states a probe can be in.
    pub open spec fn wf(self) -> bool {
        self.retry.wf()
    }

    /// A fresh probe of the document at `url`.
    pub open spec fn start(url: Seq<char>, policy: RetryPolicy) -> Self {
        AttestationState { url, retry: RetryState::start(policy) }
    }

    /// What an event means to the probe: an answer counts as [`attested`]
    /// says, and no answer is a failed attempt.
    pub open spec fn turn(event: EventModel) -> Turn {
        match event {
            EventModel::Elapsed => Turn::Elapsed,
            EventModel::AttestationFailed => Turn::Attempted { success: false },
            EventModel::AttestationAnswered { status, document } => Turn::Attempted {
                success: attested(status, document),
            },
            _ => Turn::Unrelated,
        }
    }

    /// The probe after an event. An event that answers nothing the probe asked
    /// for leaves it as it is.
    pub open spec fn advance(self, event: EventModel) -> Self {
        AttestationState { retry: self.retry.step(Self::turn(event)), ..self }
    }

    /// The probe after `events`, taken in order.
    pub open spec fn run(self, events: Seq<EventModel>) -> Self
        decreases events.len(),
    {
        if events.len() == 0 {
            self
        } else {
            self.run(events.drop_last()).advance(events.last())
        }
    }

    /// What the probe needs next, or how it ended.
    pub open spec fn pending(self) -> ProbeStepModel {
        match self.retry.phase {
            Phase::Attempting => ProbeStepModel::Perform(
                ActionModel::FetchAttestation { url: self.url },
            ),
            Phase::Waiting => ProbeStepModel::Perform(
                ActionModel::Sleep { secs: self.retry.policy.interval_secs },
            ),
            Phase::Succeeded => ProbeStepModel::Finished { reachable: true },
            Phase::Exhausted => ProbeStepModel::Finished { reachable: false },
        }
    }

    /// Whether the probe is over.
    pub open spec fn finished(self) -> bool {
        self.retry.finished()
    }
}

/// Checks that the instance serves an attestation document.
#[derive(Debug)]
pub struct AttestationProbe {
    url: String,
    retry: RetryLoop,
}

impl View for AttestationProbe {
    type V = AttestationState;

    closed spec fn view(&self) -> AttestationState {
        AttestationState { url: self.url@, retry: self.retry@ }
    }
}

impl AttestationProbe {
    /// Every probe is in a state that [`AttestationState::wf`] admits.
    #[verifier::type_invariant]
    pub open spec fn inv(self) -> bool {
        self@.wf()
    }

    /// A probe of the attestation endpoint at `port` on `host`.
    pub fn new(host: &str, port: u16, policy: RetryPolicy) -> (fresh: Self)
        ensures
            fresh@ == AttestationState::start(attestation_endpoint(host@, port), policy),
    {
        AttestationProbe {
            url: attestation_endpoint_url(host, port),
            retry: RetryLoop::new(policy),
        }
    }

    /// The number of fetches that have ended.
    pub fn attempts(&self) -> (n: u32)
        ensures
            n == self@.retry.attempts,
    {
        self.retry.attempts()
    }

    /// Whether the probe is over.
    pub fn finished(&self) -> (over: bool)
        ensures
            over == self@.finished(),
    {
        self.retry.finished()
    }

    /// What the probe needs next, or how it ended.
    pub fn pending(&self) -> (step: ProbeStep)
        ensures
            step@ == self@.pending(),
    {
        match self.retry.phase() {
            Phase::Attempting => ProbeStep::Perform(
                Action::FetchAttestation { url: self.url.clone() },
            ),
            Phase::Waiting => ProbeStep::Perform(
                Action::Sleep { secs: self.retry.policy().interval_secs },
            ),
            Phase::Succeeded => ProbeStep::Finished { reachable: true },
            Phase::Exhausted => ProbeStep::Finished { reachable: false },
        }
    }

    /// Takes in an event.
    pub fn advance(self, event: Event) -> (next: Self)
        ensures
            next@ == self@.advance(event@),
    {
        proof {
            use_type_invariant(&self);
        }
        let turn = match event {
            Event::Elapsed => Turn::Elapsed,
            Event::AttestationFailed => Turn::Attempted { success: false },
            Event::AttestationAnswered { status, document } => Turn::Attempted {
                success: is_attested(status, document.as_slice()),
            },
            _ => Turn::Unrelated,
        };
        AttestationProbe { url: self.url, retry: self.retry.step(turn) }
    }
}

/// Rounds in which no connection is opened: at every even place an attempt
/// that failed or took too long, at every odd place the end of the wait that
/// follows it.
pub open spec fn refused_rounds(events: Seq<EventModel>) -> bool {
    forall|j: int|
        0 <= j < events.len() ==> if j % 2 == 0 {
            #[trigger] events[j] == EventModel::ConnectFailed || events[j]
                == EventModel::ConnectTimedOut
        } else {
            events[j] == EventModel::Elapsed
        }
}

/// The retry loop inside a transport probe sees of each event what
/// [`TransportState::turn`] says; the target never changes.
pub proof fn lemma_transport_follows_its_loop(state: TransportState, events: Seq<EventModel>)
    requires
        state.wf(),
    ensures
        state.run(events).wf(),
        state.run(events).address == state.address,
        state.run(events).timeout_secs == state.timeout_secs,
        state.run(events).retry == state.retry.run(
            events.map_values(|e: EventModel| TransportState::turn(e)),
        ),
    decreases events.len(),
{
    let turns = events.map_values(|e: EventModel| TransportState::turn(e));
    if events.len() > 0 {
        lemma_transport_follows_its_loop(state, events.drop_last());
        assert(turns.drop_last() == events.drop_last().map_values(
            |e: EventModel| TransportState::turn(e),
        ));
        assert(turns.last() == TransportState::turn(events.last()));
    }
}

proof fn lemma_refused_rounds_fail(events: Seq<EventModel>)
    requires
        refused_rounds(events),
    ensures
        failing_rounds(events.map_values(|e: EventModel| TransportState::turn(e))),
{
    let turns = events.map_values(|e: EventModel| TransportState::turn(e));
    assert forall|j: int| 0 <= j < turns.len() implies #[trigger] turns[j] == if j % 2 == 0 {
        Turn::Attempted { success: false }
    } else {
        Turn::Elapsed
    } by {
        assert(turns[j] == TransportState::turn(events[j]));
    }
}

/// The first connection that is opened ends the probe, with success: after
/// `k` attempts that failed, each followed by its wait, a connection on
/// attempt `k + 1` settles it, provided the policy allows that many.
pub proof fn law_reachable_at_the_first_connection(
    address: Seq<char>,
    timeout_secs: u64,
    policy: RetryPolicy,
    refused: Seq<EventModel>,
    k: nat,
)
    requires
        refused_rounds(refused),
        refused.len() == 2 * k,
        k < policy.max_attempts,
    ensures
        ({
            let end = TransportState::start(address, timeout_secs, policy).run(
                refused.push(EventModel::Connected),
            );
            &&& end.retry.attempts == k + 1
            &&& end.pending() == ProbeStepModel::Finished { reachable: true }
        }),
{
    let start = TransportState::start(address, timeout_secs, policy);
    lemma_transport_follows_its_loop(start, refused);
    lemma_refused_rounds_fail(refused);
    lemma_failing_rounds(policy, refused.map_values(|e: EventModel| TransportState::turn(e)));
    assert(refused.push(EventModel::Connected).drop_last() == refused);
}

/// Without a connection the probe gives up after exactly as many attempts as
/// the policy allows, and not before: it asks for a connection, then for a
/// wait of the policy's interval, in turn, and reports the instance
/// unreachable when the wait after the last allowed attempt is over.
pub proof fn law_unreachable_after_the_last_attempt(
    address: Seq<char>,
    timeout_secs: u64,
    policy: RetryPolicy,
    events: Seq<EventModel>,
)
    requires
        refused_rounds(events),
        events.len() <= 2 * policy.max_attempts,
    ensures
        ({
            let state = TransportState::start(address, timeout_secs, policy).run(events);
            &&& state.retry.attempts == (events.len() + 1) / 2
            &&& state.pending() == if events.len() == 2 * policy.max_attempts {
                ProbeStepModel::Finished { reachable: false }
            } else if events.len() % 2 == 0 {
                ProbeStepModel::Perform(ActionModel::Connect { address, timeout_secs })
            } else {
                ProbeStepModel::Perform(ActionModel::Sleep { secs: policy.interval_secs })
            }
        }),
{
    let start = TransportState::start(address, timeout_secs, policy);
    lemma_transport_follows_its_loop(start, events);
    lemma_refused_rounds_fail(events);
    lemma_failing_rounds(policy, events.map_values(|e: EventModel| TransportState::turn(e)));
}

/// Rounds in which no attestation document comes: at every even place a
/// fetch that failed or whose answer does not count, at every odd place the
/// end of the wait that follows it.
pub open spec fn unattested_rounds(events: Seq<EventModel>) -> bool {
    forall|j: int|
        0 <= j < events.len() ==> if j % 2 == 0 {
            match #[trigger] events[j] {
                EventModel::AttestationFailed => true,
                EventModel::AttestationAnswered { status, document } => !attested(
                    status,
                    document,
                ),
                _ => false,
            }
        } else {
            events[j] == EventModel::Elapsed
        }
}

/// The retry loop inside an attestation probe sees of each event what
/// [`AttestationState::turn`] says; the target never changes.
pub proof fn lemma_attestation_follows_its_loop(state: AttestationState, events: Seq<EventModel>)
    requires
        state.wf(),
    ensures
        state.run(events).wf(),
        state.run(events).url == state.url,
        state.run(events).retry == state.retry.run(
            events.map_values(|e: EventModel| AttestationState::turn(e)),
        ),
    decreases events.len(),
{
    let turns = events.map_values(|e: EventModel| AttestationState::turn(e));
    if events.len() > 0 {
        lemma_attestation_follows_its_loop(state, events.drop_last());
        assert(turns.drop_last() == events.drop_last().map_values(
            |e: EventModel| AttestationState::turn(e),
        ));
        assert(turns.last() == AttestationState::turn(events.last()));
    }
}

proof fn lemma_unattested_rounds_fail(events: Seq<EventModel>)
    requires
        unattested_rounds(events),
    ensures
        failing_rounds(events.map_values(|e: EventModel| AttestationState::turn(e))),
{
    let turns = events.map_values(|e: EventModel| AttestationState::turn(e));
    assert forall|j: int| 0 <= j < turns.len() implies #[trigger] turns[j] == if j % 2 == 0 {
        Turn::Attempted { success: false }
    } else {
        Turn::Elapsed
    } by {
        assert(turns[j] == AttestationState::turn(events[j]));
    }
}

/// The first answer that counts ends the probe, with success: after `k`
/// fetches that gave nothing, each followed by its wait, an answer with a
/// status of success and a body that is not empty on fetch `k + 1` settles
/// it, provided the policy allows that many.
pub proof fn law_attested_by_the_first_document(
    url: Seq<char>,
    policy: RetryPolicy,
    unattested: Seq<EventModel>,
    k: nat,
    status: u16,
    document: Seq<u8>,
)
    requires
        unattested_rounds(unattested),
        unattested.len() == 2 * k,
        k < policy.max_attempts,
        attested(status, document),
    ensures
        ({
            let end = AttestationState::start(url, policy).run(
                unattested.push(EventModel::AttestationAnswered { status, document }),
            );
            &&& end.retry.attempts == k + 1
            &&& end.pending() == ProbeStepModel::Finished { reachable: true }
        }),
{
    let start = AttestationState::start(url, policy);
    let answer = EventModel::AttestationAnswered { status, document };
    lemma_attestation_follows_its_loop(start, unattested);
    lemma_unattested_rounds_fail(unattested);
    lemma_failing_rounds(policy, unattested.map_values(|e: EventModel| AttestationState::turn(e)));
    assert(unattested.push(answer).drop_last() == unattested);
}

/// Without a document the probe gives up after exactly as many fetches as
/// the policy allows, and not before: it asks for a fetch, then for a wait
/// of the policy's interval, in turn, and reports the endpoint unreachable
/// when the wait after the last allowed fetch is over.
pub proof fn law_unattested_after_the_last_fetch(
    url: Seq<char>,
    policy: RetryPolicy,
    events: Seq<EventModel>,
)
    requires
        unattested_rounds(events),
        events.len() <= 2 * policy.max_attempts,
    ensures
        ({
            let state = AttestationState::start(url, policy).run(events);
            &&& state.retry.attempts == (events.len() + 1) / 2
            &&& state.pending() == if events.len() == 2 * policy.max_attempts {
                ProbeStepModel::Finished { reachable: false }
            } else if events.len() % 2 == 0 {
                ProbeStepModel::Perform(ActionModel::FetchAttestation { url })
            } else {
                ProbeStepModel::Perform(ActionModel::Sleep { secs: policy.interval_secs })
            }
        }),
{
    let start = AttestationState::start(url, policy);
    lemma_attestation_follows_its_loop(start, events);
    lemma_unattested_rounds_fail(events);
    lemma_failing_rounds(policy, events.map_values(|e: EventModel| AttestationState::turn(e)));
}

} // verus!
