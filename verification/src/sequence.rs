//! The order of a run: what can follow what, and what never happens.

use crate::instance::CheckStage;
use crate::models::FailureRecord;
use crate::policy::VerifierConfig;
use crate::probe::{attestation_endpoint, socket_address};
use crate::protocol::{ActionModel, EventModel};
use crate::resolver::ip_endpoint;
use crate::types::JobModel;
use crate::workflow::{OutcomeModel, StageKind, StageModel, VerifierState, VerifierStepModel};
use vstd::prelude::*;

verus! {

impl StageKind {
    /// The place of a stage in the order of a run.
    pub open spec fn rank(self) -> nat {
        match self {
            StageKind::Delaying => 0,
            StageKind::ResolvingAddress => 1,
            StageKind::ProbingTransport => 2,
            StageKind::ProbingAttestation => 3,
            StageKind::Concluded => 4,
        }
    }
}

impl OutcomeModel {
    /// The rank of the stage that decided the outcome.
    pub open spec fn decided_at(self) -> nat {
        match self {
            OutcomeModel::AddressResolutionFailed { .. } => 1,
            OutcomeModel::TransportUnreachable => 2,
            OutcomeModel::AttestationUnreachable => 3,
            OutcomeModel::Success => 3,
        }
    }
}

impl VerifierState {
    /// How far the run has come: the rank of the stage it is in or, once it
    /// is concluded, of the stage that decided.
    pub open spec fn reach(self) -> nat {
        match self.stage {
            StageModel::Concluded(outcome) => outcome.decided_at(),
            stage => stage.kind().rank(),
        }
    }
}

/// Whether a step asks for a connection to the instance.
pub open spec fn asks_for_connection(step: VerifierStepModel) -> bool {
    step matches VerifierStepModel::Perform(ActionModel::Connect { .. })
}

/// Whether a step asks for the attestation document.
pub open spec fn asks_for_attestation(step: VerifierStepModel) -> bool {
    step matches VerifierStepModel::Perform(ActionModel::FetchAttestation { .. })
}

/// One event moves a run forward or not at all. It keeps the job and the
/// configuration, keeps the address once there is one, and never undoes a
/// conclusion.
pub proof fn law_one_step_forward(state: VerifierState, event: EventModel)
    requires
        state.wf(),
    ensures
        ({
            let next = state.advance(event);
            &&& next.wf()
            &&& next.job == state.job
            &&& next.config == state.config
            &&& next.stage.kind().rank() >= state.stage.kind().rank()
            &&& next.reach() >= state.reach()
            &&& state.address.len() > 0 ==> next.address == state.address
            &&& state.stage is Concluded ==> next == state
        }),
{
}

/// A run is the run of its first events, continued with the rest.
pub proof fn lemma_run_in_two_parts(
    state: VerifierState,
    first: Seq<EventModel>,
    rest: Seq<EventModel>,
)
    ensures
        state.run(first + rest) == state.run(first).run(rest),
    decreases rest.len(),
{
    if rest.len() == 0 {
        assert(first + rest == first);
    } else {
        lemma_run_in_two_parts(state, first, rest.drop_last());
        assert((first + rest).drop_last() == first + rest.drop_last());
        assert((first + rest).last() == rest.last());
    }
}

/// Whatever happens, a run stays a run: of the same job, under the same
/// configuration, no further back than it was.
pub proof fn law_run_goes_forward(state: VerifierState, events: Seq<EventModel>)
    requires
        state.wf(),
    ensures
        ({
            let end = state.run(events);
            &&& end.wf()
            &&& end.job == state.job
            &&& end.config == state.config
            &&& end.stage.kind().rank() >= state.stage.kind().rank()
            &&& end.reach() >= state.reach()
            &&& state.address.len() > 0 ==> end.address == state.address
            &&& state.stage is Concluded ==> end == state
        }),
    decreases events.len(),
{
    if events.len() > 0 {
        law_run_goes_forward(state, events.drop_last());
        law_one_step_forward(state.run(events.drop_last()), events.last());
    }
}

/// The stages come in order and none comes twice: of two moments of one
/// run, the later is in the same stage as the earlier or in a later one.
pub proof fn law_stages_come_in_order(
    job: JobModel,
    config: VerifierConfig,
    events: Seq<EventModel>,
    earlier: int,
    later: int,
)
    requires
        0 <= earlier <= later <= events.len(),
    ensures
        ({
            let start = VerifierState::start(job, config);
            start.run(events.take(earlier)).stage.kind().rank() <= start.run(
                events.take(later),
            ).stage.kind().rank()
        }),
{
    let start = VerifierState::start(job, config);
    let first = events.take(earlier);
    let rest = events.subrange(earlier, later);
    assert(events.take(later) == first + rest);
    lemma_run_in_two_parts(start, first, rest);
    law_run_goes_forward(start, first);
    law_run_goes_forward(start.run(first), rest);
}

/// A run has one outcome: once it is concluded, nothing changes it.
pub proof fn law_the_outcome_is_final(
    job: JobModel,
    config: VerifierConfig,
    events: Seq<EventModel>,
    moment: int,
)
    requires
        0 <= moment <= events.len(),
        VerifierState::start(job, config).run(events.take(moment)).stage is Concluded,
    ensures
        VerifierState::start(job, config).run(events) == VerifierState::start(job, config).run(
            events.take(moment),
        ),
{
    let start = VerifierState::start(job, config);
    let first = events.take(moment);
    let rest = events.skip(moment);
    assert(events == first + rest);
    lemma_run_in_two_parts(start, first, rest);
    law_run_goes_forward(start, first);
    law_run_goes_forward(start.run(first), rest);
}

/// A stage that fails is the last: a run that ends because no address was
/// found has at no moment asked for a connection or for the attestation
/// document, and one that ends because no connection could be opened has at
/// no moment asked for the attestation document.
pub proof fn law_a_failed_stage_is_the_last(
    job: JobModel,
    config: VerifierConfig,
    events: Seq<EventModel>,
    moment: int,
)
    requires
        0 <= moment <= events.len(),
    ensures
        ({
            let start = VerifierState::start(job, config);
            let step = start.run(events.take(moment)).pending();
            &&& start.run(events).outcome() matches Some(
                OutcomeModel::AddressResolutionFailed { .. },
            ) ==> !asks_for_connection(step) && !asks_for_attestation(step)
            &&& start.run(events).outcome() == Some(OutcomeModel::TransportUnreachable)
                ==> !asks_for_attestation(step)
        }),
{
    let start = VerifierState::start(job, config);
    let first = events.take(moment);
    let rest = events.skip(moment);
    assert(events == first + rest);
    lemma_run_in_two_parts(start, first, rest);
    law_run_goes_forward(start, first);
    law_run_goes_forward(start.run(first), rest);
}

/// The attestation document is asked for only after a connection was
/// opened: if a run is probing the attestation endpoint at some moment, then
/// at an earlier moment it was probing the transport and the event
/// that came then was a connection. The result is that earlier moment.
pub proof fn law_attestation_follows_a_connection(
    job: JobModel,
    config: VerifierConfig,
    events: Seq<EventModel>,
    moment: int,
) -> (connected: int)
    requires
        0 <= moment <= events.len(),
        VerifierState::start(job, config).run(events.take(moment)).stage.kind()
            == StageKind::ProbingAttestation,
    ensures
        0 <= connected < moment,
        VerifierState::start(job, config).run(events.take(connected)).stage.kind()
            == StageKind::ProbingTransport,
        events[connected] == EventModel::Connected,
    decreases moment,
{
    let start = VerifierState::start(job, config);
    if moment == 0 {
        assert(events.take(0) =~= Seq::<EventModel>::empty());
        0
    } else {
        let before = events.take(moment - 1);
        assert(events.take(moment).drop_last() == before);
        assert(events.take(moment).last() == events[moment - 1]);
        law_run_goes_forward(start, before);
        if start.run(before).stage.kind() == StageKind::ProbingAttestation {
            law_attestation_follows_a_connection(job, config, events, moment - 1)
        } else {
            moment - 1
        }
    }
}

impl VerifierState {
    /// Whether the stage the run is in is set up as the job and the
    /// configuration call for: the resolver asks the job's control plane
    /// about the job, and the probes knock on the address that was resolved,
    /// each under its own policy.
    pub open spec fn on_target(self) -> bool {
        match self.stage {
            StageModel::ResolvingAddress(resolver) => {
                &&& resolver.url == ip_endpoint(
                    self.job.control_plane_url,
                    self.job.job_id,
                    self.job.metadata.region_or_empty(),
                )
                &&& resolver.retry.policy == self.config.resolution
            },
            StageModel::Checking(check) => {
                &&& check.host == self.address
                &&& check.port == self.config.port
                &&& check.attestation == self.config.attestation
                &&& check.stage matches CheckStage::Transport(probe) ==> {
                    &&& probe.address == socket_address(self.address, self.config.port)
                    &&& probe.timeout_secs == self.config.connect_timeout_secs
                    &&& probe.retry.policy == self.config.transport
                }
                &&& check.stage matches CheckStage::Attestation(probe) ==> {
                    &&& probe.url == attestation_endpoint(self.address, self.config.port)
                    &&& probe.retry.policy == self.config.attestation
                }
            },
            _ => true,
        }
    }

    /// Whether `action` is one that the run may ask for in the stage it is
    /// in, with the target and the timing that the stage calls for.
    pub open spec fn calls_for(self, action: ActionModel) -> bool {
        match action {
            ActionModel::Sleep { secs } => match self.stage.kind() {
                StageKind::Delaying => secs == self.config.startup_delay_secs,
                StageKind::ResolvingAddress => secs == self.config.resolution.interval_secs,
                StageKind::ProbingTransport => secs == self.config.transport.interval_secs,
                StageKind::ProbingAttestation => secs == self.config.attestation.interval_secs,
                StageKind::Concluded => false,
            },
            ActionModel::PollControlPlane { url } => {
                &&& self.stage.kind() == StageKind::ResolvingAddress
                &&& url == ip_endpoint(
                    self.job.control_plane_url,
                    self.job.job_id,
                    self.job.metadata.region_or_empty(),
                )
            },
            ActionModel::Connect { address, timeout_secs } => {
                &&& self.stage.kind() == StageKind::ProbingTransport
                &&& address == socket_address(self.address, self.config.port)
                &&& timeout_secs == self.config.connect_timeout_secs
            },
            ActionModel::FetchAttestation { url } => {
                &&& self.stage.kind() == StageKind::ProbingAttestation
                &&& url == attestation_endpoint(self.address, self.config.port)
            },
        }
    }
}

/// One event leaves a run on target.
pub proof fn lemma_one_step_on_target(state: VerifierState, event: EventModel)
    requires
        state.wf(),
        state.on_target(),
    ensures
        state.advance(event).on_target(),
{
}

/// A run asks for nothing but what its stage calls for: it sleeps for the
/// startup delay or for the interval of the stage it is in, polls the
/// control plane of its job about its job, and knocks on the address that
/// was resolved, at the configured port and with the configured timeout.
pub proof fn law_a_run_stays_on_target(
    job: JobModel,
    config: VerifierConfig,
    events: Seq<EventModel>,
)
    ensures
        ({
            let state = VerifierState::start(job, config).run(events);
            &&& state.wf()
            &&& state.on_target()
            &&& state.pending() matches VerifierStepModel::Perform(action) ==> state.calls_for(
                action,
            )
        }),
    decreases events.len(),
{
    let start = VerifierState::start(job, config);
    if events.len() > 0 {
        law_a_run_stays_on_target(job, config, events.drop_last());
        law_one_step_forward(start.run(events.drop_last()), events.last());
        lemma_one_step_on_target(start.run(events.drop_last()), events.last());
    }
}

/// What is recorded of a run: nothing of a success, and of every failure the
/// job, its operator and the cause, with the address left empty exactly when
/// the failure was that no address was found.
pub proof fn law_every_failure_is_recorded(state: VerifierState, timestamp: i64)
    requires
        state.wf(),
    ensures
        state.failure(timestamp) is Some <==> (state.outcome() matches Some(outcome) && outcome
            != OutcomeModel::Success),
        state.failure(timestamp) matches Some(record) ==> {
            &&& record.job == state.job.job_id
            &&& record.operator == state.job.operator
            &&& record.timestamp == timestamp
            &&& Some(record.error) == state.outcome().unwrap().error()
            &&& record.ip.len() == 0 <==> state.outcome().unwrap() is AddressResolutionFailed
        },
{
}

/// The state of a run as it would be if its job were `job`.
pub open spec fn with_job(state: VerifierState, job: JobModel) -> VerifierState {
    VerifierState { job, ..state }
}

proof fn lemma_one_step_whatever_the_rest(state: VerifierState, other: JobModel, event: EventModel)
    requires
        state.job.job_id == other.job_id,
        state.job.control_plane_url == other.control_plane_url,
        state.job.metadata.region_or_empty() == other.metadata.region_or_empty(),
    ensures
        with_job(state, other).advance(event) == with_job(state.advance(event), other),
        with_job(state, other).pending() == state.pending(),
{
    let twin = with_job(state, other);
    assert(twin.resolver() == state.resolver());
    match state.stage {
        StageModel::Delaying => {
            if event == EventModel::Elapsed {
                assert(twin.with_resolver(twin.resolver()) == with_job(
                    state.with_resolver(state.resolver()),
                    other,
                ));
            }
        },
        StageModel::ResolvingAddress(resolver) => {
            let after = resolver.advance(event);
            assert(twin.with_resolver(after) == with_job(state.with_resolver(after), other));
        },
        StageModel::Checking(check) => {
            let after = check.advance(event);
            assert(twin.with_check(after) == with_job(state.with_check(after), other));
        },
        StageModel::Concluded(_) => {},
    }
}

/// Of a job, only its identifier, its control plane and its region have a
/// say in how its run goes: two jobs that agree in these are asked for the
/// same actions and come to the same outcome, whatever else their metadata
/// holds and whoever owns or serves them.
pub proof fn law_only_the_region_matters(
    one: JobModel,
    other: JobModel,
    config: VerifierConfig,
    events: Seq<EventModel>,
)
    requires
        one.job_id == other.job_id,
        one.control_plane_url == other.control_plane_url,
        one.metadata.region_or_empty() == other.metadata.region_or_empty(),
    ensures
        VerifierState::start(other, config).run(events) == with_job(
            VerifierState::start(one, config).run(events),
            other,
        ),
        VerifierState::start(other, config).run(events).pending() == VerifierState::start(
            one,
            config,
        ).run(events).pending(),
        VerifierState::start(other, config).run(events).outcome() == VerifierState::start(
            one,
            config,
        ).run(events).outcome(),
    decreases events.len(),
{
    let start = VerifierState::start(one, config);
    if events.len() > 0 {
        let before = events.drop_last();
        law_only_the_region_matters(one, other, config, before);
        law_run_goes_forward(start, before);
        lemma_one_step_whatever_the_rest(start.run(before), other, events.last());
    }
    law_run_goes_forward(start, events);
    lemma_one_step_whatever_the_rest(start.run(events), other, EventModel::Elapsed);
}

} // verus!
