//! How long a run can last.
//!
//! A run asks for one action at a time. As long as each action is answered
//! by an event of its kind, the run moves on, and it is concluded after a
//! number of actions, and after a time of waiting, that the configuration
//! bounds.

use crate::instance::CheckStage;
use crate::policy::VerifierConfig;
use crate::protocol::{ActionModel, EventModel};
use crate::retry::{Phase, RetryState};
use crate::types::JobModel;
use crate::workflow::{StageModel, VerifierState, VerifierStepModel};
use vstd::prelude::*;

verus! {

/// Whether `event` is something that can come of `action`.
pub open spec fn answers(event: EventModel, action: ActionModel) -> bool {
    match action {
        ActionModel::Sleep { .. } => event is Elapsed,
        ActionModel::PollControlPlane { .. } => event is PollFailed || event is PollAnswered,
        ActionModel::Connect { .. } => event is Connected || event is ConnectFailed
            || event is ConnectTimedOut,
        ActionModel::FetchAttestation { .. } => event is AttestationFailed
            || event is AttestationAnswered,
    }
}

/// The seconds that an action may take by the run's own clock: a sleep lasts
/// as long as it says, a connection attempt at most its timeout. Requests to
/// the control plane and to the instance are not timed by the run.
pub open spec fn seconds_of(action: ActionModel) -> int {
    match action {
        ActionModel::Sleep { secs } => secs as int,
        ActionModel::Connect { timeout_secs, .. } => timeout_secs as int,
        _ => 0,
    }
}

impl RetryState {
    /// The most actions the loop can still ask for.
    pub open spec fn actions_left(self) -> int {
        match self.phase {
            Phase::Attempting => 2 * (self.policy.max_attempts - self.attempts),
            Phase::Waiting => 2 * (self.policy.max_attempts - self.attempts) + 1,
            _ => 0,
        }
    }

    /// The most seconds the loop can still take, if one attempt takes at
    /// most `attempt_secs`.
    pub open spec fn seconds_left(self, attempt_secs: int) -> int {
        let rounds = self.policy.max_attempts - self.attempts;
        match self.phase {
            Phase::Attempting => rounds * (attempt_secs + self.policy.interval_secs),
            Phase::Waiting => self.policy.interval_secs + rounds * (attempt_secs
                + self.policy.interval_secs),
            _ => 0,
        }
    }
}

/// Every turn that answers what the loop asked for brings it closer to its
/// end, in actions and in seconds.
pub proof fn lemma_retry_draws_to_its_end(state: RetryState, success: bool, attempt_secs: int)
    requires
        state.wf(),
        attempt_secs >= 0,
    ensures
        state.phase == Phase::Attempting ==> {
            &&& state.attempted(success).actions_left() < state.actions_left()
            &&& state.attempted(success).seconds_left(attempt_secs) + attempt_secs
                <= state.seconds_left(attempt_secs)
        },
        state.phase == Phase::Waiting ==> {
            &&& state.elapsed().actions_left() < state.actions_left()
            &&& state.elapsed().seconds_left(attempt_secs) + state.policy.interval_secs
                <= state.seconds_left(attempt_secs)
        },
{
    let rounds = state.policy.max_attempts - state.attempts;
    let round_secs = attempt_secs + state.policy.interval_secs;
    if state.phase == Phase::Attempting {
        assert(rounds * round_secs == (rounds - 1) * round_secs + round_secs) by (nonlinear_arith)
            requires
                rounds >= 1,
        ;
        assert((rounds - 1) * round_secs >= 0) by (nonlinear_arith)
            requires
                rounds >= 1,
                round_secs >= 0,
        ;
    }
    if state.phase == Phase::Waiting {
        assert(0 * round_secs == 0) by (nonlinear_arith);
    }
}

/// What is left of a loop is never less than nothing.
pub proof fn lemma_retry_bounds_are_not_negative(state: RetryState, attempt_secs: int)
    requires
        state.wf(),
        attempt_secs >= 0,
    ensures
        state.actions_left() >= 0,
        state.seconds_left(attempt_secs) >= 0,
{
    let rounds = state.policy.max_attempts - state.attempts;
    let round_secs = attempt_secs + state.policy.interval_secs;
    assert(rounds * round_secs >= 0) by (nonlinear_arith)
        requires
            rounds >= 0,
            round_secs >= 0,
    ;
}

/// The most actions and seconds that a fresh loop can take.
pub proof fn lemma_fresh_retry_bounds(state: RetryState, attempt_secs: int)
    requires
        state == RetryState::start(state.policy),
    ensures
        state.actions_left() <= 2 * state.policy.max_attempts,
        state.seconds_left(attempt_secs) <= state.policy.max_attempts * (attempt_secs
            + state.policy.interval_secs),
{
    assert(0 * (attempt_secs + state.policy.interval_secs) == 0) by (nonlinear_arith);
}

impl VerifierConfig {
    /// The most actions that checking the instance can take.
    pub open spec fn check_actions(self) -> int {
        2 * self.transport.max_attempts + 2 * self.attestation.max_attempts
    }

    /// The most actions that a run can take: the startup delay, and for each
    /// attempt of each stage the attempt and the wait after it.
    pub open spec fn run_actions(self) -> int {
        1 + 2 * self.resolution.max_attempts + self.check_actions()
    }

    /// The most seconds that the attestation probe can take.
    pub open spec fn attestation_seconds(self) -> int {
        self.attestation.max_attempts * self.attestation.interval_secs
    }

    /// The most seconds that checking the instance can take.
    pub open spec fn check_seconds(self) -> int {
        self.transport.max_attempts * (self.connect_timeout_secs
            + self.transport.interval_secs) + self.attestation_seconds()
    }

    /// The most seconds that a run can take by its own clock: the startup
    /// delay, the interval after every poll, the timeout and the interval of
    /// every connection attempt, and the interval after every fetch.
    pub open spec fn run_seconds(self) -> int {
        self.startup_delay_secs + self.resolution.max_attempts * self.resolution.interval_secs
            + self.check_seconds()
    }
}

impl VerifierState {
    /// The most actions the run can still ask for.
    pub open spec fn actions_left(self) -> int {
        match self.stage {
            StageModel::Delaying => self.config.run_actions(),
            StageModel::ResolvingAddress(resolver) => resolver.retry.actions_left()
                + self.config.check_actions(),
            StageModel::Checking(check) => match check.stage {
                CheckStage::Transport(probe) => probe.retry.actions_left() + 2
                    * self.config.attestation.max_attempts,
                CheckStage::Attestation(probe) => probe.retry.actions_left(),
                CheckStage::Done(_) => 0,
            },
            StageModel::Concluded(_) => 0,
        }
    }

    /// The most seconds the run can still take by its own clock.
    pub open spec fn seconds_left(self) -> int {
        match self.stage {
            StageModel::Delaying => self.config.run_seconds(),
            StageModel::ResolvingAddress(resolver) => resolver.retry.seconds_left(0)
                + self.config.check_seconds(),
            StageModel::Checking(check) => match check.stage {
                CheckStage::Transport(probe) => probe.retry.seconds_left(
                    self.config.connect_timeout_secs as int,
                ) + self.config.attestation_seconds(),
                CheckStage::Attestation(probe) => probe.retry.seconds_left(0),
                CheckStage::Done(_) => 0,
            },
            StageModel::Concluded(_) => 0,
        }
    }

    /// Whether every one of `events` answers the action that the run asked
    /// for at that moment.
    pub open spec fn answered_by(self, events: Seq<EventModel>) -> bool {
        forall|i: int|
            0 <= i < events.len() ==> (#[trigger] self.run(events.take(i)).pending()
                matches VerifierStepModel::Perform(action) && answers(events[i], action))
    }

    /// The seconds that the actions took which the run asked for while
    /// `events` came in.
    pub open spec fn seconds_taken(self, events: Seq<EventModel>) -> int
        decreases events.len(),
    {
        if events.len() == 0 {
            0
        } else {
            self.seconds_taken(events.drop_last()) + match self.run(events.drop_last()).pending() {
                VerifierStepModel::Perform(action) => seconds_of(action),
                VerifierStepModel::Concluded(_) => 0,
            }
        }
    }
}

/// An event that answers what the run asked for brings the run closer to
/// its end: fewer actions are left than before, and of the seconds that were
/// left the action has used up its own.
pub proof fn law_an_answer_brings_the_end_closer(
    state: VerifierState,
    action: ActionModel,
    event: EventModel,
)
    requires
        state.wf(),
        state.on_target(),
        state.pending() == VerifierStepModel::Perform(action),
        answers(event, action),
    ensures
        state.advance(event).wf(),
        state.advance(event).on_target(),
        state.advance(event).actions_left() < state.actions_left(),
        state.advance(event).seconds_left() + seconds_of(action) <= state.seconds_left(),
{
    let config = state.config;
    let next = state.advance(event);
    match state.stage {
        StageModel::Delaying => {
            let resolver = state.resolver();
            lemma_fresh_retry_bounds(resolver.retry, 0);
        },
        StageModel::ResolvingAddress(resolver) => {
            lemma_retry_draws_to_its_end(resolver.retry, true, 0);
            lemma_retry_draws_to_its_end(resolver.retry, false, 0);
            let after = resolver.advance(event);
            if after.retry.phase == Phase::Succeeded {
                let resolved = VerifierState { address: after.address.unwrap(), ..state };
                let check = resolved.check();
                match check.stage {
                    CheckStage::Transport(probe) => {
                        lemma_fresh_retry_bounds(probe.retry, config.connect_timeout_secs as int);
                    },
                    _ => {},
                }
                assert(next.seconds_left() <= config.check_seconds());
                assert(next.actions_left() <= config.check_actions());
            }
        },
        StageModel::Checking(check) => {
            match check.stage {
                CheckStage::Transport(probe) => {
                    let secs = config.connect_timeout_secs as int;
                    lemma_retry_draws_to_its_end(probe.retry, true, secs);
                    lemma_retry_draws_to_its_end(probe.retry, false, secs);
                    let fresh = crate::probe::AttestationState::start(
                        crate::probe::attestation_endpoint(check.host, check.port),
                        check.attestation,
                    );
                    lemma_fresh_retry_bounds(fresh.retry, 0);
                },
                CheckStage::Attestation(probe) => {
                    lemma_retry_draws_to_its_end(probe.retry, true, 0);
                    lemma_retry_draws_to_its_end(probe.retry, false, 0);
                },
                CheckStage::Done(_) => {},
            }
        },
        StageModel::Concluded(_) => {},
    }
}

/// What is left of a run is never less than nothing.
pub proof fn lemma_what_is_left_is_not_negative(state: VerifierState)
    requires
        state.wf(),
    ensures
        state.actions_left() >= 0,
        state.seconds_left() >= 0,
{
    let config = state.config;
    let timeout = config.connect_timeout_secs as int;
    assert(config.attestation.max_attempts * config.attestation.interval_secs >= 0)
        by (nonlinear_arith);
    assert(config.transport.max_attempts * (config.connect_timeout_secs
        + config.transport.interval_secs) >= 0) by (nonlinear_arith);
    assert(config.resolution.max_attempts * config.resolution.interval_secs >= 0)
        by (nonlinear_arith);
    match state.stage {
        StageModel::ResolvingAddress(resolver) => {
            lemma_retry_bounds_are_not_negative(resolver.retry, 0);
        },
        StageModel::Checking(check) => {
            match check.stage {
                CheckStage::Transport(probe) => {
                    lemma_retry_bounds_are_not_negative(probe.retry, timeout);
                },
                CheckStage::Attestation(probe) => {
                    lemma_retry_bounds_are_not_negative(probe.retry, 0);
                },
                CheckStage::Done(_) => {},
            }
        },
        _ => {},
    }
}

/// A run ends. While every action it asks for is answered, the actions it
/// has asked for and those it may still ask for never exceed what the
/// configuration allows, and neither do the seconds; so after that many
/// answers at the latest the run is concluded.
pub proof fn law_a_run_ends(job: JobModel, config: VerifierConfig, events: Seq<EventModel>)
    requires
        VerifierState::start(job, config).answered_by(events),
    ensures
        ({
            let start = VerifierState::start(job, config);
            let end = start.run(events);
            &&& end.wf()
            &&& end.on_target()
            &&& events.len() + end.actions_left() <= config.run_actions()
            &&& start.seconds_taken(events) + end.seconds_left() <= config.run_seconds()
            &&& events.len() <= config.run_actions()
            &&& start.seconds_taken(events) <= config.run_seconds()
        }),
    decreases events.len(),
{
    let start = VerifierState::start(job, config);
    if events.len() == 0 {
        lemma_what_is_left_is_not_negative(start);
    }
    if events.len() > 0 {
        let before = events.drop_last();
        assert forall|i: int| 0 <= i < before.len() implies (#[trigger] start.run(
            before.take(i),
        ).pending() matches VerifierStepModel::Perform(action) && answers(before[i], action)) by {
            assert(before.take(i) == events.take(i));
        }
        law_a_run_ends(job, config, before);
        assert(events.take(events.len() - 1) == before);
        let state = start.run(before);
        let step = start.run(events.take(events.len() - 1)).pending();
        assert(step == state.pending());
        if let VerifierStepModel::Perform(action) = step {
            law_an_answer_brings_the_end_closer(state, action, events.last());
        }
        lemma_what_is_left_is_not_negative(start.run(events));
    }
}

/// Under the standard configuration a run asks for at most 101 actions and
/// takes at most 950 seconds by its own clock.
pub proof fn law_standard_bounds()
    ensures
        VerifierConfig::standard_spec().run_actions() == 101,
        VerifierConfig::standard_spec().run_seconds() == 950,
{
}

} // verus!
