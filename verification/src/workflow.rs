//! One verification run, from the announcement of a job to its outcome.
//!
//! A run grants the instance time to boot, asks the control plane for its
//! address, knocks on its port, and fetches its attestation document, in
//! this order. The first stage that fails ends the run; the stages after it
//! are never entered.

use crate::instance::{
    CheckPhase, CheckResult, CheckStage, CheckState, CheckStep, CheckStepModel, InstanceCheck,
};
use crate::models::{FailureRecord, NewReachabilityError};
use crate::policy::VerifierConfig;
use crate::protocol::{Action, ActionModel, Event, EventModel};
use crate::resolver::{
    ip_endpoint, AddressResolver, ResolverState, ResolverStep, ResolverStepModel,
};
use crate::types::{JobDescriptor, JobModel};
use vstd::prelude::*;
use vstd::string::*;

verus! {

/// How a verification run ended.
#[derive(Debug, PartialEq, Eq)]
pub enum ReachabilityOutcome {
    /// The instance answered on its port and served an attestation document.
    Success,
    /// The control plane never gave an address.
    AddressResolutionFailed { reason: String },
    /// No connection to the instance could be opened.
    TransportUnreachable,
    /// The instance never served an attestation document.
    AttestationUnreachable,
}

/// The mathematical content of a [`ReachabilityOutcome`].
pub ghost enum OutcomeModel {
    Success,
    AddressResolutionFailed { reason: Seq<char> },
    TransportUnreachable,
    AttestationUnreachable,
}

impl OutcomeModel {
    /// The cause of a failure, in words. A success has none.
    pub open spec fn error(self) -> Option<Seq<char>> {
        match self {
            OutcomeModel::Success => None,
            OutcomeModel::AddressResolutionFailed { reason } => Some(reason),
            OutcomeModel::TransportUnreachable => Some(
                "Failed to establish TCP connection to the instance"@,
            ),
            OutcomeModel::AttestationUnreachable => Some("Instance reachability test failed"@),
        }
    }
}

impl View for ReachabilityOutcome {
    type V = OutcomeModel;

    open spec fn view(&self) -> OutcomeModel {
        match self {
            ReachabilityOutcome::Success => OutcomeModel::Success,
            ReachabilityOutcome::AddressResolutionFailed {
                reason,
            } => OutcomeModel::AddressResolutionFailed { reason: reason@ },
            ReachabilityOutcome::TransportUnreachable => OutcomeModel::TransportUnreachable,
            ReachabilityOutcome::AttestationUnreachable => OutcomeModel::AttestationUnreachable,
        }
    }
}

impl ReachabilityOutcome {
    /// Whether the instance was found reachable.
    pub fn is_success(&self) -> (ok: bool)
        ensures
            ok == (self@ == OutcomeModel::Success),
    {
        match self {
            ReachabilityOutcome::Success => true,
            _ => false,
        }
    }

    /// The cause of a failure, in words. A success has none.
    pub fn error(&self) -> (text: Option<String>)
        ensures
            text.deep_view() == self@.error(),
    {
        match self {
            ReachabilityOutcome::Success => None,
            ReachabilityOutcome::AddressResolutionFailed { reason } => Some(reason.clone()),
            ReachabilityOutcome::TransportUnreachable => Some(
                String::from_str("Failed to establish TCP connection to the instance"),
            ),
            ReachabilityOutcome::AttestationUnreachable => Some(
                String::from_str("Instance reachability test failed"),
            ),
        }
    }
}

impl Clone for ReachabilityOutcome {
    fn clone(&self) -> (copy: Self)
        ensures
            copy@ == self@,
    {
        match self {
            ReachabilityOutcome::Success => ReachabilityOutcome::Success,
            ReachabilityOutcome::AddressResolutionFailed {
                reason,
            } => ReachabilityOutcome::AddressResolutionFailed { reason: reason.clone() },
            ReachabilityOutcome::TransportUnreachable => ReachabilityOutcome::TransportUnreachable,
            ReachabilityOutcome::AttestationUnreachable => {
                ReachabilityOutcome::AttestationUnreachable
            },
        }
    }
}

/// What a run needs next, or how it ended.
#[derive(Clone, Debug, PartialEq, Eq)]
pub enum VerifierStep {
    Perform(Action),
    Concluded(ReachabilityOutcome),
}

/// The mathematical content of a [`VerifierStep`].
pub ghost enum VerifierStepModel {
    Perform(ActionModel),
    Concluded(OutcomeModel),
}

impl View for VerifierStep {
    type V = VerifierStepModel;

    open spec fn view(&self) -> VerifierStepModel {
        match self {
            VerifierStep::Perform(action) => VerifierStepModel::Perform(action@),
            VerifierStep::Concluded(outcome) => VerifierStepModel::Concluded(outcome@),
        }
    }
}

/// The stage a run is in.
#[derive(Clone, Copy, Debug, PartialEq, Eq, Structural)]
pub enum StageKind {
    Delaying,
    ResolvingAddress,
    ProbingTransport,
    ProbingAttestation,
    Concluded,
}

/// The stage a run is in, with the state of that stage.
pub ghost enum StageModel {
    /// The instance is given time to boot.
    Delaying,
    /// The control plane is asked for the address.
    ResolvingAddress(ResolverState),
    /// The instance is checked: its port, then its attestation endpoint.
    Checking(CheckState),
    Concluded(OutcomeModel),
}

impl StageModel {
    /// Which stage this is.
    pub open spec fn kind(self) -> StageKind {
        match self {
            StageModel::Delaying => StageKind::Delaying,
            StageModel::ResolvingAddress(_) => StageKind::ResolvingAddress,
            StageModel::Checking(check) => match check.stage {
                CheckStage::Transport(_) => StageKind::ProbingTransport,
                CheckStage::Attestation(_) => StageKind::ProbingAttestation,
                CheckStage::Done(_) => StageKind::Concluded,
            },
            StageModel::Concluded(_) => StageKind::Concluded,
        }
    }
}

impl OutcomeModel {
    /// The outcome of a run whose check of the instance ended with `result`.
    pub open spec fn of_check(result: CheckResult) -> Self {
        match result {
            CheckResult::Reachable => OutcomeModel::Success,
            CheckResult::TransportUnreachable => OutcomeModel::TransportUnreachable,
            CheckResult::AttestationUnreachable => OutcomeModel::AttestationUnreachable,
        }
    }
}

/// The mathematical state of a [`ReachabilityVerifier`].
pub ghost struct VerifierState {
    pub job: JobModel,
    pub config: VerifierConfig,
    /// The address of the instance, empty until it is resolved.
    pub address: Seq<char>,
    pub stage: StageModel,
}

impl VerifierState {
    /// The states a run can be in: the stage it is in is not over, and the
    /// address is known from the moment the resolution succeeded. A run that
    /// ended for want of an address has none.
    pub open spec fn wf(self) -> bool {
        match self.stage {
            StageModel::Delaying => self.address.len() == 0,
            StageModel::ResolvingAddress(resolver) => {
                &&& resolver.wf()
                &&& !resolver.finished()
                &&& self.address.len() == 0
            },
            StageModel::Checking(check) => {
                &&& check.wf()
                &&& check.result() is None
                &&& self.address.len() > 0
            },
            StageModel::Concluded(outcome) => {
                (outcome is AddressResolutionFailed) == (self.address.len() == 0)
            },
        }
    }

    /// A run that has just been launched.
    pub open spec fn start(job: JobModel, config: VerifierConfig) -> Self {
        VerifierState { job, config, address: Seq::empty(), stage: StageModel::Delaying }
    }

    /// The resolver that a run uses.
    pub open spec fn resolver(self) -> ResolverState {
        ResolverState::start(
            ip_endpoint(
                self.job.control_plane_url,
                self.job.job_id,
                self.job.metadata.region_or_empty(),
            ),
            self.config.resolution,
        )
    }

    /// The check of the instance that a run makes once the address is known.
    pub open spec fn check(self) -> CheckState {
        CheckState::start(
            self.address,
            self.config.port,
            self.config.connect_timeout_secs,
            self.config.transport,
            self.config.attestation,
        )
    }

    /// The run, concluded with `outcome`.
    pub open spec fn conclude(self, outcome: OutcomeModel) -> Self {
        VerifierState { stage: StageModel::Concluded(outcome), ..self }
    }

    /// The run, given where its check of the instance stands: still
    /// checking, or concluded.
    pub open spec fn with_check(self, check: CheckState) -> Self {
        match check.result() {
            None => VerifierState { stage: StageModel::Checking(check), ..self },
            Some(result) => self.conclude(OutcomeModel::of_check(result)),
        }
    }

    /// The run, given where its resolver stands: still resolving, on to the
    /// check of the instance with the address, or concluded.
    pub open spec fn with_resolver(self, resolver: ResolverState) -> Self {
        match resolver.pending() {
            ResolverStepModel::Perform(_) => VerifierState {
                stage: StageModel::ResolvingAddress(resolver),
                ..self
            },
            ResolverStepModel::Resolved { address } => {
                let resolved = VerifierState { address, ..self };
                resolved.with_check(resolved.check())
            },
            ResolverStepModel::Failed(error) => self.conclude(
                OutcomeModel::AddressResolutionFailed { reason: error.message() },
            ),
        }
    }

    /// The run after an event. An event that answers nothing the run asked
    /// for leaves it as it is; so does any event once the run is concluded.
    pub open spec fn advance(self, event: EventModel) -> Self {
        match self.stage {
            StageModel::Delaying => if event == EventModel::Elapsed {
                self.with_resolver(self.resolver())
            } else {
                self
            },
            StageModel::ResolvingAddress(resolver) => self.with_resolver(resolver.advance(event)),
            StageModel::Checking(check) => self.with_check(check.advance(event)),
            StageModel::Concluded(_) => self,
        }
    }

    /// The run after `events`, taken in order.
    pub open spec fn run(self, events: Seq<EventModel>) -> Self
        decreases events.len(),
    {
        if events.len() == 0 {
            self
        } else {
            self.run(events.drop_last()).advance(events.last())
        }
    }

    /// What the run needs next, or how it ended. While a stage lasts, the
    /// run needs what that stage needs.
    pub open spec fn pending(self) -> VerifierStepModel
        recommends
            self.wf(),
    {
        match self.stage {
            StageModel::Delaying => VerifierStepModel::Perform(
                ActionModel::Sleep { secs: self.config.startup_delay_secs },
            ),
            StageModel::ResolvingAddress(resolver) => match resolver.pending() {
                ResolverStepModel::Perform(action) => VerifierStepModel::Perform(action),
                _ => arbitrary(),
            },
            StageModel::Checking(check) => match check.pending() {
                CheckStepModel::Perform(action) => VerifierStepModel::Perform(action),
                _ => arbitrary(),
            },
            StageModel::Concluded(outcome) => VerifierStepModel::Concluded(outcome),
        }
    }

    /// The outcome, once there is one.
    pub open spec fn outcome(self) -> Option<OutcomeModel> {
        match self.stage {
            StageModel::Concluded(outcome) => Some(outcome),
            _ => None,
        }
    }

    /// The record to keep of the run: none while it lasts and none of a
    /// success; of a failure, the job, its operator, the address as far as it
    /// was resolved, and the cause.
    pub open spec fn failure(self, timestamp: i64) -> Option<FailureRecord> {
        match self.stage {
            StageModel::Concluded(outcome) => match outcome.error() {
                Some(error) => Some(
                    FailureRecord {
                        job: self.job.job_id,
                        operator: self.job.operator,
                        ip: self.address,
                        error,
                        timestamp,
                    },
                ),
                None => None,
            },
            _ => None,
        }
    }
}

#[derive(Debug)]
enum Stage {
    Delaying,
    ResolvingAddress(AddressResolver),
    Checking(InstanceCheck),
    Concluded(ReachabilityOutcome),
}

impl View for Stage {
    type V = StageModel;

    closed spec fn view(&self) -> StageModel {
        match self {
            Stage::Delaying => StageModel::Delaying,
            Stage::ResolvingAddress(resolver) => StageModel::ResolvingAddress(resolver@),
            Stage::Checking(check) => StageModel::Checking(check@),
            Stage::Concluded(outcome) => StageModel::Concluded(outcome@),
        }
    }
}

/// One verification run.
#[derive(Debug)]
pub struct ReachabilityVerifier {
    job: JobDescriptor,
    config: VerifierConfig,
    address: String,
    stage: Stage,
}

impl View for ReachabilityVerifier {
    type V = VerifierState;

    closed spec fn view(&self) -> VerifierState {
        VerifierState {
            job: self.job@,
            config: self.config,
            address: self.address@,
            stage: self.stage@,
        }
    }
}

impl ReachabilityVerifier {
    /// Every run is in a state that [`VerifierState::wf`] admits.
    #[verifier::type_invariant]
    pub open spec fn inv(self) -> bool {
        self@.wf()
    }

    /// Launches a run for `job`. It starts by waiting for the instance to
    /// boot.
    pub fn new(job: JobDescriptor, config: VerifierConfig) -> (fresh: Self)
        ensures
            fresh@ == VerifierState::start(job@, config),
    {
        ReachabilityVerifier { job, config, address: String::new(), stage: Stage::Delaying }
    }

    /// The job the run is about.
    pub fn job(&self) -> (job: &JobDescriptor)
        ensures
            job@ == self@.job,
    {
        &self.job
    }

    /// The configuration the run was launched with.
    pub fn config(&self) -> (config: VerifierConfig)
        ensures
            config == self@.config,
    {
        self.config
    }

    /// The address of the instance, empty until it is resolved.
    pub fn address(&self) -> (address: &str)
        ensures
            address@ == self@.address,
    {
        self.address.as_str()
    }

    /// The stage the run is in.
    pub fn stage(&self) -> (kind: StageKind)
        ensures
            kind == self@.stage.kind(),
    {
        match &self.stage {
            Stage::Delaying => StageKind::Delaying,
            Stage::ResolvingAddress(_) => StageKind::ResolvingAddress,
            Stage::Checking(check) => match check.phase() {
                CheckPhase::Transport => StageKind::ProbingTransport,
                CheckPhase::Attestation => StageKind::ProbingAttestation,
                CheckPhase::Done => StageKind::Concluded,
            },
            Stage::Concluded(_) => StageKind::Concluded,
        }
    }

    /// The outcome, once there is one.
    pub fn outcome(&self) -> (outcome: Option<ReachabilityOutcome>)
        ensures
            match outcome {
                Some(outcome) => self@.outcome() == Some(outcome@),
                None => self@.outcome() is None,
            },
    {
        match &self.stage {
            Stage::Concluded(outcome) => Some(outcome.clone()),
            _ => None,
        }
    }

    /// What the run needs next, or how it ended.
    pub fn pending(&self) -> (step: VerifierStep)
        ensures
            step@ == self@.pending(),
    {
        proof {
            use_type_invariant(self);
        }
        match &self.stage {
            Stage::Delaying => VerifierStep::Perform(
                Action::Sleep { secs: self.config.startup_delay_secs },
            ),
            Stage::ResolvingAddress(resolver) => match resolver.pending() {
                ResolverStep::Perform(action) => VerifierStep::Perform(action),
                _ => vstd::pervasive::unreached(),
            },
            Stage::Checking(check) => match check.pending() {
                CheckStep::Perform(action) => VerifierStep::Perform(action),
                _ => vstd::pervasive::unreached(),
            },
            Stage::Concluded(outcome) => VerifierStep::Concluded(outcome.clone()),
        }
    }

    /// A run of which all but the stage is known. Whatever enters a stage
    /// overwrites the one that is put here.
    spec fn between_stages(
        job: JobModel,
        config: VerifierConfig,
        address: Seq<char>,
    ) -> VerifierState {
        VerifierState { job, config, address, stage: StageModel::Delaying }
    }

    fn with_check(
        job: JobDescriptor,
        config: VerifierConfig,
        address: String,
        check: InstanceCheck,
    ) -> (next: Self)
        requires
            address@.len() > 0,
        ensures
            next@ == Self::between_stages(job@, config, address@).with_check(check@),
    {
        proof {
            use_type_invariant(&check);
        }
        let stage = match check.result() {
            None => Stage::Checking(check),
            Some(CheckResult::Reachable) => Stage::Concluded(ReachabilityOutcome::Success),
            Some(CheckResult::TransportUnreachable) => Stage::Concluded(
                ReachabilityOutcome::TransportUnreachable,
            ),
            Some(CheckResult::AttestationUnreachable) => Stage::Concluded(
                ReachabilityOutcome::AttestationUnreachable,
            ),
        };
        ReachabilityVerifier { job, config, address, stage }
    }

    fn with_resolver(
        job: JobDescriptor,
        config: VerifierConfig,
        resolver: AddressResolver,
    ) -> (next: Self)
        ensures
            next@ == Self::between_stages(job@, config, Seq::empty()).with_resolver(resolver@),
    {
        proof {
            use_type_invariant(&resolver);
        }
        match resolver.pending() {
            ResolverStep::Perform(_) => ReachabilityVerifier {
                job,
                config,
                address: String::new(),
                stage: Stage::ResolvingAddress(resolver),
            },
            ResolverStep::Resolved { address } => {
                let check = InstanceCheck::new(
                    address.clone(),
                    config.port,
                    config.connect_timeout_secs,
                    config.transport,
                    config.attestation,
                );
                Self::with_check(job, config, address, check)
            },
            ResolverStep::Failed(error) => ReachabilityVerifier {
                job,
                config,
                address: String::new(),
                stage: Stage::Concluded(
                    ReachabilityOutcome::AddressResolutionFailed { reason: error.message() },
                ),
            },
        }
    }

    /// Takes in an event.
    pub fn advance(self, event: Event) -> (next: Self)
        ensures
            next@ == self@.advance(event@),
    {
        proof {
            use_type_invariant(&self);
            if self@.stage is Delaying {
                assert(self@.address =~= Seq::empty());
            }
        }
        let ReachabilityVerifier { job, config, address, stage } = self;
        match stage {
            Stage::Delaying => match event {
                Event::Elapsed => {
                    let resolver = AddressResolver::new(
                        job.control_plane_url.as_str(),
                        job.job_id.as_str(),
                        job.metadata.region_or_empty(),
                        config.resolution,
                    );
                    Self::with_resolver(job, config, resolver)
                },
                _ => ReachabilityVerifier { job, config, address, stage: Stage::Delaying },
            },
            Stage::ResolvingAddress(resolver) => {
                assert(address@ =~= Seq::empty());
                Self::with_resolver(job, config, resolver.advance(event))
            },
            Stage::Checking(check) => Self::with_check(
                job,
                config,
                address,
                check.advance(event),
            ),
            Stage::Concluded(outcome) => ReachabilityVerifier {
                job,
                config,
                address,
                stage: Stage::Concluded(outcome),
            },
        }
    }

    /// The record to keep of the run, stamped with `timestamp`: none while
    /// the run lasts and none of a success.
    pub fn failure_record(&self, timestamp: i64) -> (record: Option<NewReachabilityError>)
        ensures
            match record {
                Some(record) => self@.failure(timestamp) == Some(record@),
                None => self@.failure(timestamp) is None,
            },
    {
        match &self.stage {
            Stage::Concluded(outcome) => match outcome.error() {
                Some(error) => Some(
                    NewReachabilityError::new(
                        self.job.job_id.clone(),
                        self.job.operator.clone(),
                        self.address.clone(),
                        error,
                        timestamp,
                    ),
                ),
                None => None,
            },
            _ => None,
        }
    }
}

} // verus!
