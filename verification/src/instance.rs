//! Checking an instance whose address is known: its port first, and its
//! attestation endpoint only once a connection to the port was opened.

use crate::policy::RetryPolicy;
use crate::probe::{
    attestation_endpoint, socket_address, AttestationProbe, AttestationState, ProbeStep,
    ProbeStepModel, TransportProbe, TransportState,
};
use crate::protocol::{Action, ActionModel, Event, EventModel};
use vstd::prelude::*;

verus! {

/// How the check of an instance ended.
#[derive(Clone, Copy, Debug, PartialEq, Eq, Structural)]
pub enum CheckResult {
    /// A connection was opened and an attestation document was served.
    Reachable,
    /// No connection could be opened. The attestation endpoint was not
    /// tried.
    TransportUnreachable,
    /// A connection was opened, but no attestation document was served.
    AttestationUnreachable,
}

/// What a check needs next, or how it ended.
#[derive(Clone, Debug, PartialEq, Eq)]
pub enum CheckStep {
    Perform(Action),
    Finished(CheckResult),
}

/// The mathematical content of a [`CheckStep`].
pub ghost enum CheckStepModel {
    Perform(ActionModel),
    Finished(CheckResult),
}

impl View for CheckStep {
    type V = CheckStepModel;

    open spec fn view(&self) -> CheckStepModel {
        match self {
            CheckStep::Perform(action) => CheckStepModel::Perform(action@),
            CheckStep::Finished(result) => CheckStepModel::Finished(*result),
        }
    }
}

/// Which part of a check is under way.
#[derive(Clone, Copy, Debug, PartialEq, Eq, Structural)]
pub enum CheckPhase {
    Transport,
    Attestation,
    Done,
}

/// The part of a check that is under way, with its state.
pub ghost enum CheckStage {
    Transport(TransportState),
    Attestation(AttestationState),
    Done(CheckResult),
}

impl CheckStage {
    /// Which part this is.
    pub open spec fn phase(self) -> CheckPhase {
        match self {
            CheckStage::Transport(_) => CheckPhase::Transport,
            CheckStage::Attestation(_) => CheckPhase::Attestation,
            CheckStage::Done(_) => CheckPhase::Done,
        }
    }
}

/// The mathematical state of an [`InstanceCheck`].
pub ghost struct CheckState {
    pub host: Seq<char>,
    pub port: u16,
    /// The policy of the attestation probe, for when its turn comes.
    pub attestation: RetryPolicy,
    pub stage: CheckStage,
}

impl CheckState {
    /// The states a check can be in: the probe under way is not over.
    pub open spec fn wf(self) -> bool {
        match self.stage {
            CheckStage::Transport(probe) => probe.wf() && !probe.finished(),
            CheckStage::Attestation(probe) => probe.wf() && !probe.finished(),
            CheckStage::Done(_) => true,
        }
    }

    /// The check, given where its attestation probe stands.
    pub open spec fn with_attestation(self, probe: AttestationState) -> Self {
        match probe.pending() {
            ProbeStepModel::Perform(_) => CheckState {
                stage: CheckStage::Attestation(probe),
                ..self
            },
            ProbeStepModel::Finished { reachable } => CheckState {
                stage: CheckStage::Done(
                    if reachable {
                        CheckResult::Reachable
                    } else {
                        CheckResult::AttestationUnreachable
                    },
                ),
                ..self
            },
        }
    }

    /// The check, given where its transport probe stands: on success the
    /// attestation probe takes over, on failure the check is over.
    pub open spec fn with_transport(self, probe: TransportState) -> Self {
        match probe.pending() {
            ProbeStepModel::Perform(_) => CheckState {
                stage: CheckStage::Transport(probe),
                ..self
            },
            ProbeStepModel::Finished { reachable } => if reachable {
                self.with_attestation(
                    AttestationState::start(
                        attestation_endpoint(self.host, self.port),
                        self.attestation,
                    ),
                )
            } else {
                CheckState { stage: CheckStage::Done(CheckResult::TransportUnreachable), ..self }
            },
        }
    }

    /// A fresh check of the instance at `host`.
    pub open spec fn start(
        host: Seq<char>,
        port: u16,
        connect_timeout_secs: u64,
        transport: RetryPolicy,
        attestation: RetryPolicy,
    ) -> Self {
        let probe = TransportState::start(
            socket_address(host, port),
            connect_timeout_secs,
            transport,
        );
        let check = CheckState { host, port, attestation, stage: CheckStage::Transport(probe) };
        check.with_transport(probe)
    }

    /// The check after an event. An event that answers nothing the check
    /// asked for leaves it as it is; so does any event once the check is
    /// over.
    pub open spec fn advance(self, event: EventModel) -> Self {
        match self.stage {
            CheckStage::Transport(probe) => self.with_transport(probe.advance(event)),
            CheckStage::Attestation(probe) => self.with_attestation(probe.advance(event)),
            CheckStage::Done(_) => self,
        }
    }

    /// The check after `events`, taken in order.
    pub open spec fn run(self, events: Seq<EventModel>) -> Self
        decreases events.len(),
    {
        if events.len() == 0 {
            self
        } else {
            self.run(events.drop_last()).advance(events.last())
        }
    }

    /// What the check needs next, or how it ended. While a probe lasts, the
    /// check needs what the probe needs.
    pub open spec fn pending(self) -> CheckStepModel
        recommends
            self.wf(),
    {
        match self.stage {
            CheckStage::Transport(probe) => match probe.pending() {
                ProbeStepModel::Perform(action) => CheckStepModel::Perform(action),
                _ => arbitrary(),
            },
            CheckStage::Attestation(probe) => match probe.pending() {
                ProbeStepModel::Perform(action) => CheckStepModel::Perform(action),
                _ => arbitrary(),
            },
            CheckStage::Done(result) => CheckStepModel::Finished(result),
        }
    }

    /// How the check ended, once it has.
    pub open spec fn result(self) -> Option<CheckResult> {
        match self.stage {
            CheckStage::Done(result) => Some(result),
            _ => None,
        }
    }
}

#[derive(Debug)]
enum Stage {
    Transport(TransportProbe),
    Attestation(AttestationProbe),
    Done(CheckResult),
}

impl View for Stage {
    type V = CheckStage;

    closed spec fn view(&self) -> CheckStage {
        match self {
            Stage::Transport(probe) => CheckStage::Transport(probe@),
            Stage::Attestation(probe) => CheckStage::Attestation(probe@),
            Stage::Done(result) => CheckStage::Done(*result),
        }
    }
}

/// Checks an instance whose address is known.
#[derive(Debug)]
pub struct InstanceCheck {
    host: String,
    port: u16,
    attestation: RetryPolicy,
    stage: Stage,
}

impl View for InstanceCheck {
    type V = CheckState;

    closed spec fn view(&self) -> CheckState {
        CheckState {
            host: self.host@,
            port: self.port,
            attestation: self.attestation,
            stage: self.stage@,
        }
    }
}

impl InstanceCheck {
    /// Every check is in a state that [`CheckState::wf`] admits.
    #[verifier::type_invariant]
    pub open spec fn inv(self) -> bool {
        self@.wf()
    }

    /// A check of the instance at `host`.
    pub fn new(
        host: String,
        port: u16,
        connect_timeout_secs: u64,
        transport: RetryPolicy,
        attestation: RetryPolicy,
    ) -> (fresh: Self)
        ensures
            fresh@ == CheckState::start(host@, port, connect_timeout_secs, transport, attestation),
    {
        let probe = TransportProbe::new(host.as_str(), port, connect_timeout_secs, transport);
        Self::with_transport(host, port, attestation, probe)
    }

    /// Which part of the check is under way.
    pub fn phase(&self) -> (phase: CheckPhase)
        ensures
            phase == self@.stage.phase(),
    {
        match &self.stage {
            Stage::Transport(_) => CheckPhase::Transport,
            Stage::Attestation(_) => CheckPhase::Attestation,
            Stage::Done(_) => CheckPhase::Done,
        }
    }

    /// How the check ended, once it has.
    pub fn result(&self) -> (result: Option<CheckResult>)
        ensures
            result == self@.result(),
    {
        match &self.stage {
            Stage::Done(result) => Some(*result),
            _ => None,
        }
    }

    /// What the check needs next, or how it ended.
    pub fn pending(&self) -> (step: CheckStep)
        ensures
            step@ == self@.pending(),
    {
        proof {
            use_type_invariant(self);
        }
        match &self.stage {
            Stage::Transport(probe) => match probe.pending() {
                ProbeStep::Perform(action) => CheckStep::Perform(action),
                _ => vstd::pervasive::unreached(),
            },
            Stage::Attestation(probe) => match probe.pending() {
                ProbeStep::Perform(action) => CheckStep::Perform(action),
                _ => vstd::pervasive::unreached(),
            },
            Stage::Done(result) => CheckStep::Finished(*result),
        }
    }

    fn with_attestation(
        host: String,
        port: u16,
        attestation: RetryPolicy,
        probe: AttestationProbe,
    ) -> (next: Self)
        ensures
            next@ == (CheckState {
                host: host@,
                port,
                attestation,
                stage: CheckStage::Attestation(probe@),
            }).with_attestation(probe@),
    {
        proof {
            use_type_invariant(&probe);
        }
        let stage = match probe.pending() {
            ProbeStep::Perform(_) => Stage::Attestation(probe),
            ProbeStep::Finished { reachable } => Stage::Done(
                if reachable {
                    CheckResult::Reachable
                } else {
                    CheckResult::AttestationUnreachable
                },
            ),
        };
        InstanceCheck { host, port, attestation, stage }
    }

    fn with_transport(
        host: String,
        port: u16,
        attestation: RetryPolicy,
        probe: TransportProbe,
    ) -> (next: Self)
        ensures
            next@ == (CheckState {
                host: host@,
                port,
                attestation,
                stage: CheckStage::Transport(probe@),
            }).with_transport(probe@),
    {
        proof {
            use_type_invariant(&probe);
        }
        match probe.pending() {
            ProbeStep::Perform(_) => InstanceCheck {
                host,
                port,
                attestation,
                stage: Stage::Transport(probe),
            },
            ProbeStep::Finished { reachable } => if reachable {
                let next = AttestationProbe::new(host.as_str(), port, attestation);
                Self::with_attestation(host, port, attestation, next)
            } else {
                InstanceCheck {
                    host,
                    port,
                    attestation,
                    stage: Stage::Done(CheckResult::TransportUnreachable),
                }
            },
        }
    }

    /// Takes in an event.
    pub fn advance(self, event: Event) -> (next: Self)
        ensures
            next@ == self@.advance(event@),
    {
        proof {
            use_type_invariant(&self);
        }
        let InstanceCheck { host, port, attestation, stage } = self;
        match stage {
            Stage::Transport(probe) => Self::with_transport(
                host,
                port,
                attestation,
                probe.advance(event),
            ),
            Stage::Attestation(probe) => Self::with_attestation(
                host,
                port,
                attestation,
                probe.advance(event),
            ),
            Stage::Done(result) => InstanceCheck {
                host,
                port,
                attestation,
                stage: Stage::Done(result),
            },
        }
    }
}

/// One event moves a check forward or not at all: it stays a check of the
/// same instance, a check that is over stays as it is, and the attestation
/// probe never gives way to the transport probe again.
pub proof fn law_check_goes_forward(state: CheckState, events: Seq<EventModel>)
    requires
        state.wf(),
    ensures
        ({
            let end = state.run(events);
            &&& end.wf()
            &&& end.host == state.host
            &&& end.port == state.port
            &&& end.attestation == state.attestation
            &&& state.stage is Done ==> end == state
            &&& state.stage is Attestation ==> !(end.stage is Transport)
            &&& state.stage is Attestation ==> end.result() != Some(
                CheckResult::TransportUnreachable,
            )
        }),
    decreases events.len(),
{
    if events.len() > 0 {
        law_check_goes_forward(state, events.drop_last());
    }
}

/// The attestation document is asked for only after a connection was
/// opened: if a check is probing the attestation endpoint at some moment,
/// then at an earlier moment it was probing the transport and the event that
/// came then was a connection. The result is that earlier moment.
pub proof fn law_attestation_follows_a_connection(
    start: CheckState,
    events: Seq<EventModel>,
    moment: int,
) -> (connected: int)
    requires
        start.wf(),
        start.stage is Transport,
        0 <= moment <= events.len(),
        start.run(events.take(moment)).stage is Attestation,
    ensures
        0 <= connected < moment,
        start.run(events.take(connected)).stage is Transport,
        events[connected] == EventModel::Connected,
    decreases moment,
{
    if moment == 0 {
        assert(events.take(0) =~= Seq::<EventModel>::empty());
        0
    } else {
        let before = events.take(moment - 1);
        assert(events.take(moment).drop_last() == before);
        assert(events.take(moment).last() == events[moment - 1]);
        law_check_goes_forward(start, before);
        if start.run(before).stage is Attestation {
            law_attestation_follows_a_connection(start, events, moment - 1)
        } else {
            moment - 1
        }
    }
}

} // verus!
