//! The retry loop that every stage shares: try, wait, try again, give up.
//!
//! A loop is in one of four phases. While `Attempting`, one attempt is under
//! way. An attempt that succeeds ends the loop at once. One that does not is
//! followed by a wait of the policy's interval, also after the last attempt;
//! when the wait is over the loop tries again, or is `Exhausted` if the
//! ceiling has been reached.

use crate::policy::RetryPolicy;
use vstd::prelude::*;

verus! {

/// Where a retry loop stands.
#[derive(Clone, Copy, Debug, PartialEq, Eq, Structural)]
pub enum Phase {
    /// An attempt is under way.
    Attempting,
    /// The last attempt did not succeed; the interval is running.
    Waiting,
    /// An attempt succeeded. Final.
    Succeeded,
    /// Every attempt was used without success. Final.
    Exhausted,
}

/// What a retry loop needs next.
#[derive(Clone, Copy, Debug, PartialEq, Eq, Structural)]
pub enum Pending {
    /// Make one attempt.
    Attempt,
    /// Let this many seconds pass.
    Wait { secs: u64 },
    /// Nothing: the loop is over, with or without success.
    Done { success: bool },
}

/// What can happen to a retry loop.
#[derive(Clone, Copy, Debug, PartialEq, Eq, Structural)]
pub enum Turn {
    /// An attempt ended.
    Attempted { success: bool },
    /// A wait ended.
    Elapsed,
    /// Something that does not concern the loop.
    Unrelated,
}

/// The mathematical state of a retry loop.
pub ghost struct RetryState {
    pub policy: RetryPolicy,
    /// Attempts that have ended.
    pub attempts: nat,
    pub phase: Phase,
}

impl RetryState {
    /// The states a loop can be in.
    pub open spec fn wf(self) -> bool {
        &&& self.attempts <= self.policy.max_attempts
        &&& self.phase == Phase::Attempting ==> self.attempts < self.policy.max_attempts
        &&& self.phase == Phase::Waiting ==> self.attempts >= 1
        &&& self.phase == Phase::Succeeded ==> self.attempts >= 1
        &&& self.phase == Phase::Exhausted ==> self.attempts == self.policy.max_attempts
    }

    /// A fresh loop. With a ceiling of zero there is nothing to try.
    pub open spec fn start(policy: RetryPolicy) -> Self {
        RetryState {
            policy,
            attempts: 0,
            phase: if policy.max_attempts == 0 {
                Phase::Exhausted
            } else {
                Phase::Attempting
            },
        }
    }

    /// The attempt under way ended. Ignored unless one is under way.
    pub open spec fn attempted(self, success: bool) -> Self {
        if self.phase == Phase::Attempting {
            RetryState {
                attempts: self.attempts + 1,
                phase: if success {
                    Phase::Succeeded
                } else {
                    Phase::Waiting
                },
                ..self
            }
        } else {
            self
        }
    }

    /// The wait ended. Ignored unless the loop is waiting.
    pub open spec fn elapsed(self) -> Self {
        if self.phase == Phase::Waiting {
            RetryState {
                phase: if self.attempts < self.policy.max_attempts {
                    Phase::Attempting
                } else {
                    Phase::Exhausted
                },
                ..self
            }
        } else {
            self
        }
    }

    /// The loop after one turn.
    pub open spec fn step(self, turn: Turn) -> Self {
        match turn {
            Turn::Attempted { success } => self.attempted(success),
            Turn::Elapsed => self.elapsed(),
            Turn::Unrelated => self,
        }
    }

    /// The loop after `turns`, taken in order.
    pub open spec fn run(self, turns: Seq<Turn>) -> Self
        decreases turns.len(),
    {
        if turns.len() == 0 {
            self
        } else {
            self.run(turns.drop_last()).step(turns.last())
        }
    }

    /// What the loop needs next.
    pub open spec fn pending(self) -> Pending {
        match self.phase {
            Phase::Attempting => Pending::Attempt,
            Phase::Waiting => Pending::Wait { secs: self.policy.interval_secs },
            Phase::Succeeded => Pending::Done { success: true },
            Phase::Exhausted => Pending::Done { success: false },
        }
    }

    /// Whether the loop is over.
    pub open spec fn finished(self) -> bool {
        self.phase == Phase::Succeeded || self.phase == Phase::Exhausted
    }
}

/// A retry loop.
#[derive(Clone, Copy, Debug)]
pub struct RetryLoop {
    policy: RetryPolicy,
    attempts: u32,
    phase: Phase,
}

impl View for RetryLoop {
    type V = RetryState;

    closed spec fn view(&self) -> RetryState {
        RetryState { policy: self.policy, attempts: self.attempts as nat, phase: self.phase }
    }
}

impl RetryLoop {
    /// Every loop is in a state that [`RetryState::wf`] admits.
    #[verifier::type_invariant]
    pub open spec fn inv(self) -> bool {
        self@.wf()
    }

    /// A fresh loop under `policy`.
    pub fn new(policy: RetryPolicy) -> (fresh: Self)
        ensures
            fresh@ == RetryState::start(policy),
    {
        let phase = if policy.max_attempts == 0 {
            Phase::Exhausted
        } else {
            Phase::Attempting
        };
        RetryLoop { policy, attempts: 0, phase }
    }

    /// The policy the loop runs under.
    pub fn policy(&self) -> (policy: RetryPolicy)
        ensures
            policy == self@.policy,
    {
        self.policy
    }

    /// The number of attempts that have ended.
    pub fn attempts(&self) -> (n: u32)
        ensures
            n == self@.attempts,
    {
        self.attempts
    }

    /// Where the loop stands.
    pub fn phase(&self) -> (phase: Phase)
        ensures
            phase == self@.phase,
    {
        self.phase
    }

    /// What the loop needs next.
    pub fn pending(&self) -> (pending: Pending)
        ensures
            pending == self@.pending(),
    {
        match self.phase {
            Phase::Attempting => Pending::Attempt,
            Phase::Waiting => Pending::Wait { secs: self.policy.interval_secs },
            Phase::Succeeded => Pending::Done { success: true },
            Phase::Exhausted => Pending::Done { success: false },
        }
    }

    /// Whether the loop is over.
    pub fn finished(&self) -> (over: bool)
        ensures
            over == self@.finished(),
    {
        match self.phase {
            Phase::Succeeded | Phase::Exhausted => true,
            _ => false,
        }
    }

    /// Records the end of the attempt under way.
    pub fn attempted(self, success: bool) -> (next: Self)
        ensures
            next@ == self@.attempted(success),
    {
        proof {
            use_type_invariant(&self);
        }
        match self.phase {
            Phase::Attempting => RetryLoop {
                policy: self.policy,
                attempts: self.attempts + 1,
                phase: if success {
                    Phase::Succeeded
                } else {
                    Phase::Waiting
                },
            },
            _ => self,
        }
    }

    /// Records the end of the wait.
    pub fn elapsed(self) -> (next: Self)
        ensures
            next@ == self@.elapsed(),
    {
        proof {
            use_type_invariant(&self);
        }
        match self.phase {
            Phase::Waiting => RetryLoop {
                policy: self.policy,
                attempts: self.attempts,
                phase: if self.attempts < self.policy.max_attempts {
                    Phase::Attempting
                } else {
                    Phase::Exhausted
                },
            },
            _ => self,
        }
    }

    /// Takes in one turn.
    pub fn step(self, turn: Turn) -> (next: Self)
        ensures
            next@ == self@.step(turn),
    {
        match turn {
            Turn::Attempted { success } => self.attempted(success),
            Turn::Elapsed => self.elapsed(),
            Turn::Unrelated => self,
        }
    }
}

/// Turns in which nothing succeeds and nothing is skipped: a failed attempt
/// at every even place, the end of the wait that follows it at every odd one.
pub open spec fn failing_rounds(turns: Seq<Turn>) -> bool {
    forall|j: int|
        0 <= j < turns.len() ==> #[trigger] turns[j] == if j % 2 == 0 {
            Turn::Attempted { success: false }
        } else {
            Turn::Elapsed
        }
}

/// Where a fresh loop stands after `len` turns of failing rounds.
pub open spec fn after_failing_rounds(policy: RetryPolicy, len: nat) -> RetryState {
    RetryState {
        policy,
        attempts: (len + 1) / 2,
        phase: if len % 2 == 1 {
            Phase::Waiting
        } else if len / 2 < policy.max_attempts {
            Phase::Attempting
        } else {
            Phase::Exhausted
        },
    }
}

/// Failing rounds lead a fresh loop through attempt and wait in turn, for as
/// long as the ceiling allows.
pub proof fn lemma_failing_rounds(policy: RetryPolicy, turns: Seq<Turn>)
    requires
        failing_rounds(turns),
        turns.len() <= 2 * policy.max_attempts,
    ensures
        RetryState::start(policy).run(turns) == after_failing_rounds(policy, turns.len()),
    decreases turns.len(),
{
    if turns.len() > 0 {
        let before = turns.drop_last();
        assert(failing_rounds(before)) by {
            assert forall|j: int| 0 <= j < before.len() implies #[trigger] before[j] == if j % 2
                == 0 {
                Turn::Attempted { success: false }
            } else {
                Turn::Elapsed
            } by {
                assert(before[j] == turns[j]);
            }
        }
        lemma_failing_rounds(policy, before);
        assert(turns.last() == turns[turns.len() - 1]);
    }
}

/// A loop never leaves the states that [`RetryState::wf`] admits, whatever
/// happens to it.
pub proof fn law_run_stays_well_formed(state: RetryState, turns: Seq<Turn>)
    requires
        state.wf(),
    ensures
        state.run(turns).wf(),
        state.run(turns).policy == state.policy,
        state.run(turns).attempts >= state.attempts,
    decreases turns.len(),
{
    if turns.len() > 0 {
        law_run_stays_well_formed(state, turns.drop_last());
    }
}

/// A loop that is over stays as it is.
pub proof fn law_final_phases_are_final(state: RetryState, turns: Seq<Turn>)
    requires
        state.finished(),
    ensures
        state.run(turns) == state,
    decreases turns.len(),
{
    if turns.len() > 0 {
        law_final_phases_are_final(state, turns.drop_last());
    }
}

/// The first attempt that succeeds ends the loop, at once and with success:
/// after `k` failed attempts, each followed by its wait, a success on attempt
/// `k + 1` is final, provided the ceiling allows that many attempts.
pub proof fn law_first_success_ends_the_loop(policy: RetryPolicy, failures: Seq<Turn>, k: nat)
    requires
        failing_rounds(failures),
        failures.len() == 2 * k,
        k < policy.max_attempts,
    ensures
        RetryState::start(policy).run(failures.push(Turn::Attempted { success: true }))
            == (RetryState { policy, attempts: k + 1, phase: Phase::Succeeded }),
{
    lemma_failing_rounds(policy, failures);
    let turns = failures.push(Turn::Attempted { success: true });
    assert(turns.drop_last() == failures);
}

/// A loop gives up after exactly as many attempts as the policy allows, and
/// not before: through failing rounds it asks for an attempt, then for a wait
/// of the policy's interval, in turn, and is exhausted when the wait after
/// the last allowed attempt is over.
pub proof fn law_exhausted_after_the_last_attempt(policy: RetryPolicy, turns: Seq<Turn>)
    requires
        failing_rounds(turns),
        turns.len() <= 2 * policy.max_attempts,
    ensures
        ({
            let state = RetryState::start(policy).run(turns);
            &&& state.attempts == (turns.len() + 1) / 2
            &&& state.pending() == if turns.len() == 2 * policy.max_attempts {
                Pending::Done { success: false }
            } else if turns.len() % 2 == 0 {
                Pending::Attempt
            } else {
                Pending::Wait { secs: policy.interval_secs }
            }
        }),
{
    lemma_failing_rounds(policy, turns);
}

} // verus!
