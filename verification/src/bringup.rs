//! The one-shot bring-up state machine of the access point.
//!
//! The machine only decides: the caller performs the action that
//! [`BringupState::next_action`] names and reports whether it succeeded to
//! [`BringupState::advance`].

use vstd::prelude::*;

verus! {

/// Why a bring-up ended in failure.
#[derive(Clone, Copy, Debug, PartialEq, Eq, Structural)]
pub enum BringupError {
    /// The radio subsystem refused the configuration.
    ConfigurationRejected,
    /// The radio could not be started.
    StartFailed,
    /// The network interface did not come up in time.
    LinkWaitTimedOut,
}

/// Where a bring-up stands.
#[derive(Clone, Copy, Debug, PartialEq, Eq, Structural)]
pub enum BringupState {
    Idle,
    Configured,
    Started,
    LinkUp,
    Failed(BringupError),
}

/// What the caller has to do to move a bring-up forward.
#[derive(Clone, Copy, Debug, PartialEq, Eq, Structural)]
pub enum BringupAction {
    /// Hand the configuration to the radio subsystem.
    ApplyConfiguration,
    /// Start broadcasting.
    StartRadio,
    /// Wait until the network interface has an address.
    WaitForLink,
}

impl BringupError {
    /// A reason fit for a startup log.
    pub fn message(&self) -> (text: &'static str)
        ensures
            text@ == match *self {
                BringupError::ConfigurationRejected => "configuration rejected by the radio subsystem"@,
                BringupError::StartFailed => "access point failed to start"@,
                BringupError::LinkWaitTimedOut => "timed out waiting for the network interface"@,
            },
    {
        match self {
            BringupError::ConfigurationRejected => "configuration rejected by the radio subsystem",
            BringupError::StartFailed => "access point failed to start",
            BringupError::LinkWaitTimedOut => "timed out waiting for the network interface",
        }
    }
}

impl BringupState {
    /// How far along a state is: every transition out of a state that is not
    /// terminal raises the rank.
    pub open spec fn rank(self) -> nat {
        match self {
            BringupState::Idle => 0,
            BringupState::Configured => 1,
            BringupState::Started => 2,
            BringupState::LinkUp => 3,
            BringupState::Failed(_) => 3,
        }
    }

    pub open spec fn spec_is_terminal(self) -> bool {
        self is LinkUp || self is Failed
    }

    pub open spec fn spec_next_action(self) -> Option<BringupAction> {
        match self {
            BringupState::Idle => Some(BringupAction::ApplyConfiguration),
            BringupState::Configured => Some(BringupAction::StartRadio),
            BringupState::Started => Some(BringupAction::WaitForLink),
            BringupState::LinkUp => None,
            BringupState::Failed(_) => None,
        }
    }

    /// The state that follows `self` once the pending action has succeeded
    /// or failed. Terminal states stay as they are.
    pub open spec fn spec_advance(self, succeeded: bool) -> BringupState {
        match self {
            BringupState::Idle => if succeeded {
                BringupState::Configured
            } else {
                BringupState::Failed(BringupError::ConfigurationRejected)
            },
            BringupState::Configured => if succeeded {
                BringupState::Started
            } else {
                BringupState::Failed(BringupError::StartFailed)
            },
            BringupState::Started => if succeeded {
                BringupState::LinkUp
            } else {
                BringupState::Failed(BringupError::LinkWaitTimedOut)
            },
            BringupState::LinkUp => self,
            BringupState::Failed(_) => self,
        }
    }

    /// The state reached from `self` after the outcomes in `outcomes`, in
    /// order.
    pub open spec fn after(self, outcomes: Seq<bool>) -> BringupState
        decreases outcomes.len(),
    {
        if outcomes.len() == 0 {
            self
        } else {
            self.after(outcomes.drop_last()).spec_advance(outcomes.last())
        }
    }

    /// A bring-up starts here.
    pub fn new() -> (state: BringupState)
        ensures
            state == BringupState::Idle,
    {
        BringupState::Idle
    }

    /// Whether the bring-up has ended, in success or in failure.
    pub fn is_terminal(&self) -> (ended: bool)
        ensures
            ended == self.spec_is_terminal(),
            ended == (self.spec_next_action() is None),
    {
        match self {
            BringupState::LinkUp => true,
            BringupState::Failed(_) => true,
            _ => false,
        }
    }

    /// The action that the caller performs next, or `None` once the
    /// bring-up has ended.
    pub fn next_action(&self) -> (action: Option<BringupAction>)
        ensures
            action == self.spec_next_action(),
    {
        match self {
            BringupState::Idle => Some(BringupAction::ApplyConfiguration),
            BringupState::Configured => Some(BringupAction::StartRadio),
            BringupState::Started => Some(BringupAction::WaitForLink),
            BringupState::LinkUp => None,
            BringupState::Failed(_) => None,
        }
    }

    /// Moves on after the pending action: to the next stage if it
    /// succeeded, to the failure of that stage if it did not.
    pub fn advance(self, succeeded: bool) -> (next: BringupState)
        ensures
            next == self.spec_advance(succeeded),
    {
        match self {
            BringupState::Idle => if succeeded {
                BringupState::Configured
            } else {
                BringupState::Failed(BringupError::ConfigurationRejected)
            },
            BringupState::Configured => if succeeded {
                BringupState::Started
            } else {
                BringupState::Failed(BringupError::StartFailed)
            },
            BringupState::Started => if succeeded {
                BringupState::LinkUp
            } else {
                BringupState::Failed(BringupError::LinkWaitTimedOut)
            },
            BringupState::LinkUp => self,
            BringupState::Failed(_) => self,
        }
    }

    /// Whether the best-effort stability tuning of the radio (power save
    /// off, transmit power raised) is due: exactly on entering `Started`.
    /// Its failure is not an outcome of the machine.
    pub fn wants_stability_tuning(&self) -> (due: bool)
        ensures
            due == (*self == BringupState::Started),
    {
        match self {
            BringupState::Started => true,
            _ => false,
        }
    }

    /// The result that a caller of the whole bring-up gets from a terminal
    /// state.
    pub fn outcome(&self) -> (result: Option<Result<(), BringupError>>)
        ensures
            result == match *self {
                BringupState::LinkUp => Some(Ok::<(), BringupError>(())),
                BringupState::Failed(reason) => Some(Err::<(), BringupError>(reason)),
                _ => None,
            },
    {
        match self {
            BringupState::LinkUp => Some(Ok(())),
            BringupState::Failed(reason) => Some(Err(*reason)),
            _ => None,
        }
    }
}

/// The machine only moves forward: a step out of a state that is not
/// terminal raises the rank, a success by exactly one, and a terminal state
/// is never left. A failure always ends the bring-up.
pub proof fn lemma_advance_moves_forward(state: BringupState, succeeded: bool)
    ensures
        state.spec_is_terminal() ==> state.spec_advance(succeeded) == state,
        !state.spec_is_terminal() ==> state.spec_advance(succeeded).rank() > state.rank(),
        !state.spec_is_terminal() && succeeded ==> state.spec_advance(succeeded).rank()
            == state.rank() + 1,
        !succeeded ==> state.spec_advance(succeeded).spec_is_terminal(),
{
}

/// Over any run of outcomes the rank never falls, so no stage is entered a
/// second time.
pub proof fn lemma_run_is_monotone(state: BringupState, outcomes: Seq<bool>, k: int)
    requires
        0 <= k <= outcomes.len(),
    ensures
        state.after(outcomes.take(k)).rank() <= state.after(outcomes).rank(),
        state.after(outcomes.take(k)).spec_is_terminal() ==> state.after(outcomes)
            == state.after(outcomes.take(k)),
    decreases outcomes.len(),
{
    if k == outcomes.len() {
        assert(outcomes.take(k) =~= outcomes);
    } else {
        let shorter = outcomes.drop_last();
        assert(shorter.take(k) =~= outcomes.take(k));
        lemma_run_is_monotone(state, shorter, k);
        lemma_advance_moves_forward(state.after(shorter), outcomes.last());
    }
}

/// From `Idle`, three outcomes decide the end: `LinkUp` exactly when all
/// three stages succeed, passing `Configured` and `Started` on the way, and
/// otherwise the failure of the first stage that failed, which is reached
/// without ever passing `LinkUp`.
pub proof fn lemma_bringup_paths(configured: bool, started: bool, linked: bool)
    ensures
        ({
            let s1 = BringupState::Idle.spec_advance(configured);
            let s2 = s1.spec_advance(started);
            let s3 = s2.spec_advance(linked);
            &&& s3 == BringupState::Idle.after(seq![configured, started, linked])
            &&& s3.spec_is_terminal()
            &&& (s3 == BringupState::LinkUp <==> configured && started && linked)
            &&& (configured && started && linked ==> s1 == BringupState::Configured && s2
                == BringupState::Started)
            &&& (!configured ==> s3 == BringupState::Failed(BringupError::ConfigurationRejected))
            &&& (configured && !started ==> s2 == BringupState::Failed(BringupError::StartFailed)
                && s3 == s2 && s1 != BringupState::LinkUp)
            &&& (configured && started && !linked ==> s3 == BringupState::Failed(
                BringupError::LinkWaitTimedOut,
            ))
        }),
{
    let run = seq![configured, started, linked];
    let two = seq![configured, started];
    let one = seq![configured];
    assert(run.drop_last() =~= two);
    assert(two.drop_last() =~= one);
    assert(one.drop_last() =~= Seq::<bool>::empty());
    reveal_with_fuel(BringupState::after, 4);
}

} // verus!
