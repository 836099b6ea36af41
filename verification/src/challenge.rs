//! The challenge verifier: offline, deterministic re-execution.
//!
//! Given an archived state snapshot, the acting entity, the provider kind
//! recorded for it at that turn, and the action that was actually committed,
//! the verifier re-invokes the kind's deterministic implementation and
//! compares.  Divergence is a fraud signal, handed to an external resolution
//! mechanism; it is not an error of the live path.  Automated kinds replay
//! directly; interactive kinds replay only from a recorded input log, never
//! from a live channel.

use vstd::prelude::*;

use crate::action::{wait_action, Action, EntityId};
use crate::channel::ProvideOutcome;
use crate::provider::{AiKind, InteractiveKind, ProviderKind};
use crate::providers::{
    decide_utility, provide_model, utility_decision, ProviderModel, ScoredCandidate, UtilityPolicy,
};
use crate::state::GameState;

verus! {

/// The auxiliary data a challenge needs to re-execute the recorded kind.
pub enum ChallengeWitness {
    /// No auxiliary data: the kind replays from the snapshot alone.
    StateOnly,
    /// The scoring table the utility source was registered with.
    Policy(UtilityPolicy),
    /// The entry of the recorded input log for the disputed turn.
    LoggedAction(Action),
}

/// The mathematical model of a challenge witness.
pub enum WitnessModel {
    StateOnly,
    Policy(Seq<ScoredCandidate>),
    LoggedAction(Action),
}

impl View for ChallengeWitness {
    type V = WitnessModel;

    open spec fn view(&self) -> WitnessModel {
        match self {
            ChallengeWitness::StateOnly => WitnessModel::StateOnly,
            ChallengeWitness::Policy(p) => WitnessModel::Policy(p.candidates@),
            ChallengeWitness::LoggedAction(a) => WitnessModel::LoggedAction(*a),
        }
    }
}

/// What a challenge concludes.
#[derive(Debug, Copy, Clone, PartialEq, Eq, Structural)]
pub enum ChallengeVerdict {
    /// The declared source, replayed deterministically, produces exactly the
    /// committed action.
    Consistent,
    /// The declared source would have produced a different action: a fraud
    /// signal for the external penalty mechanism.
    FraudDetected,
    /// The recorded kind has no deterministic re-execution under this
    /// witness: a live interactive kind or an unknown custom kind.
    NotReplayable,
}

/// The action the recorded kind, re-executed deterministically for `e`,
/// must produce; `None` where no deterministic re-execution exists.
pub open spec fn expected_action(kind: ProviderKind, w: WitnessModel, e: EntityId) -> Option<
    Action,
> {
    match kind {
        ProviderKind::Ai(AiKind::Wait) => Some(wait_action(e)),
        ProviderKind::Ai(AiKind::Utility) => match w {
            WitnessModel::Policy(cs) => Some(utility_decision(cs, e)),
            _ => None,
        },
        ProviderKind::Interactive(InteractiveKind::Replay) => match w {
            WitnessModel::LoggedAction(a) => Some(a),
            _ => None,
        },
        _ => None,
    }
}

/// The challenge's re-execution agrees with the live automated sources:
/// the action the live source yields for an entity is exactly the action
/// the challenge expects for the matching kind and witness.  An honest
/// automated turn therefore always verifies as consistent.
pub proof fn lemma_challenge_agrees_with_live_ai(e: EntityId, cs: Seq<ScoredCandidate>)
    ensures
        expected_action(ProviderKind::Ai(AiKind::Wait), WitnessModel::StateOnly, e)
            == Some(wait_action(e)),
        provide_model(ProviderModel::Wait, e).0 == ProvideOutcome::Ready(wait_action(e)),
        expected_action(ProviderKind::Ai(AiKind::Utility), WitnessModel::Policy(cs), e)
            == Some(utility_decision(cs, e)),
        provide_model(ProviderModel::Utility(cs), e).0 == ProvideOutcome::Ready(
            utility_decision(cs, e),
        ),
{
}

/// Re-executes the deterministic implementation of `kind` for `entity`
/// against the archived snapshot and compares the result with the action
/// that was actually committed.
///
/// The verdict is a pure function of the inputs: no clock, no randomness,
/// no channel is consulted, so re-running the challenge anywhere yields the
/// same verdict.
pub fn verify_challenge(
    snapshot: &GameState,
    entity: EntityId,
    kind: ProviderKind,
    witness: &ChallengeWitness,
    recorded: &Action,
) -> (v: ChallengeVerdict)
    ensures
        v == ChallengeVerdict::Consistent <==> expected_action(kind, witness@, entity) == Some(
            *recorded,
        ),
        v == ChallengeVerdict::NotReplayable <==> expected_action(kind, witness@, entity) is None,
        v == ChallengeVerdict::FraudDetected <==> (expected_action(kind, witness@, entity) is Some
            && expected_action(kind, witness@, entity) != Some(*recorded)),
{
    let expected: Option<Action> = match kind {
        ProviderKind::Ai(AiKind::Wait) => Some(Action::wait(entity)),
        ProviderKind::Ai(AiKind::Utility) => match witness {
            ChallengeWitness::Policy(p) => Some(decide_utility(p, entity)),
            _ => None,
        },
        ProviderKind::Interactive(InteractiveKind::Replay) => match witness {
            ChallengeWitness::LoggedAction(a) => Some(*a),
            _ => None,
        },
        _ => None,
    };
    match expected {
        Option::Some(a) => {
            if a == *recorded {
                ChallengeVerdict::Consistent
            } else {
                ChallengeVerdict::FraudDetected
            }
        },
        Option::None => ChallengeVerdict::NotReplayable,
    }
}

} // verus!
