use dungeon_core::action::{Action, ActionInput, ActionKind, CardinalDirection, CharacterAction, EntityId};
use dungeon_core::challenge::{verify_challenge, ChallengeVerdict, ChallengeWitness};
use dungeon_core::provider::{AiKind, InteractiveKind, ProviderKind};
use dungeon_core::providers::{ScoredCandidate, UtilityPolicy};
use dungeon_core::state::{GameState, TurnState};

fn snapshot() -> GameState {
    GameState {
        nonce: 17,
        turn: TurnState { clock: 17, current_actor: EntityId(1) },
        width: 8,
        height: 8,
        actors: vec![],
        bindings: vec![],
        committed: vec![],
    }
}

#[test]
fn wait_kind_consistent_with_wait_action() {
    let v = verify_challenge(
        &snapshot(),
        EntityId(1),
        ProviderKind::Ai(AiKind::Wait),
        &ChallengeWitness::StateOnly,
        &Action::wait(EntityId(1)),
    );
    assert_eq!(v, ChallengeVerdict::Consistent);
}

#[test]
fn wait_kind_detects_divergence_as_fraud() {
    let committed = Action::Character(CharacterAction::new(
        EntityId(1),
        ActionKind::Move,
        ActionInput::Direction(CardinalDirection::North),
    ));
    let v = verify_challenge(
        &snapshot(),
        EntityId(1),
        ProviderKind::Ai(AiKind::Wait),
        &ChallengeWitness::StateOnly,
        &committed,
    );
    assert_eq!(v, ChallengeVerdict::FraudDetected);
}

#[test]
fn utility_kind_replays_from_its_policy() {
    let policy = UtilityPolicy {
        candidates: vec![
            ScoredCandidate { kind: ActionKind::Wait, input: ActionInput::Empty, score: 5 },
            ScoredCandidate {
                kind: ActionKind::Move,
                input: ActionInput::Direction(CardinalDirection::South),
                score: 80,
            },
        ],
    };
    let expected = Action::Character(CharacterAction::new(
        EntityId(2),
        ActionKind::Move,
        ActionInput::Direction(CardinalDirection::South),
    ));
    let v = verify_challenge(
        &snapshot(),
        EntityId(2),
        ProviderKind::Ai(AiKind::Utility),
        &ChallengeWitness::Policy(policy),
        &expected,
    );
    assert_eq!(v, ChallengeVerdict::Consistent);
}

#[test]
fn replay_kind_compares_against_the_logged_entry() {
    let logged = Action::wait(EntityId(3));
    let v = verify_challenge(
        &snapshot(),
        EntityId(3),
        ProviderKind::Interactive(InteractiveKind::Replay),
        &ChallengeWitness::LoggedAction(logged),
        &logged,
    );
    assert_eq!(v, ChallengeVerdict::Consistent);
    let diverged = Action::wait(EntityId(4));
    let v = verify_challenge(
        &snapshot(),
        EntityId(3),
        ProviderKind::Interactive(InteractiveKind::Replay),
        &ChallengeWitness::LoggedAction(logged),
        &diverged,
    );
    assert_eq!(v, ChallengeVerdict::FraudDetected);
}

#[test]
fn live_interactive_kinds_are_not_replayable() {
    for kind in [
        ProviderKind::Interactive(InteractiveKind::CliInput),
        ProviderKind::Interactive(InteractiveKind::BevyInput),
        ProviderKind::Interactive(InteractiveKind::NetworkInput),
        ProviderKind::Custom(5),
    ] {
        let v = verify_challenge(
            &snapshot(),
            EntityId(1),
            kind,
            &ChallengeWitness::StateOnly,
            &Action::wait(EntityId(1)),
        );
        assert_eq!(v, ChallengeVerdict::NotReplayable);
    }
}

#[test]
fn mismatched_witness_is_not_replayable() {
    let v = verify_challenge(
        &snapshot(),
        EntityId(1),
        ProviderKind::Ai(AiKind::Utility),
        &ChallengeWitness::StateOnly,
        &Action::wait(EntityId(1)),
    );
    assert_eq!(v, ChallengeVerdict::NotReplayable);
}

#[test]
fn verdict_is_reproducible() {
    // The verifier is a pure function of its inputs: re-running the same
    // challenge yields the same verdict.
    let committed = Action::wait(EntityId(1));
    let first = verify_challenge(
        &snapshot(),
        EntityId(1),
        ProviderKind::Ai(AiKind::Wait),
        &ChallengeWitness::StateOnly,
        &committed,
    );
    let second = verify_challenge(
        &snapshot(),
        EntityId(1),
        ProviderKind::Ai(AiKind::Wait),
        &ChallengeWitness::StateOnly,
        &committed,
    );
    assert_eq!(first, second);
}
