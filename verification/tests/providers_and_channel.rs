use dungeon_core::action::{Action, ActionInput, ActionKind, CardinalDirection, CharacterAction, EntityId};
use dungeon_core::channel::{InputChannel, ProvideOutcome, SubmitError};
use dungeon_core::providers::{
    decide_utility, provide_action, ProviderImpl, ReplayLog, ScoredCandidate, UtilityPolicy,
};
use dungeon_core::state::GameState;

fn empty_state() -> GameState {
    GameState {
        nonce: 0,
        turn: dungeon_core::state::TurnState { clock: 0, current_actor: EntityId(0) },
        width: 8,
        height: 8,
        actors: vec![],
        bindings: vec![],
        committed: vec![],
    }
}

#[test]
fn wait_provider_is_deterministic() {
    // Two invocations with identical state yield identical actions.
    let state = empty_state();
    let mut p = ProviderImpl::Wait;
    let first = provide_action(&mut p, EntityId(1), &state);
    let second = provide_action(&mut p, EntityId(1), &state);
    assert_eq!(first, ProvideOutcome::Ready(Action::wait(EntityId(1))));
    assert_eq!(first, second);
}

#[test]
fn utility_provider_is_deterministic() {
    let state = empty_state();
    let policy = UtilityPolicy {
        candidates: vec![
            ScoredCandidate { kind: ActionKind::Wait, input: ActionInput::Empty, score: 10 },
            ScoredCandidate {
                kind: ActionKind::Move,
                input: ActionInput::Direction(CardinalDirection::East),
                score: 90,
            },
        ],
    };
    let mut p = ProviderImpl::Utility(policy);
    let first = provide_action(&mut p, EntityId(2), &state);
    let second = provide_action(&mut p, EntityId(2), &state);
    assert_eq!(first, second);
    let expected = Action::Character(CharacterAction::new(
        EntityId(2),
        ActionKind::Move,
        ActionInput::Direction(CardinalDirection::East),
    ));
    assert_eq!(first, ProvideOutcome::Ready(expected));
}

#[test]
fn utility_breaks_ties_by_first_candidate() {
    let policy = UtilityPolicy {
        candidates: vec![
            ScoredCandidate {
                kind: ActionKind::Move,
                input: ActionInput::Direction(CardinalDirection::North),
                score: 50,
            },
            ScoredCandidate {
                kind: ActionKind::Move,
                input: ActionInput::Direction(CardinalDirection::South),
                score: 50,
            },
        ],
    };
    let a = decide_utility(&policy, EntityId(4));
    let expected = Action::Character(CharacterAction::new(
        EntityId(4),
        ActionKind::Move,
        ActionInput::Direction(CardinalDirection::North),
    ));
    assert_eq!(a, expected);
}

#[test]
fn utility_without_candidates_waits() {
    let policy = UtilityPolicy { candidates: vec![] };
    assert_eq!(decide_utility(&policy, EntityId(9)), Action::wait(EntityId(9)));
}

#[test]
fn replay_reproduces_recorded_actions_in_order() {
    let state = empty_state();
    let recorded = vec![
        Action::wait(EntityId(2)),
        Action::Character(CharacterAction::new(
            EntityId(2),
            ActionKind::Move,
            ActionInput::Direction(CardinalDirection::West),
        )),
        Action::wait(EntityId(2)),
    ];
    let mut p = ProviderImpl::Replay(ReplayLog::new(recorded.clone()));
    for expected in recorded {
        assert_eq!(provide_action(&mut p, EntityId(2), &state), ProvideOutcome::Ready(expected));
    }
    // An exhausted recording is a closed source.
    assert_eq!(provide_action(&mut p, EntityId(2), &state), ProvideOutcome::Closed);
}

#[test]
fn channel_submit_and_receive_fifo() {
    let mut ch = InputChannel::new(2);
    assert_eq!(ch.submit(Action::wait(EntityId(1))), Ok(()));
    assert_eq!(ch.submit(Action::wait(EntityId(2))), Ok(()));
    assert_eq!(ch.try_receive(), ProvideOutcome::Ready(Action::wait(EntityId(1))));
    assert_eq!(ch.try_receive(), ProvideOutcome::Ready(Action::wait(EntityId(2))));
    assert_eq!(ch.try_receive(), ProvideOutcome::Pending);
}

#[test]
fn full_channel_rejects_new_input() {
    let mut ch = InputChannel::new(1);
    assert_eq!(ch.submit(Action::wait(EntityId(1))), Ok(()));
    assert_eq!(ch.submit(Action::wait(EntityId(2))), Err(SubmitError::Full));
    // The rejected submission did not displace the queued action.
    assert_eq!(ch.try_receive(), ProvideOutcome::Ready(Action::wait(EntityId(1))));
}

#[test]
fn closed_channel_rejects_input_and_drains() {
    let mut ch = InputChannel::new(4);
    assert_eq!(ch.submit(Action::wait(EntityId(1))), Ok(()));
    ch.close();
    assert_eq!(ch.submit(Action::wait(EntityId(2))), Err(SubmitError::Closed));
    assert_eq!(ch.try_receive(), ProvideOutcome::Ready(Action::wait(EntityId(1))));
    assert_eq!(ch.try_receive(), ProvideOutcome::Closed);
}
