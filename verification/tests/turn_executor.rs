use dungeon_core::action::{Action, ActionInput, ActionKind, CardinalDirection, CharacterAction, EntityId};
use dungeon_core::bus::{Event, GameStateEvent, RecvOutcome, Topic};
use dungeon_core::channel::InputChannel;
use dungeon_core::error::{ActionError, RuntimeError};
use dungeon_core::executor::{Runtime, TurnOutcome};
use dungeon_core::provider::{AiKind, InteractiveKind, ProviderKind};
use dungeon_core::providers::{ProviderImpl, ReplayLog};
use dungeon_core::registry::InputRejected;
use dungeon_core::state::{ActionResult, ActorState, GameState, Position, TurnState};

fn state_with(actors: Vec<ActorState>, current: EntityId) -> GameState {
    GameState {
        nonce: 0,
        turn: TurnState { clock: 0, current_actor: current },
        width: 8,
        height: 8,
        actors,
        bindings: vec![],
        committed: vec![],
    }
}

fn actor(id: u64, x: u32, y: u32) -> ActorState {
    ActorState { id: EntityId(id), position: Position { x, y }, hp: 10, hp_max: 10, mp: 5, mp_max: 5 }
}

#[test]
fn wait_binding_executes_noop_wait() {
    // Bind entity 1 to the wait AI and run a turn: a wait action, no error.
    let mut rt = Runtime::new(state_with(vec![actor(1, 3, 3)], EntityId(1)), 8);
    rt.register_provider(ProviderKind::Ai(AiKind::Wait), ProviderImpl::Wait).unwrap();
    rt.bind_entity_provider(EntityId(1), ProviderKind::Ai(AiKind::Wait)).unwrap();
    let outcome = rt.execute_turn();
    assert_eq!(
        outcome,
        TurnOutcome::Committed {
            action: Action::wait(EntityId(1)),
            result: ActionResult { total_damage: 0 },
        }
    );
    let s = rt.query_state();
    assert_eq!(s.nonce, 1);
    assert_eq!(s.committed, vec![Action::wait(EntityId(1))]);
}

#[test]
fn replay_binding_reproduces_three_recorded_actions() {
    // Bind entity 2 to a replay of 3 recorded actions: three successive
    // turns must reproduce exactly those actions in order.
    let recorded = vec![
        Action::wait(EntityId(2)),
        Action::Character(CharacterAction::new(
            EntityId(2),
            ActionKind::Move,
            ActionInput::Direction(CardinalDirection::East),
        )),
        Action::wait(EntityId(2)),
    ];
    let mut rt = Runtime::new(state_with(vec![actor(2, 1, 1)], EntityId(2)), 8);
    let kind = ProviderKind::Interactive(InteractiveKind::Replay);
    rt.register_provider(kind, ProviderImpl::Replay(ReplayLog::new(recorded.clone()))).unwrap();
    rt.bind_entity_provider(EntityId(2), kind).unwrap();
    for expected in &recorded {
        match rt.execute_turn() {
            TurnOutcome::Committed { action, .. } => assert_eq!(action, *expected),
            other => panic!("turn did not commit: {:?}", other),
        }
    }
    assert_eq!(rt.query_state().committed, recorded);
    // The exhausted recording is terminal.
    assert_eq!(rt.execute_turn(), TurnOutcome::Aborted(RuntimeError::ProviderChannelClosed));
}

#[test]
fn crafted_action_with_wrong_actor_is_rejected_and_never_applied() {
    let mut rt = Runtime::new(state_with(vec![actor(1, 3, 3), actor(7, 4, 4)], EntityId(1)), 8);
    let kind = ProviderKind::Interactive(InteractiveKind::CliInput);
    rt.register_provider(kind, ProviderImpl::Channel(InputChannel::new(4))).unwrap();
    rt.bind_entity_provider(EntityId(1), kind).unwrap();
    // A crafted action claiming to act for entity 7 while entity 1 acts.
    rt.submit_input(kind, Action::wait(EntityId(7))).unwrap();
    let before = rt.query_state();
    let outcome = rt.execute_turn();
    assert_eq!(
        outcome,
        TurnOutcome::Aborted(RuntimeError::ActorMismatch {
            expected: EntityId(1),
            got: EntityId(7),
        })
    );
    let after = rt.query_state();
    assert_eq!(before, after);
    assert_eq!(after.nonce, 0);
    assert!(after.committed.is_empty());
}

#[test]
fn binding_unregistered_kind_fails_without_partial_mutation() {
    let mut rt = Runtime::new(state_with(vec![actor(1, 3, 3)], EntityId(1)), 8);
    let kind = ProviderKind::Ai(AiKind::Utility);
    let before = rt.query_state();
    let r = rt.bind_entity_provider(EntityId(1), kind);
    assert_eq!(r, Err(RuntimeError::UnknownProviderKind(kind)));
    // The binding table was not touched, not even partially.
    assert_eq!(rt.query_state(), before);
    assert!(rt.query_state().bindings.is_empty());
}

#[test]
fn closing_channel_while_awaiting_resolves_with_channel_closed() {
    // A turn awaiting an interactive provider is pending; closing the
    // provider's channel resolves the await with ProviderChannelClosed
    // instead of hanging.
    let mut rt = Runtime::new(state_with(vec![actor(1, 3, 3)], EntityId(1)), 8);
    let kind = ProviderKind::Interactive(InteractiveKind::BevyInput);
    rt.register_provider(kind, ProviderImpl::Channel(InputChannel::new(4))).unwrap();
    rt.bind_entity_provider(EntityId(1), kind).unwrap();
    assert_eq!(rt.execute_turn(), TurnOutcome::Pending);
    rt.close_provider(kind).unwrap();
    assert_eq!(rt.execute_turn(), TurnOutcome::Aborted(RuntimeError::ProviderChannelClosed));
    // The condition is terminal, not retryable.
    assert_eq!(rt.execute_turn(), TurnOutcome::Aborted(RuntimeError::ProviderChannelClosed));
}

#[test]
fn unbound_entity_aborts_turn() {
    let mut rt = Runtime::new(state_with(vec![actor(1, 3, 3)], EntityId(1)), 8);
    assert_eq!(rt.execute_turn(), TurnOutcome::Aborted(RuntimeError::UnboundEntity(EntityId(1))));
}

#[test]
fn duplicate_provider_is_refused_at_setup() {
    let mut rt = Runtime::new(state_with(vec![actor(1, 3, 3)], EntityId(1)), 8);
    let kind = ProviderKind::Ai(AiKind::Wait);
    rt.register_provider(kind, ProviderImpl::Wait).unwrap();
    let r = rt.register_provider(kind, ProviderImpl::Wait);
    assert_eq!(r, Err(RuntimeError::DuplicateProvider(kind)));
}

#[test]
fn committed_turn_publishes_executed_event_and_action_ref() {
    let mut rt = Runtime::new(state_with(vec![actor(1, 3, 3)], EntityId(1)), 8);
    rt.register_provider(ProviderKind::Ai(AiKind::Wait), ProviderImpl::Wait).unwrap();
    rt.bind_entity_provider(EntityId(1), ProviderKind::Ai(AiKind::Wait)).unwrap();
    let mut game_rx = rt.subscribe(Topic::GameState);
    let mut ref_rx = rt.subscribe(Topic::ActionRef);
    rt.execute_turn();
    assert_eq!(
        game_rx.try_receive(rt.bus.channel(Topic::GameState)),
        RecvOutcome::Received(Event::GameState(GameStateEvent::ActionExecuted {
            action: Action::wait(EntityId(1)),
            action_result: ActionResult { total_damage: 0 },
        }))
    );
    match ref_rx.try_receive(rt.bus.channel(Topic::ActionRef)) {
        RecvOutcome::Received(Event::ActionRef(r)) => assert_eq!(r.nonce, 0),
        other => panic!("no action reference: {:?}", other),
    }
}

#[test]
fn rule_rejection_publishes_failed_event_and_keeps_state() {
    // Entity 1 stands at the west edge; moving west is out of bounds.
    let mut rt = Runtime::new(state_with(vec![actor(1, 0, 4)], EntityId(1)), 8);
    let kind = ProviderKind::Interactive(InteractiveKind::CliInput);
    rt.register_provider(kind, ProviderImpl::Channel(InputChannel::new(4))).unwrap();
    rt.bind_entity_provider(EntityId(1), kind).unwrap();
    let bad_move = Action::Character(CharacterAction::new(
        EntityId(1),
        ActionKind::Move,
        ActionInput::Direction(CardinalDirection::West),
    ));
    rt.submit_input(kind, bad_move).unwrap();
    let mut game_rx = rt.subscribe(Topic::GameState);
    let before = rt.query_state();
    let outcome = rt.execute_turn();
    assert_eq!(outcome, TurnOutcome::Rejected { action: bad_move, error: ActionError::OutOfBounds });
    assert_eq!(rt.query_state(), before);
    assert_eq!(
        game_rx.try_receive(rt.bus.channel(Topic::GameState)),
        RecvOutcome::Received(Event::GameState(GameStateEvent::ActionFailed {
            action: bad_move,
            error: ActionError::OutOfBounds,
        }))
    );
}

#[test]
fn committed_move_updates_the_actor_position() {
    let mut rt = Runtime::new(state_with(vec![actor(1, 3, 3)], EntityId(1)), 8);
    let kind = ProviderKind::Interactive(InteractiveKind::NetworkInput);
    rt.register_provider(kind, ProviderImpl::Channel(InputChannel::new(4))).unwrap();
    rt.bind_entity_provider(EntityId(1), kind).unwrap();
    let mv = Action::Character(CharacterAction::new(
        EntityId(1),
        ActionKind::Move,
        ActionInput::Direction(CardinalDirection::NorthEast),
    ));
    rt.submit_input(kind, mv).unwrap();
    match rt.execute_turn() {
        TurnOutcome::Committed { action, .. } => assert_eq!(action, mv),
        other => panic!("turn did not commit: {:?}", other),
    }
    let s = rt.query_state();
    assert_eq!(s.actors[0].position, Position { x: 4, y: 4 });
    assert_eq!(s.turn.clock, 1);
    assert_eq!(s.nonce, 1);
}

#[test]
fn submitting_input_for_wrong_kinds_is_rejected() {
    let mut rt = Runtime::new(state_with(vec![actor(1, 3, 3)], EntityId(1)), 8);
    rt.register_provider(ProviderKind::Ai(AiKind::Wait), ProviderImpl::Wait).unwrap();
    assert_eq!(
        rt.submit_input(ProviderKind::Custom(3), Action::wait(EntityId(1))),
        Err(InputRejected::UnknownKind)
    );
    assert_eq!(
        rt.submit_input(ProviderKind::Ai(AiKind::Wait), Action::wait(EntityId(1))),
        Err(InputRejected::NotInteractive)
    );
    let kind = ProviderKind::Interactive(InteractiveKind::CliInput);
    rt.register_provider(kind, ProviderImpl::Channel(InputChannel::new(1))).unwrap();
    assert_eq!(rt.submit_input(kind, Action::wait(EntityId(1))), Ok(()));
    assert_eq!(rt.submit_input(kind, Action::wait(EntityId(1))), Err(InputRejected::Full));
    rt.close_provider(kind).unwrap();
    assert_eq!(rt.submit_input(kind, Action::wait(EntityId(1))), Err(InputRejected::Closed));
}

#[test]
fn rebinding_on_handoff_overwrites_the_binding() {
    let mut rt = Runtime::new(state_with(vec![actor(1, 3, 3)], EntityId(1)), 8);
    rt.register_provider(ProviderKind::Ai(AiKind::Wait), ProviderImpl::Wait).unwrap();
    let kind = ProviderKind::Interactive(InteractiveKind::CliInput);
    rt.register_provider(kind, ProviderImpl::Channel(InputChannel::new(2))).unwrap();
    rt.bind_entity_provider(EntityId(1), kind).unwrap();
    rt.bind_entity_provider(EntityId(1), ProviderKind::Ai(AiKind::Wait)).unwrap();
    let s = rt.query_state();
    assert_eq!(s.bindings.len(), 1);
    assert_eq!(s.binding(EntityId(1)), Some(ProviderKind::Ai(AiKind::Wait)));
}

#[test]
fn snapshot_carries_bindings_for_replay() {
    // A snapshot is self-describing: it holds the bound kind per entity.
    let mut rt = Runtime::new(state_with(vec![actor(1, 3, 3)], EntityId(1)), 8);
    rt.register_provider(ProviderKind::Ai(AiKind::Wait), ProviderImpl::Wait).unwrap();
    rt.bind_entity_provider(EntityId(1), ProviderKind::Ai(AiKind::Wait)).unwrap();
    let snapshot = rt.query_state();
    assert_eq!(snapshot.binding(EntityId(1)), Some(ProviderKind::Ai(AiKind::Wait)));
    assert_eq!(snapshot.binding(EntityId(2)), None);
}

#[test]
fn shutdown_closes_providers_and_bus() {
    let mut rt = Runtime::new(state_with(vec![actor(1, 3, 3)], EntityId(1)), 8);
    let kind = ProviderKind::Interactive(InteractiveKind::CliInput);
    rt.register_provider(kind, ProviderImpl::Channel(InputChannel::new(2))).unwrap();
    rt.bind_entity_provider(EntityId(1), kind).unwrap();
    let mut rx = rt.subscribe(Topic::GameState);
    rt.shutdown();
    assert_eq!(rt.execute_turn(), TurnOutcome::Aborted(RuntimeError::ProviderChannelClosed));
    assert_eq!(rx.try_receive(rt.bus.channel(Topic::GameState)), RecvOutcome::Closed);
    assert_eq!(rt.submit_input(kind, Action::wait(EntityId(1))), Err(InputRejected::Closed));
}

#[test]
fn restore_state_announces_both_nonces() {
    let mut rt = Runtime::new(state_with(vec![actor(1, 3, 3)], EntityId(1)), 8);
    rt.register_provider(ProviderKind::Ai(AiKind::Wait), ProviderImpl::Wait).unwrap();
    rt.bind_entity_provider(EntityId(1), ProviderKind::Ai(AiKind::Wait)).unwrap();
    rt.execute_turn();
    rt.execute_turn();
    let mut rx = rt.subscribe(Topic::GameState);
    let archived = state_with(vec![actor(1, 3, 3)], EntityId(1));
    rt.restore_state(archived);
    assert_eq!(rt.query_state().nonce, 0);
    assert_eq!(
        rx.try_receive(rt.bus.channel(Topic::GameState)),
        RecvOutcome::Received(Event::GameState(GameStateEvent::StateRestored {
            from_nonce: 2,
            to_nonce: 0,
        }))
    );
}
