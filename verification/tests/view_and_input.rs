use dungeon_core::action::{Action, ActionInput, ActionKind, CardinalDirection, CharacterAction, EntityId};
use dungeon_core::bus::{Event, EventBus, GameStateEvent, Topic};
use dungeon_core::input::{get_movement_direction, handle_keyboard_input, Key};
use dungeon_core::state::{ActionResult, ActorState, GameState, Position, TurnState};
use dungeon_core::view::{
    log_event, poll_runtime_events, update_message_log, update_stats_panel, MessageLog, ViewModel,
    ViewModelDirty,
};

fn sample_state() -> GameState {
    GameState {
        nonce: 3,
        turn: TurnState { clock: 3, current_actor: EntityId(0) },
        width: 8,
        height: 8,
        actors: vec![
            ActorState {
                id: EntityId(0),
                position: Position { x: 2, y: 2 },
                hp: 7,
                hp_max: 12,
                mp: 1,
                mp_max: 6,
            },
            ActorState {
                id: EntityId(5),
                position: Position { x: 4, y: 4 },
                hp: 3,
                hp_max: 3,
                mp: 0,
                mp_max: 0,
            },
        ],
        bindings: vec![],
        committed: vec![],
    }
}

#[test]
fn view_model_mirrors_the_initial_state() {
    let vm = ViewModel::from_initial_state(&sample_state());
    assert_eq!(vm.turn.clock, 3);
    assert_eq!(vm.nonce, 3);
    assert_eq!(vm.player.hp, 7);
    assert_eq!(vm.player.hp_max, 12);
    assert_eq!(vm.player.position, Some(Position { x: 2, y: 2 }));
    assert_eq!(vm.actors.len(), 2);
    assert!(vm.actors[0].is_player);
    assert!(!vm.actors[1].is_player);
    assert!(!vm.desynced);
}

#[test]
fn executed_move_updates_the_view() {
    let mut vm = ViewModel::from_initial_state(&sample_state());
    let mv = Action::Character(CharacterAction::new(
        EntityId(0),
        ActionKind::Move,
        ActionInput::Direction(CardinalDirection::East),
    ));
    vm.apply_event(&Event::GameState(GameStateEvent::ActionExecuted {
        action: mv,
        action_result: ActionResult { total_damage: 0 },
    }));
    assert_eq!(vm.actors[0].position, Position { x: 3, y: 2 });
    assert_eq!(vm.player.position, Some(Position { x: 3, y: 2 }));
    assert_eq!(vm.turn.clock, 4);
    assert_eq!(vm.nonce, 4);
}

#[test]
fn stats_panel_renders_exact_texts() {
    let vm = ViewModel::from_initial_state(&sample_state());
    let panel = update_stats_panel(&vm);
    assert_eq!(panel.health.0, "HP: 7/12");
    assert_eq!(panel.mana.0, "MP: 1/6");
    assert_eq!(panel.turn.0, "Turn: 3");
}

#[test]
fn message_log_keeps_newest_first_and_bounded() {
    let mut log = MessageLog::new(2);
    log.push_text("first".to_string());
    log.push_text("second".to_string());
    log.push_text("third".to_string());
    assert_eq!(log.entries, vec!["third".to_string(), "second".to_string()]);
}

#[test]
fn log_event_renders_expected_lines() {
    let mut log = MessageLog::new(8);
    log_event(
        &Event::GameState(GameStateEvent::ActionExecuted {
            action: Action::wait(EntityId(1)),
            action_result: ActionResult { total_damage: 0 },
        }),
        &mut log,
    );
    assert_eq!(log.entries, vec!["action executed: actor 1: wait".to_string()]);
    log_event(
        &Event::GameState(GameStateEvent::ActionExecuted {
            action: Action::wait(EntityId(1)),
            action_result: ActionResult { total_damage: 9 },
        }),
        &mut log,
    );
    assert_eq!(log.entries[0], "dealt 9 damage");
    assert_eq!(log.entries[1], "action executed: actor 1: wait");
    log_event(
        &Event::GameState(GameStateEvent::StateRestored { from_nonce: 9, to_nonce: 4 }),
        &mut log,
    );
    assert_eq!(log.entries[0], "state restored: 9 -> 4");
    log_event(
        &Event::GameState(GameStateEvent::ActionFailed {
            action: Action::wait(EntityId(2)),
            error: dungeon_core::error::ActionError::UnknownActor,
        }),
        &mut log,
    );
    assert_eq!(log.entries[0], "action failed: actor 2: wait - unknown actor");
}

#[test]
fn message_panel_fills_eight_slots() {
    let mut log = MessageLog::new(16);
    log.push_text("one".to_string());
    log.push_text("two".to_string());
    let panel = update_message_log(&log);
    assert_eq!(panel.entries.len(), 8);
    assert_eq!(panel.entries[0].index, 0);
    assert_eq!(panel.entries[0].text, "two");
    assert_eq!(panel.entries[1].text, "one");
    for slot in &panel.entries[2..] {
        assert_eq!(slot.text, "");
    }
}

#[test]
fn polling_applies_events_and_marks_dirty() {
    let mut bus = EventBus::new(8);
    let mut rx = bus.subscribe(Topic::GameState);
    let mut vm = ViewModel::from_initial_state(&sample_state());
    let mut log = MessageLog::new(8);
    let mut dirty = ViewModelDirty(false);
    bus.publish(Event::GameState(GameStateEvent::ActionExecuted {
        action: Action::wait(EntityId(0)),
        action_result: ActionResult { total_damage: 0 },
    }));
    let summary = poll_runtime_events(&mut rx, &bus, &mut vm, &mut log, &mut dirty);
    assert_eq!(summary.received, 1);
    assert_eq!(summary.lagged, None);
    assert!(!summary.closed);
    assert!(dirty.0);
    assert_eq!(vm.turn.clock, 4);
    assert_eq!(log.entries.len(), 1);
}

#[test]
fn polling_a_lagged_subscription_desynchronizes_the_view() {
    let mut bus = EventBus::new(1);
    let mut rx = bus.subscribe(Topic::GameState);
    let mut vm = ViewModel::from_initial_state(&sample_state());
    let mut log = MessageLog::new(8);
    let mut dirty = ViewModelDirty(false);
    for i in 0..3 {
        bus.publish(Event::GameState(GameStateEvent::ActionExecuted {
            action: Action::wait(EntityId(i)),
            action_result: ActionResult { total_damage: 0 },
        }));
    }
    let summary = poll_runtime_events(&mut rx, &bus, &mut vm, &mut log, &mut dirty);
    assert_eq!(summary.received, 0);
    assert_eq!(summary.lagged, Some(2));
    assert!(vm.desynced);
    assert!(!dirty.0);
    assert!(log.entries.is_empty());
}

#[test]
fn movement_keys_map_by_priority() {
    assert_eq!(get_movement_direction(&vec![Key::ArrowUp]), Some(CardinalDirection::North));
    assert_eq!(get_movement_direction(&vec![Key::KeyJ]), Some(CardinalDirection::South));
    assert_eq!(get_movement_direction(&vec![Key::Numpad7]), Some(CardinalDirection::NorthWest));
    assert_eq!(get_movement_direction(&vec![Key::KeyN]), Some(CardinalDirection::SouthEast));
    // Arrows take priority over letters.
    assert_eq!(
        get_movement_direction(&vec![Key::KeyS, Key::ArrowUp]),
        Some(CardinalDirection::North)
    );
    assert_eq!(get_movement_direction(&vec![Key::Space]), None);
    assert_eq!(get_movement_direction(&vec![]), None);
}

#[test]
fn keyboard_input_acts_only_on_the_player_turn() {
    let keys = vec![Key::ArrowLeft];
    assert!(handle_keyboard_input(&keys, EntityId(3)).is_empty());
    let actions = handle_keyboard_input(&keys, EntityId::player());
    assert_eq!(
        actions,
        vec![Action::Character(CharacterAction::new(
            EntityId::player(),
            ActionKind::Move,
            ActionInput::Direction(CardinalDirection::West),
        ))]
    );
}

#[test]
fn space_asks_for_a_wait_action() {
    let actions = handle_keyboard_input(&vec![Key::Space], EntityId::player());
    assert_eq!(actions, vec![Action::wait(EntityId::player())]);
    let both = handle_keyboard_input(&vec![Key::Period, Key::ArrowUp], EntityId::player());
    assert_eq!(both.len(), 2);
    assert_eq!(both[1], Action::wait(EntityId::player()));
}
