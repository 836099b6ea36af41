//! Keyboard input decisions for the player-controlled entity.
//!
//! The frontend reports which keys were just pressed; this module decides
//! which actions those presses ask for.  Submitting them to the runtime, and
//! reading the keyboard itself, stay with the frontend.

use vstd::prelude::*;

use crate::action::{
    player_id, wait_action, Action, ActionInput, ActionKind, CardinalDirection, CharacterAction,
    EntityId,
};

verus! {

/// A key the game reacts to.
#[derive(Debug, Copy, Clone, PartialEq, Eq, Hash, Structural)]
pub enum Key {
    ArrowUp,
    ArrowDown,
    ArrowLeft,
    ArrowRight,
    KeyW,
    KeyA,
    KeyS,
    KeyD,
    KeyH,
    KeyJ,
    KeyK,
    KeyL,
    KeyY,
    KeyU,
    KeyB,
    KeyN,
    Numpad1,
    Numpad3,
    Numpad7,
    Numpad9,
    Space,
    Period,
}

/// The movement direction asked for by the pressed keys, by priority:
/// arrows first, then the letter keys, then the numpad diagonals, then the
/// letter diagonals.
pub open spec fn movement_direction(keys: Seq<Key>) -> Option<CardinalDirection> {
    if keys.contains(Key::ArrowUp) {
        Some(CardinalDirection::North)
    } else if keys.contains(Key::ArrowDown) {
        Some(CardinalDirection::South)
    } else if keys.contains(Key::ArrowRight) {
        Some(CardinalDirection::East)
    } else if keys.contains(Key::ArrowLeft) {
        Some(CardinalDirection::West)
    } else if keys.contains(Key::KeyW) || keys.contains(Key::KeyK) {
        Some(CardinalDirection::North)
    } else if keys.contains(Key::KeyS) || keys.contains(Key::KeyJ) {
        Some(CardinalDirection::South)
    } else if keys.contains(Key::KeyD) || keys.contains(Key::KeyL) {
        Some(CardinalDirection::East)
    } else if keys.contains(Key::KeyA) || keys.contains(Key::KeyH) {
        Some(CardinalDirection::West)
    } else if keys.contains(Key::Numpad7) {
        Some(CardinalDirection::NorthWest)
    } else if keys.contains(Key::Numpad9) {
        Some(CardinalDirection::NorthEast)
    } else if keys.contains(Key::Numpad1) {
        Some(CardinalDirection::SouthWest)
    } else if keys.contains(Key::Numpad3) {
        Some(CardinalDirection::SouthEast)
    } else if keys.contains(Key::KeyY) {
        Some(CardinalDirection::NorthWest)
    } else if keys.contains(Key::KeyU) {
        Some(CardinalDirection::NorthEast)
    } else if keys.contains(Key::KeyB) {
        Some(CardinalDirection::SouthWest)
    } else if keys.contains(Key::KeyN) {
        Some(CardinalDirection::SouthEast)
    } else {
        None
    }
}

/// The actions the pressed keys ask the runtime to submit for the player:
/// a movement first where one is asked for, then a wait where the space bar
/// or the period was pressed — and nothing at all while it is not the
/// player's turn.
pub open spec fn keyboard_actions(keys: Seq<Key>, current_actor: EntityId) -> Seq<Action> {
    if current_actor != player_id() {
        Seq::empty()
    } else {
        let moves = match movement_direction(keys) {
            Some(d) => seq![
                Action::Character(
                    CharacterAction {
                        actor: player_id(),
                        kind: ActionKind::Move,
                        input: ActionInput::Direction(d),
                    },
                ),
            ],
            None => Seq::empty(),
        };
        if keys.contains(Key::Space) || keys.contains(Key::Period) {
            moves.push(wait_action(player_id()))
        } else {
            moves
        }
    }
}

/// Whether `k` is among the pressed keys.
fn pressed(keys: &Vec<Key>, k: Key) -> (r: bool)
    ensures
        r == keys@.contains(k),
{
    let n = keys.len();
    let mut i: usize = 0;
    while i < n
        invariant
            n == keys@.len(),
            0 <= i <= n,
            forall|j: int| 0 <= j < i ==> keys@[j] != k,
        decreases n - i,
    {
        if keys[i] == k {
            return true;
        }
        i = i + 1;
    }
    proof {
        assert(!keys@.contains(k));
    }
    false
}

/// Maps the just-pressed keys to the movement direction they ask for.
pub fn get_movement_direction(keys: &Vec<Key>) -> (r: Option<CardinalDirection>)
    ensures
        r == movement_direction(keys@),
{
    if pressed(keys, Key::ArrowUp) {
        Some(CardinalDirection::North)
    } else if pressed(keys, Key::ArrowDown) {
        Some(CardinalDirection::South)
    } else if pressed(keys, Key::ArrowRight) {
        Some(CardinalDirection::East)
    } else if pressed(keys, Key::ArrowLeft) {
        Some(CardinalDirection::West)
    } else if pressed(keys, Key::KeyW) || pressed(keys, Key::KeyK) {
        Some(CardinalDirection::North)
    } else if pressed(keys, Key::KeyS) || pressed(keys, Key::KeyJ) {
        Some(CardinalDirection::South)
    } else if pressed(keys, Key::KeyD) || pressed(keys, Key::KeyL) {
        Some(CardinalDirection::East)
    } else if pressed(keys, Key::KeyA) || pressed(keys, Key::KeyH) {
        Some(CardinalDirection::West)
    } else if pressed(keys, Key::Numpad7) {
        Some(CardinalDirection::NorthWest)
    } else if pressed(keys, Key::Numpad9) {
        Some(CardinalDirection::NorthEast)
    } else if pressed(keys, Key::Numpad1) {
        Some(CardinalDirection::SouthWest)
    } else if pressed(keys, Key::Numpad3) {
        Some(CardinalDirection::SouthEast)
    } else if pressed(keys, Key::KeyY) {
        Some(CardinalDirection::NorthWest)
    } else if pressed(keys, Key::KeyU) {
        Some(CardinalDirection::NorthEast)
    } else if pressed(keys, Key::KeyB) {
        Some(CardinalDirection::SouthWest)
    } else if pressed(keys, Key::KeyN) {
        Some(CardinalDirection::SouthEast)
    } else {
        None
    }
}

/// Decides which actions the just-pressed keys submit for the player, in
/// submission order; while it is not the player's turn nothing is
/// submitted.
pub fn handle_keyboard_input(keys: &Vec<Key>, current_actor: EntityId) -> (r: Vec<Action>)
    ensures
        r@ == keyboard_actions(keys@, current_actor),
{
    let mut r: Vec<Action> = Vec::new();
    if current_actor != EntityId::player() {
        proof {
            assert(r@ =~= keyboard_actions(keys@, current_actor));
        }
        return r;
    }
    let dir = get_movement_direction(keys);
    match dir {
        Option::Some(d) => {
            r.push(
                Action::Character(
                    CharacterAction {
                        actor: EntityId::player(),
                        kind: ActionKind::Move,
                        input: ActionInput::Direction(d),
                    },
                ),
            );
        },
        Option::None => (),
    }
    if pressed(keys, Key::Space) || pressed(keys, Key::Period) {
        r.push(Action::wait(EntityId::player()));
    }
    proof {
        assert(r@ =~= keyboard_actions(keys@, current_actor));
    }
    r
}

} // verus!
