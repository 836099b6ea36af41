//! The canonical decision payload: entities, directions and actions.
//!
//! An action carries its actor and action-kind-specific input, and is
//! comparable for equality, since replay divergence checks compare the
//! re-executed action against the committed one byte for byte.

use vstd::prelude::*;

use crate::text::{dec_u64, decimal};

verus! {

/// Identifier of a game entity.
#[derive(Debug, Copy, Clone, PartialEq, Eq, Hash, Structural)]
pub struct EntityId(pub u64);

/// The identifier reserved for the player-controlled entity.
pub open spec fn player_id() -> EntityId {
    EntityId(0)
}

impl EntityId {
    /// The identifier reserved for the player-controlled entity.
    pub fn player() -> (r: EntityId)
        ensures
            r == player_id(),
    {
        EntityId(0)
    }
}

/// One of the eight movement directions on the grid.
#[derive(Debug, Copy, Clone, PartialEq, Eq, Hash, Structural)]
pub enum CardinalDirection {
    North,
    South,
    East,
    West,
    NorthEast,
    NorthWest,
    SouthEast,
    SouthWest,
}

/// What a character action does.
#[derive(Debug, Copy, Clone, PartialEq, Eq, Hash, Structural)]
pub enum ActionKind {
    /// Step one tile in a direction.
    Move,
    /// Spend the turn doing nothing.
    Wait,
}

/// Action-kind-specific input.
#[derive(Debug, Copy, Clone, PartialEq, Eq, Hash, Structural)]
pub enum ActionInput {
    /// No input: the kind needs none.
    Empty,
    /// A movement direction.
    Direction(CardinalDirection),
}

/// A character's decision for one turn.
#[derive(Debug, Copy, Clone, PartialEq, Eq, Hash, Structural)]
pub struct CharacterAction {
    /// The entity this action acts for.
    pub actor: EntityId,
    /// What the action does.
    pub kind: ActionKind,
    /// Input specific to the kind.
    pub input: ActionInput,
}

impl CharacterAction {
    /// Builds a character action from its parts.
    pub fn new(actor: EntityId, kind: ActionKind, input: ActionInput) -> (r: CharacterAction)
        ensures
            r == (CharacterAction { actor, kind, input }),
    {
        CharacterAction { actor, kind, input }
    }
}

/// The canonical decision payload committed to state.
#[derive(Debug, Copy, Clone, PartialEq, Eq, Hash, Structural)]
pub enum Action {
    /// An action taken by a character.
    Character(CharacterAction),
}

impl Action {
    /// The entity this action acts for.
    pub open spec fn spec_actor(self) -> EntityId {
        match self {
            Action::Character(c) => c.actor,
        }
    }

    /// Returns the entity this action acts for.
    pub fn actor(&self) -> (r: EntityId)
        ensures
            r == self.spec_actor(),
    {
        match self {
            Action::Character(c) => c.actor,
        }
    }

    /// Builds the no-op wait action for `actor`.
    pub fn wait(actor: EntityId) -> (r: Action)
        ensures
            r == wait_action(actor),
    {
        Action::Character(CharacterAction { actor, kind: ActionKind::Wait, input: ActionInput::Empty })
    }
}

/// The no-op wait action for `actor`.
pub open spec fn wait_action(actor: EntityId) -> Action {
    Action::Character(
        CharacterAction { actor, kind: ActionKind::Wait, input: ActionInput::Empty },
    )
}

/// The display name of a direction.
pub open spec fn direction_label(d: CardinalDirection) -> Seq<char> {
    match d {
        CardinalDirection::North => "north"@,
        CardinalDirection::South => "south"@,
        CardinalDirection::East => "east"@,
        CardinalDirection::West => "west"@,
        CardinalDirection::NorthEast => "northeast"@,
        CardinalDirection::NorthWest => "northwest"@,
        CardinalDirection::SouthEast => "southeast"@,
        CardinalDirection::SouthWest => "southwest"@,
    }
}

impl CardinalDirection {
    /// The display name of this direction.
    pub fn label(&self) -> (r: &'static str)
        ensures
            r@ == direction_label(*self),
    {
        match self {
            CardinalDirection::North => "north",
            CardinalDirection::South => "south",
            CardinalDirection::East => "east",
            CardinalDirection::West => "west",
            CardinalDirection::NorthEast => "northeast",
            CardinalDirection::NorthWest => "northwest",
            CardinalDirection::SouthEast => "southeast",
            CardinalDirection::SouthWest => "southwest",
        }
    }
}

/// The display form of an action: the actor, a colon, and what it does.
pub open spec fn action_label(a: Action) -> Seq<char> {
    match a {
        Action::Character(c) => "actor "@ + decimal(c.actor.0 as nat) + ": "@ + match c.kind {
            ActionKind::Wait => "wait"@,
            ActionKind::Move => "move"@ + match c.input {
                ActionInput::Direction(d) => " "@ + direction_label(d),
                ActionInput::Empty => Seq::<char>::empty(),
            },
        },
    }
}

impl Action {
    /// Renders this action for display, such as `actor 1: move north`.
    pub fn label(&self) -> (r: String)
        ensures
            r@ == action_label(*self),
    {
        match self {
            Action::Character(c) => {
                let head = "actor ".to_owned().concat(dec_u64(c.actor.0).as_str()).concat(": ");
                let r = match c.kind {
                    ActionKind::Wait => head.concat("wait"),
                    ActionKind::Move => match c.input {
                        ActionInput::Direction(d) => head.concat("move").concat(" ").concat(
                            d.label(),
                        ),
                        ActionInput::Empty => head.concat("move"),
                    },
                };
                proof {
                    assert(r@ =~= action_label(*self));
                }
                r
            },
        }
    }
}

} // verus!
