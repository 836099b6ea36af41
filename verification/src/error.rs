//! The error taxonomy of the runtime core.
//!
//! Setup-time errors abort startup; turn-time errors abort the single turn
//! and are reported upward; no error may corrupt canonical state.

use vstd::prelude::*;

use crate::action::EntityId;
use crate::provider::ProviderKind;

verus! {

/// An error of the live execution path.
#[derive(Debug, Copy, Clone, PartialEq, Eq, Structural)]
pub enum RuntimeError {
    /// Setup: a callable is already installed for this kind in this process.
    DuplicateProvider(ProviderKind),
    /// Setup or turn: no callable is registered for this kind.
    UnknownProviderKind(ProviderKind),
    /// Turn: the acting entity has no provider binding.
    UnboundEntity(EntityId),
    /// Turn: the provider returned an action for a different entity.
    ActorMismatch { expected: EntityId, got: EntityId },
    /// Turn: the provider's input channel is closed; the provider will no
    /// longer act, which is terminal for the entity until it is rebound.
    ProviderChannelClosed,
}

impl RuntimeError {
    /// The display name of this error.
    pub fn label(&self) -> (r: &'static str)
        ensures
            r@ == error_label(*self),
    {
        match self {
            RuntimeError::DuplicateProvider(_) => "duplicate provider",
            RuntimeError::UnknownProviderKind(_) => "unknown provider kind",
            RuntimeError::UnboundEntity(_) => "unbound entity",
            RuntimeError::ActorMismatch { .. } => "actor mismatch",
            RuntimeError::ProviderChannelClosed => "provider channel closed",
        }
    }
}

/// The display name of a runtime error.
pub open spec fn error_label(e: RuntimeError) -> Seq<char> {
    match e {
        RuntimeError::DuplicateProvider(_) => "duplicate provider"@,
        RuntimeError::UnknownProviderKind(_) => "unknown provider kind"@,
        RuntimeError::UnboundEntity(_) => "unbound entity"@,
        RuntimeError::ActorMismatch { .. } => "actor mismatch"@,
        RuntimeError::ProviderChannelClosed => "provider channel closed"@,
    }
}

/// A game-rule rejection raised by the commit step; it aborts the turn
/// without corrupting state and is reported as an `ActionFailed` event.
#[derive(Debug, Copy, Clone, PartialEq, Eq, Structural)]
pub enum ActionError {
    /// The acting entity is not part of the state.
    UnknownActor,
    /// The movement would leave the grid.
    OutOfBounds,
    /// The action kind needs an input that was not supplied.
    MissingInput,
}

impl ActionError {
    /// The display name of this rejection.
    pub fn label(&self) -> (r: &'static str)
        ensures
            r@ == action_error_label(*self),
    {
        match self {
            ActionError::UnknownActor => "unknown actor",
            ActionError::OutOfBounds => "out of bounds",
            ActionError::MissingInput => "missing input",
        }
    }
}

/// The display name of a game-rule rejection.
pub open spec fn action_error_label(e: ActionError) -> Seq<char> {
    match e {
        ActionError::UnknownActor => "unknown actor"@,
        ActionError::OutOfBounds => "out of bounds"@,
        ActionError::MissingInput => "missing input"@,
    }
}

} // verus!
