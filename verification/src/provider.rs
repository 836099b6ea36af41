//! Provider kinds: the closed classification of decision sources.
//!
//! The kind bound to an entity is stored in canonical state, because a
//! challenge must be able to re-execute the declared source deterministically
//! and compare its output with the committed action.  The taxonomy is closed:
//! adding a variant is a protocol change.

use vstd::prelude::*;

use crate::text::{dec_u64, decimal};

verus! {

/// Interactive input sources, fed by data arriving from outside the
/// deterministic core.  Only `Replay` can be re-executed during a challenge,
/// from a recorded input log.
#[derive(Debug, Copy, Clone, PartialEq, Eq, Hash, Structural)]
pub enum InteractiveKind {
    /// Local terminal keyboard input.
    CliInput,
    /// Graphical window input.
    BevyInput,
    /// Remote player input arriving over the network.
    NetworkInput,
    /// Actions replayed from a recorded log.
    Replay,
}

/// Automated decision makers, computed purely from state; they must be pure
/// functions of state to be replay-deterministic.
#[derive(Debug, Copy, Clone, PartialEq, Eq, Hash, Structural)]
pub enum AiKind {
    /// Always produces a no-op wait action.
    Wait,
    /// Scores a fixed list of candidate actions and picks the best.
    Utility,
}

/// The kind of decision source authorized to act for an entity.
///
/// The kind attached to an entity in state is the only authorized source of
/// actions for that entity, during live execution and during replay alike.
#[derive(Debug, Copy, Clone, PartialEq, Eq, Hash, Structural)]
pub enum ProviderKind {
    /// Sources fed from outside the deterministic core.
    Interactive(InteractiveKind),
    /// Sources computed purely from state.
    Ai(AiKind),
    /// Open extensibility slot with an opaque discriminant.
    Custom(u32),
}

/// The display name of an interactive kind.
pub open spec fn interactive_label(k: InteractiveKind) -> Seq<char> {
    match k {
        InteractiveKind::CliInput => "cli"@,
        InteractiveKind::BevyInput => "bevy"@,
        InteractiveKind::NetworkInput => "network"@,
        InteractiveKind::Replay => "replay"@,
    }
}

/// The display name of an automated kind.
pub open spec fn ai_label(k: AiKind) -> Seq<char> {
    match k {
        AiKind::Wait => "wait"@,
        AiKind::Utility => "utility"@,
    }
}

/// The display name of a provider kind: its category, a slash, and the
/// variant's own name or discriminant.
pub open spec fn kind_label(k: ProviderKind) -> Seq<char> {
    match k {
        ProviderKind::Interactive(i) => "interactive/"@ + interactive_label(i),
        ProviderKind::Ai(a) => "ai/"@ + ai_label(a),
        ProviderKind::Custom(id) => "custom/"@ + decimal(id as nat),
    }
}

impl InteractiveKind {
    /// The display name of this kind.
    pub fn label(&self) -> (r: &'static str)
        ensures
            r@ == interactive_label(*self),
    {
        match self {
            InteractiveKind::CliInput => "cli",
            InteractiveKind::BevyInput => "bevy",
            InteractiveKind::NetworkInput => "network",
            InteractiveKind::Replay => "replay",
        }
    }
}

impl AiKind {
    /// The display name of this kind.
    pub fn label(&self) -> (r: &'static str)
        ensures
            r@ == ai_label(*self),
    {
        match self {
            AiKind::Wait => "wait",
            AiKind::Utility => "utility",
        }
    }
}

impl ProviderKind {
    /// True exactly when this kind is an interactive (externally fed) source.
    pub fn is_interactive(&self) -> (r: bool)
        ensures
            r == (self is Interactive),
    {
        matches!(self, ProviderKind::Interactive(_))
    }

    /// True exactly when this kind is an automated source.
    pub fn is_ai(&self) -> (r: bool)
        ensures
            r == (self is Ai),
    {
        matches!(self, ProviderKind::Ai(_))
    }

    /// True exactly when this kind is a custom extensibility slot.
    pub fn is_custom(&self) -> (r: bool)
        ensures
            r == (self is Custom),
    {
        matches!(self, ProviderKind::Custom(_))
    }

    /// The display name of this kind, such as `interactive/cli` or `custom/7`.
    pub fn label(&self) -> (r: String)
        ensures
            r@ == kind_label(*self),
    {
        match self {
            ProviderKind::Interactive(k) => "interactive/".to_owned().concat(k.label()),
            ProviderKind::Ai(k) => "ai/".to_owned().concat(k.label()),
            ProviderKind::Custom(id) => {
                let digits = dec_u64(*id as u64);
                let r = "custom/".to_owned().concat(digits.as_str());
                proof {
                    assert(r@ == kind_label(*self));
                }
                r
            },
        }
    }
}

} // verus!
