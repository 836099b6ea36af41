//! Canonical game state and the commit step of a turn.
//!
//! The state carries, per entity, the bound provider kind, so that a snapshot
//! taken at any turn is self-describing for later replay.  Commit is atomic
//! per turn: either the action is applied, or the state is left untouched and
//! the rejection is reported.

use vstd::prelude::*;

use crate::action::{Action, ActionInput, ActionKind, CardinalDirection, EntityId};
use crate::error::ActionError;
use crate::provider::ProviderKind;

verus! {

/// A tile coordinate on the grid.
#[derive(Debug, Copy, Clone, PartialEq, Eq, Structural)]
pub struct Position {
    pub x: u32,
    pub y: u32,
}

/// The per-actor slice of canonical state.
#[derive(Debug, Copy, Clone, PartialEq, Eq, Structural)]
pub struct ActorState {
    pub id: EntityId,
    pub position: Position,
    pub hp: u32,
    pub hp_max: u32,
    pub mp: u32,
    pub mp_max: u32,
}

/// Whose turn it is, and how many turns have been played.
#[derive(Debug, Copy, Clone, PartialEq, Eq, Structural)]
pub struct TurnState {
    /// Number of committed turns.
    pub clock: u64,
    /// The entity whose action is requested next.
    pub current_actor: EntityId,
}

/// One entry of the entity-to-provider mapping persisted in state.
#[derive(Debug, Copy, Clone, PartialEq, Eq, Structural)]
pub struct Binding {
    pub entity: EntityId,
    pub kind: ProviderKind,
}

/// What the commit step reports for a successfully applied action.
#[derive(Debug, Copy, Clone, PartialEq, Eq, Structural)]
pub struct ActionResult {
    /// Damage inflicted by the action; the movement rules of this core
    /// inflict none, but consumers read the field from replayed histories.
    pub total_damage: u64,
}

/// The mathematical model of canonical state.
pub struct StateModel {
    pub nonce: u64,
    pub turn: TurnState,
    pub width: u32,
    pub height: u32,
    pub actors: Seq<ActorState>,
    pub bindings: Seq<Binding>,
    pub committed: Seq<Action>,
}

/// Canonical game state: the grid, the actors, the entity-to-provider
/// bindings, and the log of committed actions.
#[derive(Debug, PartialEq, Eq)]
pub struct GameState {
    /// Number of committed actions; indexes the next slot of `committed`.
    pub nonce: u64,
    pub turn: TurnState,
    /// Grid width in tiles.
    pub width: u32,
    /// Grid height in tiles.
    pub height: u32,
    pub actors: Vec<ActorState>,
    pub bindings: Vec<Binding>,
    /// Every action applied so far, in commit order.
    pub committed: Vec<Action>,
}

impl View for GameState {
    type V = StateModel;

    open spec fn view(&self) -> StateModel {
        StateModel {
            nonce: self.nonce,
            turn: self.turn,
            width: self.width,
            height: self.height,
            actors: self.actors@,
            bindings: self.bindings@,
            committed: self.committed@,
        }
    }
}

/// The index of the first binding entry for `e` at or after `i`.
pub open spec fn binding_index_from(bs: Seq<Binding>, i: int, e: EntityId) -> Option<int>
    decreases bs.len() - i,
{
    if i < 0 || i >= bs.len() {
        None
    } else if bs[i].entity == e {
        Some(i)
    } else {
        binding_index_from(bs, i + 1, e)
    }
}

/// The index of the first binding entry for `e`.
pub open spec fn binding_index_of(bs: Seq<Binding>, e: EntityId) -> Option<int> {
    binding_index_from(bs, 0, e)
}

/// The kind bound to `e`, by the first matching entry.
pub open spec fn binding_of(bs: Seq<Binding>, e: EntityId) -> Option<ProviderKind> {
    match binding_index_of(bs, e) {
        Some(i) => Some(bs[i].kind),
        None => None,
    }
}

/// The binding table after `e` is bound to `k`: the existing entry for `e`
/// is overwritten where there is one, and a new entry is appended where
/// there is none.
pub open spec fn rebound(bs: Seq<Binding>, e: EntityId, k: ProviderKind) -> Seq<Binding> {
    match binding_index_of(bs, e) {
        Some(i) => bs.update(i, Binding { entity: e, kind: k }),
        None => bs.push(Binding { entity: e, kind: k }),
    }
}

/// What the first-match index means: the entry there is `e`'s, nothing
/// before it is, and a miss means no entry anywhere is `e`'s.
proof fn lemma_binding_index_props(bs: Seq<Binding>, j: int, e: EntityId)
    requires
        0 <= j <= bs.len(),
    ensures
        match binding_index_from(bs, j, e) {
            Some(i) => {
                &&& j <= i < bs.len()
                &&& bs[i].entity == e
                &&& forall|m: int| j <= m < i ==> bs[m].entity != e
            },
            None => forall|m: int| j <= m < bs.len() ==> bs[m].entity != e,
        },
    decreases bs.len() - j,
{
    if j < bs.len() && bs[j].entity != e {
        lemma_binding_index_props(bs, j + 1, e);
    }
}

/// The first entry for `e` determines the first-match index.
proof fn lemma_binding_index_found(bs: Seq<Binding>, j: int, e: EntityId, i: int)
    requires
        0 <= j <= i < bs.len(),
        bs[i].entity == e,
        forall|m: int| j <= m < i ==> bs[m].entity != e,
    ensures
        binding_index_from(bs, j, e) == Some(i),
    decreases bs.len() - j,
{
    if j < i {
        lemma_binding_index_found(bs, j + 1, e, i);
    }
}

/// With no entry for `e` the search misses.
proof fn lemma_binding_index_missing(bs: Seq<Binding>, j: int, e: EntityId)
    requires
        0 <= j <= bs.len(),
        forall|m: int| j <= m < bs.len() ==> bs[m].entity != e,
    ensures
        binding_index_from(bs, j, e) is None,
    decreases bs.len() - j,
{
    if j < bs.len() {
        lemma_binding_index_missing(bs, j + 1, e);
    }
}

/// After `e` is bound to `k`, `e` resolves to exactly `k`.
pub proof fn lemma_rebound_binds(bs: Seq<Binding>, e: EntityId, k: ProviderKind)
    ensures
        binding_of(rebound(bs, e, k), e) == Some(k),
{
    lemma_binding_index_props(bs, 0, e);
    match binding_index_of(bs, e) {
        Some(i) => {
            let u = bs.update(i, Binding { entity: e, kind: k });
            lemma_binding_index_found(u, 0, e, i);
        },
        None => {
            let p = bs.push(Binding { entity: e, kind: k });
            lemma_binding_index_found(p, 0, e, bs.len() as int);
        },
    }
}

/// Binding `e` leaves every other entity's binding untouched.
pub proof fn lemma_rebound_preserves_others(
    bs: Seq<Binding>,
    e: EntityId,
    k: ProviderKind,
    other: EntityId,
)
    requires
        other != e,
    ensures
        binding_of(rebound(bs, e, k), other) == binding_of(bs, other),
{
    lemma_binding_index_props(bs, 0, e);
    lemma_binding_index_props(bs, 0, other);
    match binding_index_of(bs, e) {
        Some(i) => {
            let u = bs.update(i, Binding { entity: e, kind: k });
            match binding_index_of(bs, other) {
                Some(t) => {
                    lemma_binding_index_found(u, 0, other, t);
                },
                None => {
                    lemma_binding_index_missing(u, 0, other);
                },
            }
        },
        None => {
            let p = bs.push(Binding { entity: e, kind: k });
            match binding_index_of(bs, other) {
                Some(t) => {
                    lemma_binding_index_found(p, 0, other, t);
                },
                None => {
                    lemma_binding_index_missing(p, 0, other);
                },
            }
        },
    }
}

/// The index of the first actor with id `e` at or after `i`.
pub open spec fn actor_index_from(actors: Seq<ActorState>, i: int, e: EntityId) -> Option<int>
    decreases actors.len() - i,
{
    if i < 0 || i >= actors.len() {
        None
    } else if actors[i].id == e {
        Some(i)
    } else {
        actor_index_from(actors, i + 1, e)
    }
}

/// The index of the first actor with id `e`.
pub open spec fn actor_index_of(actors: Seq<ActorState>, e: EntityId) -> Option<int> {
    actor_index_from(actors, 0, e)
}

/// Horizontal displacement of one step in direction `d`.
pub open spec fn dir_dx(d: CardinalDirection) -> int {
    match d {
        CardinalDirection::North => 0,
        CardinalDirection::South => 0,
        CardinalDirection::East => 1,
        CardinalDirection::West => -1,
        CardinalDirection::NorthEast => 1,
        CardinalDirection::NorthWest => -1,
        CardinalDirection::SouthEast => 1,
        CardinalDirection::SouthWest => -1,
    }
}

/// Vertical displacement of one step in direction `d`.
pub open spec fn dir_dy(d: CardinalDirection) -> int {
    match d {
        CardinalDirection::North => 1,
        CardinalDirection::South => -1,
        CardinalDirection::East => 0,
        CardinalDirection::West => 0,
        CardinalDirection::NorthEast => 1,
        CardinalDirection::NorthWest => 1,
        CardinalDirection::SouthEast => -1,
        CardinalDirection::SouthWest => -1,
    }
}

/// One step from `p` in direction `d` on a `width` by `height` grid, or
/// `None` where the step would leave the grid.
pub open spec fn step_position(
    p: Position,
    d: CardinalDirection,
    width: u32,
    height: u32,
) -> Option<Position> {
    let nx = p.x + dir_dx(d);
    let ny = p.y + dir_dy(d);
    if 0 <= nx < width && 0 <= ny < height {
        Some(Position { x: nx as u32, y: ny as u32 })
    } else {
        None
    }
}

/// Takes one step from `p` in direction `d`, or reports that the step leaves
/// the grid.
pub fn step(p: Position, d: CardinalDirection, width: u32, height: u32) -> (r: Option<Position>)
    ensures
        r == step_position(p, d, width, height),
{
    let dx: i64 = match d {
        CardinalDirection::North => 0,
        CardinalDirection::South => 0,
        CardinalDirection::East => 1,
        CardinalDirection::West => -1,
        CardinalDirection::NorthEast => 1,
        CardinalDirection::NorthWest => -1,
        CardinalDirection::SouthEast => 1,
        CardinalDirection::SouthWest => -1,
    };
    let dy: i64 = match d {
        CardinalDirection::North => 1,
        CardinalDirection::South => -1,
        CardinalDirection::East => 0,
        CardinalDirection::West => 0,
        CardinalDirection::NorthEast => 1,
        CardinalDirection::NorthWest => 1,
        CardinalDirection::SouthEast => -1,
        CardinalDirection::SouthWest => -1,
    };
    let nx: i64 = p.x as i64 + dx;
    let ny: i64 = p.y as i64 + dy;
    if 0 <= nx && nx < width as i64 && 0 <= ny && ny < height as i64 {
        Some(Position { x: nx as u32, y: ny as u32 })
    } else {
        None
    }
}

impl StateModel {
    /// Well-formedness of canonical state: the nonce counts the committed
    /// actions, ids are unique, and every actor stands on the grid with
    /// stats within their maxima.
    pub open spec fn wf(self) -> bool {
        &&& self.nonce == self.committed.len()
        &&& forall|i: int, j: int|
            0 <= i < j < self.bindings.len() ==> self.bindings[i].entity
                != self.bindings[j].entity
        &&& forall|i: int, j: int|
            0 <= i < j < self.actors.len() ==> self.actors[i].id != self.actors[j].id
        &&& forall|i: int|
            0 <= i < self.actors.len() ==> {
                &&& self.actors[i].position.x < self.width
                &&& self.actors[i].position.y < self.height
                &&& self.actors[i].hp <= self.actors[i].hp_max
                &&& self.actors[i].mp <= self.actors[i].mp_max
            }
    }

    /// The kind bound to `e` in this state, if any.
    pub open spec fn binding(self, e: EntityId) -> Option<ProviderKind> {
        binding_of(self.bindings, e)
    }
}

/// `s` after committing `a` with its actors replaced by `actors`: the action
/// is appended to the log, the nonce counts it, and the clock advances.
pub open spec fn advanced(s: StateModel, a: Action, actors: Seq<ActorState>) -> StateModel {
    StateModel {
        nonce: (s.nonce + 1) as u64,
        turn: TurnState { clock: (s.turn.clock + 1) as u64, current_actor: s.turn.current_actor },
        actors: actors,
        committed: s.committed.push(a),
        ..s
    }
}

/// The outcome the commit step owes for `a` on state `s`: the next state
/// where the rules allow the action, the rejection where they do not.
pub open spec fn action_ruling(s: StateModel, a: Action) -> Result<StateModel, ActionError> {
    match a {
        Action::Character(c) => match actor_index_of(s.actors, c.actor) {
            Option::None => Result::Err(ActionError::UnknownActor),
            Option::Some(idx) => match c.kind {
                ActionKind::Wait => Result::Ok(advanced(s, a, s.actors)),
                ActionKind::Move => match c.input {
                    ActionInput::Empty => Result::Err(ActionError::MissingInput),
                    ActionInput::Direction(d) => match step_position(
                        s.actors[idx].position,
                        d,
                        s.width,
                        s.height,
                    ) {
                        Option::None => Result::Err(ActionError::OutOfBounds),
                        Option::Some(np) => Result::Ok(
                            advanced(
                                s,
                                a,
                                s.actors.update(idx, ActorState { position: np, ..s.actors[idx] }),
                            ),
                        ),
                    },
                },
            },
        },
    }
}

/// Copies a vector of plain values element by element.
fn copy_vec<T: Copy>(v: &Vec<T>) -> (r: Vec<T>)
    ensures
        r@ == v@,
{
    let n = v.len();
    let mut r: Vec<T> = Vec::new();
    let mut i: usize = 0;
    while i < n
        invariant
            n == v@.len(),
            0 <= i <= n,
            r@ == v@.subrange(0, i as int),
        decreases n - i,
    {
        r.push(v[i]);
        proof {
            assert(r@ =~= v@.subrange(0, i + 1));
        }
        i = i + 1;
    }
    proof {
        assert(r@ =~= v@);
    }
    r
}

impl GameState {
    /// Finds the index of the binding entry for `e`.
    fn binding_index(&self, e: EntityId) -> (r: Option<usize>)
        ensures
            match r {
                Some(i) => {
                    &&& binding_index_of(self.bindings@, e) == Some(i as int)
                    &&& i < self.bindings@.len()
                    &&& self.bindings@[i as int].entity == e
                },
                None => {
                    &&& binding_index_of(self.bindings@, e) is None
                    &&& forall|j: int| 0 <= j < self.bindings@.len() ==> self.bindings@[j].entity != e
                },
            },
    {
        let n = self.bindings.len();
        let mut i: usize = 0;
        while i < n
            invariant
                n == self.bindings@.len(),
                0 <= i <= n,
                binding_index_from(self.bindings@, i as int, e) == binding_index_of(
                    self.bindings@,
                    e,
                ),
                forall|j: int| 0 <= j < i ==> self.bindings@[j].entity != e,
            decreases n - i,
        {
            if self.bindings[i].entity == e {
                return Some(i);
            }
            i = i + 1;
        }
        None
    }

    /// Looks up the provider kind bound to `e`.
    pub fn binding(&self, e: EntityId) -> (r: Option<ProviderKind>)
        ensures
            r == self@.binding(e),
    {
        let found = self.binding_index(e);
        match found {
            Option::Some(i) => Some(self.bindings[i].kind),
            Option::None => None,
        }
    }

    /// Records that `e`'s actions must come from `k`, overwriting an
    /// existing binding on hand-off.
    pub fn bind(&mut self, e: EntityId, k: ProviderKind)
        requires
            old(self)@.wf(),
        ensures
            final(self)@.wf(),
            final(self)@ == (StateModel {
                bindings: rebound(old(self)@.bindings, e, k),
                ..old(self)@
            }),
            final(self)@.binding(e) == Some(k),
            forall|e2: EntityId|
                e2 != e ==> final(self)@.binding(e2) == old(self)@.binding(e2),
    {
        let found = self.binding_index(e);
        match found {
            Option::Some(i) => {
                self.bindings[i] = Binding { entity: e, kind: k };
                proof {
                    assert forall|x: int, y: int|
                        0 <= x < y < self.bindings@.len() implies self.bindings@[x].entity
                        != self.bindings@[y].entity by {
                        assert(old(self).bindings@[x].entity != old(self).bindings@[y].entity);
                    }
                }
            },
            Option::None => {
                self.bindings.push(Binding { entity: e, kind: k });
            },
        }
        proof {
            assert(self.bindings@ == rebound(old(self)@.bindings, e, k));
            lemma_rebound_binds(old(self)@.bindings, e, k);
            assert forall|e2: EntityId| e2 != e implies binding_of(self.bindings@, e2)
                == binding_of(old(self)@.bindings, e2) by {
                lemma_rebound_preserves_others(old(self)@.bindings, e, k, e2);
            }
        }
    }

    /// A point-in-time, consistent copy of this state.
    pub fn snapshot(&self) -> (r: GameState)
        ensures
            r@ == self@,
    {
        GameState {
            nonce: self.nonce,
            turn: self.turn,
            width: self.width,
            height: self.height,
            actors: copy_vec(&self.actors),
            bindings: copy_vec(&self.bindings),
            committed: copy_vec(&self.committed),
        }
    }

    /// Looks up the index of the actor with id `e`.
    pub fn actor_index(&self, e: EntityId) -> (r: Option<usize>)
        ensures
            match r {
                Some(i) => {
                    &&& actor_index_of(self.actors@, e) == Some(i as int)
                    &&& i < self.actors@.len()
                    &&& self.actors@[i as int].id == e
                },
                None => actor_index_of(self.actors@, e) is None,
            },
    {
        let n = self.actors.len();
        let mut i: usize = 0;
        while i < n
            invariant
                n == self.actors@.len(),
                0 <= i <= n,
                actor_index_from(self.actors@, i as int, e) == actor_index_of(self.actors@, e),
            decreases n - i,
        {
            if self.actors[i].id == e {
                return Some(i);
            }
            i = i + 1;
        }
        None
    }

    /// Appends `a` to the committed log and advances the counters.
    fn advance(&mut self, a: Action)
        requires
            old(self).nonce < u64::MAX,
            old(self).turn.clock < u64::MAX,
        ensures
            final(self)@ == advanced(old(self)@, a, old(self)@.actors),
    {
        self.committed.push(a);
        self.nonce = self.nonce + 1;
        self.turn.clock = self.turn.clock + 1;
    }

    /// Commits `a`: applies it where the rules allow it, and otherwise
    /// reports the rejection leaving the state untouched.  Commit is atomic.
    pub fn apply_action(&mut self, a: Action) -> (r: Result<ActionResult, ActionError>)
        requires
            old(self)@.wf(),
            old(self).nonce < u64::MAX,
            old(self).turn.clock < u64::MAX,
        ensures
            match action_ruling(old(self)@, a) {
                Result::Ok(next) => {
                    &&& r == Result::<ActionResult, ActionError>::Ok(
                        ActionResult { total_damage: 0 },
                    )
                    &&& final(self)@ == next
                },
                Result::Err(e) => {
                    &&& r == Result::<ActionResult, ActionError>::Err(e)
                    &&& *final(self) == *old(self)
                },
            },
            final(self)@.wf(),
    {
        match a {
            Action::Character(c) => {
                let idx_opt = self.actor_index(c.actor);
                match idx_opt {
                    Option::None => Result::Err(ActionError::UnknownActor),
                    Option::Some(idx) => match c.kind {
                        ActionKind::Wait => {
                            self.advance(a);
                            Result::Ok(ActionResult { total_damage: 0 })
                        },
                        ActionKind::Move => match c.input {
                            ActionInput::Empty => Result::Err(ActionError::MissingInput),
                            ActionInput::Direction(d) => {
                                let np = step(
                                    self.actors[idx].position,
                                    d,
                                    self.width,
                                    self.height,
                                );
                                match np {
                                    Option::None => Result::Err(ActionError::OutOfBounds),
                                    Option::Some(np) => {
                                        self.actors[idx].position = np;
                                        self.advance(a);
                                        Result::Ok(ActionResult { total_damage: 0 })
                                    },
                                }
                            },
                        },
                    },
                }
            },
        }
    }
}

} // verus!
