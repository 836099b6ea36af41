//! Frontend-core computations: the view model a frontend renders, the
//! message log, and the HUD texts.
//!
//! Everything here is a pure computation from events and state; reading the
//! keyboard, drawing, and the event loop itself stay with the frontend.

use vstd::prelude::*;

use crate::action::{action_label, player_id, Action, ActionInput, ActionKind, EntityId};
use crate::bus::{channel_of, Event, EventBus, GameStateEvent, Receiver, RecvOutcome};
use crate::error::action_error_label;
use crate::state::{step_position, GameState, Position, StateModel};
use crate::text::{dec_u64, decimal};

verus! {

/// The turn information a frontend shows.
#[derive(Debug, Copy, Clone, PartialEq, Eq, Structural)]
pub struct TurnView {
    pub clock: u64,
    pub current_actor: EntityId,
}

/// The player's stats as the frontend shows them.
#[derive(Debug, Copy, Clone, PartialEq, Eq, Structural)]
pub struct PlayerView {
    pub hp: u32,
    pub hp_max: u32,
    pub mp: u32,
    pub mp_max: u32,
    pub position: Option<Position>,
}

/// One actor as the frontend draws it.
#[derive(Debug, Copy, Clone, PartialEq, Eq, Structural)]
pub struct ActorView {
    pub id: EntityId,
    pub position: Position,
    pub is_player: bool,
}

/// The mathematical model of a view model.
pub struct ViewModelData {
    pub turn: TurnView,
    pub player: PlayerView,
    pub actors: Seq<ActorView>,
    pub width: u32,
    pub height: u32,
    pub nonce: u64,
    pub desynced: bool,
}

/// What a frontend renders, kept in sync with the runtime's events.
#[derive(Debug, PartialEq, Eq)]
pub struct ViewModel {
    pub turn: TurnView,
    pub player: PlayerView,
    pub actors: Vec<ActorView>,
    /// Grid width, for movement updates.
    pub width: u32,
    /// Grid height, for movement updates.
    pub height: u32,
    /// The state nonce this view believes it mirrors.
    pub nonce: u64,
    /// Set when the view can no longer assume incremental continuity and
    /// must be rebuilt from a full state snapshot.
    pub desynced: bool,
}

impl View for ViewModel {
    type V = ViewModelData;

    open spec fn view(&self) -> ViewModelData {
        ViewModelData {
            turn: self.turn,
            player: self.player,
            actors: self.actors@,
            width: self.width,
            height: self.height,
            nonce: self.nonce,
            desynced: self.desynced,
        }
    }
}

/// The index of the first actor view with id `e` at or after `i`.
pub open spec fn actor_view_index_from(actors: Seq<ActorView>, i: int, e: EntityId) -> Option<int>
    decreases actors.len() - i,
{
    if i < 0 || i >= actors.len() {
        None
    } else if actors[i].id == e {
        Some(i)
    } else {
        actor_view_index_from(actors, i + 1, e)
    }
}

/// The index of the first actor view with id `e`.
pub open spec fn actor_view_index_of(actors: Seq<ActorView>, e: EntityId) -> Option<int> {
    actor_view_index_from(actors, 0, e)
}

/// The view model that mirrors the snapshot `s`.
pub open spec fn initial_view(s: StateModel) -> ViewModelData {
    ViewModelData {
        turn: TurnView { clock: s.turn.clock, current_actor: s.turn.current_actor },
        player: match crate::state::actor_index_of(s.actors, player_id()) {
            Some(i) => PlayerView {
                hp: s.actors[i].hp,
                hp_max: s.actors[i].hp_max,
                mp: s.actors[i].mp,
                mp_max: s.actors[i].mp_max,
                position: Some(s.actors[i].position),
            },
            None => PlayerView { hp: 0, hp_max: 0, mp: 0, mp_max: 0, position: None },
        },
        actors: Seq::new(
            s.actors.len(),
            |i: int|
                ActorView {
                    id: s.actors[i].id,
                    position: s.actors[i].position,
                    is_player: s.actors[i].id == player_id(),
                },
        ),
        width: s.width,
        height: s.height,
        nonce: s.nonce,
        desynced: false,
    }
}

/// `vm` after an executed action: the counters advance, and a committed
/// movement moves the acting entity's sprite.
pub open spec fn apply_action_view(vm: ViewModelData, a: Action) -> ViewModelData {
    match a {
        Action::Character(c) => {
            let ticked = ViewModelData {
                turn: TurnView {
                    clock: vm.turn.clock.wrapping_add(1),
                    current_actor: vm.turn.current_actor,
                },
                nonce: vm.nonce.wrapping_add(1),
                ..vm
            };
            match (c.kind, c.input) {
                (ActionKind::Move, ActionInput::Direction(d)) => match actor_view_index_of(
                    vm.actors,
                    c.actor,
                ) {
                    Some(i) => match step_position(vm.actors[i].position, d, vm.width, vm.height) {
                        Some(np) => ViewModelData {
                            actors: ticked.actors.update(
                                i,
                                ActorView { position: np, ..vm.actors[i] },
                            ),
                            player: if vm.actors[i].is_player {
                                PlayerView { position: Some(np), ..vm.player }
                            } else {
                                vm.player
                            },
                            ..ticked
                        },
                        None => ticked,
                    },
                    None => ticked,
                },
                _ => ticked,
            }
        },
    }
}

/// `vm` after one bus event.
pub open spec fn apply_event_model(vm: ViewModelData, e: Event) -> ViewModelData {
    match e {
        Event::GameState(GameStateEvent::ActionExecuted { action, .. }) => apply_action_view(
            vm,
            action,
        ),
        Event::GameState(GameStateEvent::ActionFailed { .. }) => vm,
        Event::GameState(
            GameStateEvent::StateRestored { to_nonce, .. },
        ) => ViewModelData { nonce: to_nonce, desynced: true, ..vm },
        Event::Proof(_) => vm,
        Event::ActionRef(_) => vm,
    }
}

impl ViewModel {
    /// Builds the view model that mirrors the snapshot `state`.
    pub fn from_initial_state(state: &GameState) -> (vm: ViewModel)
        ensures
            vm@ == initial_view(state@),
    {
        let n = state.actors.len();
        let mut actors: Vec<ActorView> = Vec::new();
        let mut i: usize = 0;
        while i < n
            invariant
                n == state.actors@.len(),
                0 <= i <= n,
                actors@.len() == i,
                forall|j: int|
                    0 <= j < i ==> actors@[j] == (ActorView {
                        id: state.actors@[j].id,
                        position: state.actors@[j].position,
                        is_player: state.actors@[j].id == player_id(),
                    }),
            decreases n - i,
        {
            let a = state.actors[i];
            actors.push(
                ActorView {
                    id: a.id,
                    position: a.position,
                    is_player: a.id == EntityId::player(),
                },
            );
            i = i + 1;
        }
        let player = match state.actor_index(EntityId::player()) {
            Option::Some(idx) => {
                let a = state.actors[idx];
                PlayerView {
                    hp: a.hp,
                    hp_max: a.hp_max,
                    mp: a.mp,
                    mp_max: a.mp_max,
                    position: Some(a.position),
                }
            },
            Option::None => PlayerView { hp: 0, hp_max: 0, mp: 0, mp_max: 0, position: None },
        };
        let vm = ViewModel {
            turn: TurnView {
                clock: state.turn.clock,
                current_actor: state.turn.current_actor,
            },
            player,
            actors,
            width: state.width,
            height: state.height,
            nonce: state.nonce,
            desynced: false,
        };
        proof {
            assert(vm@.actors =~= initial_view(state@).actors);
        }
        vm
    }

    /// Finds the index of the actor view with id `e`.
    fn actor_view_index(&self, e: EntityId) -> (r: Option<usize>)
        ensures
            match r {
                Some(i) => {
                    &&& actor_view_index_of(self.actors@, e) == Some(i as int)
                    &&& i < self.actors@.len()
                },
                None => actor_view_index_of(self.actors@, e) is None,
            },
    {
        let n = self.actors.len();
        let mut i: usize = 0;
        while i < n
            invariant
                n == self.actors@.len(),
                0 <= i <= n,
                actor_view_index_from(self.actors@, i as int, e) == actor_view_index_of(
                    self.actors@,
                    e,
                ),
            decreases n - i,
        {
            if self.actors[i].id == e {
                return Some(i);
            }
            i = i + 1;
        }
        None
    }

    /// Applies one bus event to this view.
    pub fn apply_event(&mut self, e: &Event)
        ensures
            final(self)@ == apply_event_model(old(self)@, *e),
    {
        match e {
            Event::GameState(GameStateEvent::ActionExecuted { action, .. }) => {
                self.apply_executed_action(action);
            },
            Event::GameState(GameStateEvent::StateRestored { to_nonce, .. }) => {
                self.nonce = *to_nonce;
                self.desynced = true;
            },
            _ => (),
        }
    }

    /// Applies one committed action to this view.
    fn apply_executed_action(&mut self, a: &Action)
        ensures
            final(self)@ == apply_action_view(old(self)@, *a),
    {
        match a {
            Action::Character(c) => {
                if c.kind == ActionKind::Move {
                    match c.input {
                        ActionInput::Direction(d) => {
                            let found = self.actor_view_index(c.actor);
                            match found {
                                Option::Some(i) => {
                                    let np = step_position_checked(
                                        self.actors[i].position,
                                        d,
                                        self.width,
                                        self.height,
                                    );
                                    match np {
                                        Option::Some(np) => {
                                            if self.actors[i].is_player {
                                                self.player.position = Some(np);
                                            }
                                            self.actors[i].position = np;
                                        },
                                        Option::None => (),
                                    }
                                },
                                Option::None => (),
                            }
                        },
                        ActionInput::Empty => (),
                    }
                }
                self.turn.clock = self.turn.clock.wrapping_add(1);
                self.nonce = self.nonce.wrapping_add(1);
            },
        }
    }
}

/// Takes one checked step on the view's grid.
fn step_position_checked(
    p: Position,
    d: crate::action::CardinalDirection,
    width: u32,
    height: u32,
) -> (r: Option<Position>)
    ensures
        r == step_position(p, d, width, height),
{
    crate::state::step(p, d, width, height)
}

/// Marks the view model as needing a re-render.
#[derive(Debug, Copy, Clone, PartialEq, Eq, Structural)]
pub struct ViewModelDirty(pub bool);

/// The message log a frontend shows, newest entry first, bounded by its
/// capacity.
#[derive(Debug, PartialEq, Eq)]
pub struct MessageLog {
    /// The messages, newest first.
    pub entries: Vec<String>,
    /// How many messages are kept; the oldest falls out beyond it.
    pub capacity: usize,
}

impl View for MessageLog {
    type V = Seq<Seq<char>>;

    open spec fn view(&self) -> Seq<Seq<char>> {
        Seq::new(self.entries@.len(), |i: int| self.entries@[i]@)
    }
}

/// `log` with `m` pushed in front, trimmed to `cap` entries.
pub open spec fn pushed(log: Seq<Seq<char>>, m: Seq<char>, cap: nat) -> Seq<Seq<char>> {
    let whole = seq![m] + log;
    if whole.len() <= cap {
        whole
    } else {
        whole.take(cap as int)
    }
}

/// `log` after each message of `ms` was pushed, in order.
pub open spec fn pushed_all(log: Seq<Seq<char>>, ms: Seq<Seq<char>>, cap: nat) -> Seq<Seq<char>>
    decreases ms.len(),
{
    if ms.len() == 0 {
        log
    } else {
        pushed_all(pushed(log, ms[0], cap), ms.drop_first(), cap)
    }
}

impl MessageLog {
    /// The log never exceeds its capacity.
    pub open spec fn wf(self) -> bool {
        &&& self.capacity >= 1
        &&& self.entries@.len() <= self.capacity
    }

    /// An empty log keeping up to `capacity` messages.
    pub fn new(capacity: usize) -> (r: MessageLog)
        requires
            capacity >= 1,
        ensures
            r.wf(),
            r@ == Seq::<Seq<char>>::empty(),
            r.capacity == capacity,
    {
        let r = MessageLog { entries: Vec::new(), capacity };
        proof {
            assert(r@ =~= Seq::<Seq<char>>::empty());
        }
        r
    }

    /// Pushes `s` as the newest message, dropping the oldest one beyond the
    /// capacity.
    pub fn push_text(&mut self, s: String)
        requires
            old(self).wf(),
        ensures
            final(self).wf(),
            final(self).capacity == old(self).capacity,
            final(self)@ == pushed(old(self)@, s@, old(self).capacity as nat),
    {
        self.entries.insert(0, s);
        if self.entries.len() > self.capacity {
            self.entries.truncate(self.capacity);
        }
        proof {
            assert(self@ =~= pushed(old(self)@, s@, old(self).capacity as nat));
        }
    }
}

/// The messages one bus event owes the log, in push order: an executed
/// action, its damage where it dealt any, a failed action with its
/// rejection, a restoration with both nonces; proof artifacts and action
/// references are not logged.
pub open spec fn event_messages(e: Event) -> Seq<Seq<char>> {
    match e {
        Event::GameState(GameStateEvent::ActionExecuted { action, action_result }) => {
            let base = seq!["action executed: "@ + action_label(action)];
            if action_result.total_damage > 0 {
                base.push(
                    "dealt "@ + decimal(action_result.total_damage as nat) + " damage"@,
                )
            } else {
                base
            }
        },
        Event::GameState(GameStateEvent::ActionFailed { action, error }) => seq![
            "action failed: "@ + action_label(action) + " - "@ + action_error_label(error),
        ],
        Event::GameState(GameStateEvent::StateRestored { from_nonce, to_nonce }) => seq![
            "state restored: "@ + decimal(from_nonce as nat) + " -> "@ + decimal(
                to_nonce as nat,
            ),
        ],
        Event::Proof(_) => Seq::empty(),
        Event::ActionRef(_) => Seq::empty(),
    }
}

/// Logs one bus event: pushes exactly the messages the event owes, newest
/// first.
pub fn log_event(e: &Event, log: &mut MessageLog)
    requires
        old(log).wf(),
    ensures
        final(log).wf(),
        final(log).capacity == old(log).capacity,
        final(log)@ == pushed_all(old(log)@, event_messages(*e), old(log).capacity as nat),
{
    let ghost cap = old(log).capacity as nat;
    match e {
        Event::GameState(GameStateEvent::ActionExecuted { action, action_result }) => {
            let msg = "action executed: ".to_owned().concat(action.label().as_str());
            log.push_text(msg);
            if action_result.total_damage > 0 {
                let dmg = "dealt ".to_owned().concat(
                    dec_u64(action_result.total_damage).as_str(),
                ).concat(" damage");
                log.push_text(dmg);
                proof {
                    let ms = event_messages(*e);
                    assert(ms.drop_first() =~= seq![ms[1]]);
                    assert(ms.drop_first().drop_first() =~= Seq::<Seq<char>>::empty());
                    assert(log@ == pushed_all(old(log)@, ms, cap)) by {
                        reveal_with_fuel(pushed_all, 4);
                    }
                }
            } else {
                proof {
                    let ms = event_messages(*e);
                    assert(ms.drop_first() =~= Seq::<Seq<char>>::empty());
                    assert(log@ == pushed_all(old(log)@, ms, cap)) by {
                        reveal_with_fuel(pushed_all, 3);
                    }
                }
            }
        },
        Event::GameState(GameStateEvent::ActionFailed { action, error }) => {
            let msg = "action failed: ".to_owned().concat(action.label().as_str()).concat(
                " - ",
            ).concat(error.label());
            log.push_text(msg);
            proof {
                let ms = event_messages(*e);
                assert(ms.drop_first() =~= Seq::<Seq<char>>::empty());
                assert(log@ == pushed_all(old(log)@, ms, cap)) by {
                    reveal_with_fuel(pushed_all, 3);
                }
            }
        },
        Event::GameState(GameStateEvent::StateRestored { from_nonce, to_nonce }) => {
            let msg = "state restored: ".to_owned().concat(dec_u64(*from_nonce).as_str()).concat(
                " -> ",
            ).concat(dec_u64(*to_nonce).as_str());
            log.push_text(msg);
            proof {
                let ms = event_messages(*e);
                assert(ms.drop_first() =~= Seq::<Seq<char>>::empty());
                assert(log@ == pushed_all(old(log)@, ms, cap)) by {
                    reveal_with_fuel(pushed_all, 3);
                }
            }
        },
        Event::Proof(_) => (),
        Event::ActionRef(_) => (),
    }
}

/// The HUD's health readout.
#[derive(Debug, PartialEq, Eq)]
pub struct HealthText(pub String);

/// The HUD's mana readout.
#[derive(Debug, PartialEq, Eq)]
pub struct ManaText(pub String);

/// The HUD's turn readout.
#[derive(Debug, PartialEq, Eq)]
pub struct TurnText(pub String);

/// The stats panel of the HUD: the player's health and mana, and the turn
/// clock.
#[derive(Debug, PartialEq, Eq)]
pub struct StatsPanel {
    pub health: HealthText,
    pub mana: ManaText,
    pub turn: TurnText,
}

/// Renders the stats panel from the current view model.
pub fn update_stats_panel(vm: &ViewModel) -> (p: StatsPanel)
    ensures
        p.health.0@ == "HP: "@ + decimal(vm.player.hp as nat) + "/"@ + decimal(
            vm.player.hp_max as nat,
        ),
        p.mana.0@ == "MP: "@ + decimal(vm.player.mp as nat) + "/"@ + decimal(
            vm.player.mp_max as nat,
        ),
        p.turn.0@ == "Turn: "@ + decimal(vm.turn.clock as nat),
{
    let health = "HP: ".to_owned().concat(dec_u64(vm.player.hp as u64).as_str()).concat(
        "/",
    ).concat(dec_u64(vm.player.hp_max as u64).as_str());
    let mana = "MP: ".to_owned().concat(dec_u64(vm.player.mp as u64).as_str()).concat(
        "/",
    ).concat(dec_u64(vm.player.mp_max as u64).as_str());
    let turn = "Turn: ".to_owned().concat(dec_u64(vm.turn.clock).as_str());
    StatsPanel { health: HealthText(health), mana: ManaText(mana), turn: TurnText(turn) }
}

/// One visible slot of the message panel: which slot, and the text it
/// shows.
#[derive(Debug, PartialEq, Eq)]
pub struct MessageEntry {
    pub index: usize,
    pub text: String,
}

/// The visible slice of the message log: its newest messages, one per
/// visible slot, the spare slots blank.
#[derive(Debug, PartialEq, Eq)]
pub struct MessageLogPanel {
    pub entries: Vec<MessageEntry>,
}

/// How many messages the panel shows at once.
pub const VISIBLE_MESSAGES: usize = 8;

/// Renders the message panel: slot `i` shows the log's `i`-th newest
/// message, and blank where the log has none.
pub fn update_message_log(log: &MessageLog) -> (p: MessageLogPanel)
    ensures
        p.entries@.len() == VISIBLE_MESSAGES,
        forall|i: int|
            0 <= i < VISIBLE_MESSAGES ==> {
                &&& (#[trigger] p.entries@[i]).index == i
                &&& p.entries@[i].text@ == (if i < log@.len() {
                    log@[i]
                } else {
                    Seq::<char>::empty()
                })
            },
{
    let mut entries: Vec<MessageEntry> = Vec::new();
    let mut i: usize = 0;
    while i < VISIBLE_MESSAGES
        invariant
            0 <= i <= VISIBLE_MESSAGES,
            entries@.len() == i,
            forall|j: int|
                0 <= j < i ==> {
                    &&& (#[trigger] entries@[j]).index == j
                    &&& entries@[j].text@ == (if j < log@.len() {
                        log@[j]
                    } else {
                        Seq::<char>::empty()
                    })
                },
        decreases VISIBLE_MESSAGES - i,
    {
        let text = if i < log.entries.len() {
            log.entries[i].clone()
        } else {
            String::new()
        };
        entries.push(MessageEntry { index: i, text });
        i = i + 1;
    }
    MessageLogPanel { entries }
}

/// `vm` after the events of `es`, applied in order.
pub open spec fn apply_events(vm: ViewModelData, es: Seq<Event>) -> ViewModelData
    decreases es.len(),
{
    if es.len() == 0 {
        vm
    } else {
        apply_events(apply_event_model(vm, es[0]), es.drop_first())
    }
}

/// `log` after the messages of the events of `es`, pushed in order.
pub open spec fn logged_events(log: Seq<Seq<char>>, es: Seq<Event>, cap: nat) -> Seq<Seq<char>>
    decreases es.len(),
{
    if es.len() == 0 {
        log
    } else {
        logged_events(pushed_all(log, event_messages(es[0]), cap), es.drop_first(), cap)
    }
}

/// Applying the events of `es` and then `e` is applying `es.push(e)`.
pub proof fn lemma_apply_events_push(vm: ViewModelData, es: Seq<Event>, e: Event)
    ensures
        apply_events(vm, es.push(e)) == apply_event_model(apply_events(vm, es), e),
    decreases es.len(),
{
    if es.len() == 0 {
        assert(es.push(e).drop_first() =~= Seq::<Event>::empty());
        assert(es.push(e)[0] == e);
        assert(apply_events(vm, es.push(e)) == apply_event_model(vm, e)) by {
            reveal_with_fuel(apply_events, 2);
        }
    } else {
        assert(es.push(e).drop_first() =~= es.drop_first().push(e));
        assert(es.push(e)[0] == es[0]);
        lemma_apply_events_push(apply_event_model(vm, es[0]), es.drop_first(), e);
        assert(apply_events(vm, es.push(e)) == apply_events(
            apply_event_model(vm, es[0]),
            es.drop_first().push(e),
        )) by {
            reveal_with_fuel(apply_events, 2);
        }
    }
}

/// Logging the events of `es` and then `e` is logging `es.push(e)`.
pub proof fn lemma_logged_events_push(log: Seq<Seq<char>>, es: Seq<Event>, e: Event, cap: nat)
    ensures
        logged_events(log, es.push(e), cap) == pushed_all(
            logged_events(log, es, cap),
            event_messages(e),
            cap,
        ),
    decreases es.len(),
{
    if es.len() == 0 {
        assert(es.push(e).drop_first() =~= Seq::<Event>::empty());
        assert(es.push(e)[0] == e);
        assert(logged_events(log, es.push(e), cap) == pushed_all(log, event_messages(e), cap)) by {
            reveal_with_fuel(logged_events, 2);
        }
    } else {
        assert(es.push(e).drop_first() =~= es.drop_first().push(e));
        assert(es.push(e)[0] == es[0]);
        lemma_logged_events_push(
            pushed_all(log, event_messages(es[0]), cap),
            es.drop_first(),
            e,
            cap,
        );
        assert(logged_events(log, es.push(e), cap) == logged_events(
            pushed_all(log, event_messages(es[0]), cap),
            es.drop_first().push(e),
            cap,
        )) by {
            reveal_with_fuel(logged_events, 2);
        }
    }
}

/// What one polling pass over a subscription accomplished.
#[derive(Debug, Copy, Clone, PartialEq, Eq)]
pub struct PollSummary {
    /// How many events were received and applied.
    pub received: usize,
    /// The number of missed events, where the subscriber had lagged; the
    /// view is then marked desynchronized and must be rebuilt from a full
    /// snapshot.
    pub lagged: Option<u64>,
    /// Whether the publisher side is gone.
    pub closed: bool,
}

/// Drains a subscription: applies every available event, in publish order,
/// to the view model and the message log, and marks the view dirty when
/// anything arrived.
///
/// A subscriber that lagged stops at the `Lagged` signal with the exact
/// count of missed events and marks the view desynchronized instead of
/// applying anything stale; otherwise it reads up to the end of the topic
/// and reports whether the topic is closed.
pub fn poll_runtime_events(
    rx: &mut Receiver,
    bus: &EventBus,
    vm: &mut ViewModel,
    log: &mut MessageLog,
    dirty: &mut ViewModelDirty,
) -> (r: PollSummary)
    requires
        bus.wf(),
        old(rx).wf_for(channel_of(*bus, old(rx).topic)),
        old(log).wf(),
    ensures
        final(rx).topic == old(rx).topic,
        final(rx).wf_for(channel_of(*bus, old(rx).topic)),
        final(log).wf(),
        final(log).capacity == old(log).capacity,
        ({
            let ch = channel_of(*bus, old(rx).topic);
            &&& old(rx).cursor < ch.oldest() ==> {
                &&& r == (PollSummary {
                    received: 0,
                    lagged: Some((ch.oldest() - old(rx).cursor) as u64),
                    closed: false,
                })
                &&& final(rx).cursor == ch.oldest()
                &&& final(vm)@ == (ViewModelData { desynced: true, ..old(vm)@ })
                &&& final(log)@ == old(log)@
                &&& *final(dirty) == *old(dirty)
            }
            &&& old(rx).cursor >= ch.oldest() ==> {
                let processed = ch.history@.subrange(old(rx).cursor as int, ch.seq as int);
                &&& final(rx).cursor == ch.seq
                &&& r == (PollSummary {
                    received: (ch.seq - old(rx).cursor) as usize,
                    lagged: None,
                    closed: ch.closed,
                })
                &&& final(vm)@ == apply_events(old(vm)@, processed)
                &&& final(log)@ == logged_events(old(log)@, processed, old(log).capacity as nat)
                &&& final(dirty).0 == (old(dirty).0 || processed.len() > 0)
            }
        }),
{
    let ghost ch = channel_of(*bus, old(rx).topic);
    let ghost cap = old(log).capacity as nat;
    let mut received: usize = 0;
    loop
        invariant
            bus.wf(),
            log.wf(),
            log.capacity == old(log).capacity,
            rx.topic == old(rx).topic,
            ch == channel_of(*bus, old(rx).topic),
            cap == old(log).capacity as nat,
            rx.wf_for(ch),
            old(rx).cursor <= rx.cursor,
            received == rx.cursor - old(rx).cursor,
            rx.cursor > old(rx).cursor ==> rx.cursor >= ch.oldest(),
            old(rx).cursor < ch.oldest() ==> rx.cursor == old(rx).cursor,
            vm@ == apply_events(
                old(vm)@,
                ch.history@.subrange(old(rx).cursor as int, rx.cursor as int),
            ),
            log@ == logged_events(
                old(log)@,
                ch.history@.subrange(old(rx).cursor as int, rx.cursor as int),
                cap,
            ),
            dirty.0 == (old(dirty).0 || rx.cursor > old(rx).cursor),
        decreases ch.seq - rx.cursor,
    {
        let ghost prefix = ch.history@.subrange(old(rx).cursor as int, rx.cursor as int);
        let channel = bus.channel(rx.topic);
        let out = rx.try_receive(channel);
        match out {
            RecvOutcome::Received(e) => {
                vm.apply_event(&e);
                log_event(&e, log);
                dirty.0 = true;
                received = received + 1;
                proof {
                    assert(ch.history@.subrange(old(rx).cursor as int, rx.cursor as int)
                        =~= prefix.push(e));
                    lemma_apply_events_push(old(vm)@, prefix, e);
                    lemma_logged_events_push(old(log)@, prefix, e, cap);
                }
            },
            RecvOutcome::Empty => {
                return PollSummary { received, lagged: None, closed: false };
            },
            RecvOutcome::Lagged(n) => {
                vm.desynced = true;
                return PollSummary { received: 0, lagged: Some(n), closed: false };
            },
            RecvOutcome::Closed => {
                return PollSummary { received, lagged: None, closed: true };
            },
        }
    }
}

} // verus!
