//! The runtime instance and its per-turn state machine.
//!
//! A turn runs `SelectActor -> ResolveProvider -> AwaitAction ->
//! ValidateAction -> Commit -> Publish`.  The acting entity's bound kind is
//! looked up in state, the kind's callable is resolved from the registry and
//! invoked, the returned action must name the resolved actor, commit is
//! atomic, and the outcome is published on the bus.  Turn-time failures
//! abort the single turn and are reported upward; none of them corrupts
//! canonical state.

use vstd::prelude::*;

use crate::action::{Action, EntityId};
use crate::bus::{
    channel_of, ActionRef, Event, EventBus, GameStateEvent, ProofArtifact, Receiver, Topic,
    TopicChannel,
};
use crate::channel::ProvideOutcome;
use crate::error::{ActionError, RuntimeError};
use crate::provider::ProviderKind;
use crate::providers::{provide_model, ProviderImpl};
use crate::registry::{
    registered, slot_index_of, InputRejected, ProviderRegistry, SlotModel,
};
use crate::state::{action_ruling, rebound, ActionResult, GameState, StateModel};

verus! {

/// How one call of the turn executor ended.
#[derive(Debug, Copy, Clone, PartialEq, Eq, Structural)]
pub enum TurnOutcome {
    /// The action was validated, committed and published.
    Committed { action: Action, result: ActionResult },
    /// The game rules rejected the action; state is unchanged and the
    /// rejection was published.
    Rejected { action: Action, error: ActionError },
    /// The provider has not produced an action yet; the caller may suspend
    /// and try again.  Nothing changed.
    Pending,
    /// The turn failed: nothing was committed and nothing was published.
    Aborted(RuntimeError),
}

/// The resolution phase: the actor's bound kind from state, then the kind's
/// callable from the registry; each lookup failing fatally for the turn.
pub open spec fn resolved(state: StateModel, slots: Seq<SlotModel>) -> Result<
    (ProviderKind, int),
    RuntimeError,
> {
    match state.binding(state.turn.current_actor) {
        Option::None => Result::Err(RuntimeError::UnboundEntity(state.turn.current_actor)),
        Option::Some(k) => match slot_index_of(slots, k) {
            Option::None => Result::Err(RuntimeError::UnknownProviderKind(k)),
            Option::Some(i) => Result::Ok((k, i)),
        },
    }
}

/// A runtime instance: canonical state, the process-local provider
/// registry, and the event bus, constructed at session start and torn down
/// together at session end.
pub struct Runtime {
    pub state: GameState,
    pub registry: ProviderRegistry,
    pub bus: EventBus,
}

impl Runtime {
    /// The state, the registry and the bus are each well-formed.
    pub open spec fn wf(self) -> bool {
        &&& self.state@.wf()
        &&& self.registry.wf()
        &&& self.bus.wf()
    }

    /// A fresh runtime over `initial` state, with no providers installed
    /// and an open bus whose topics each buffer `bus_cap` events.
    pub fn new(initial: GameState, bus_cap: usize) -> (r: Runtime)
        requires
            initial@.wf(),
            bus_cap >= 1,
        ensures
            r.wf(),
            r.state@ == initial@,
            r.registry@ == Seq::<SlotModel>::empty(),
            forall|t: Topic| channel_of(r.bus, t).history@ == Seq::<Event>::empty(),
            forall|t: Topic| !channel_of(r.bus, t).closed,
            forall|t: Topic| channel_of(r.bus, t).cap == bus_cap,
    {
        Runtime { state: initial, registry: ProviderRegistry::new(), bus: EventBus::new(bus_cap) }
    }

    /// Installs `provider` as the one callable for `kind`; a duplicate
    /// installation is refused at setup time and changes nothing.
    pub fn register_provider(&mut self, kind: ProviderKind, provider: ProviderImpl) -> (r: Result<
        (),
        RuntimeError,
    >)
        requires
            old(self).wf(),
            provider.wf(),
        ensures
            final(self).wf(),
            final(self).state == old(self).state,
            final(self).bus == old(self).bus,
            registered(old(self).registry@, kind) ==> r == Result::<(), RuntimeError>::Err(
                RuntimeError::DuplicateProvider(kind),
            ) && final(self).registry@ == old(self).registry@,
            !registered(old(self).registry@, kind) ==> r == Result::<(), RuntimeError>::Ok(())
                && final(self).registry@ == old(self).registry@.push(
                SlotModel { kind, provider: provider@ },
            ),
    {
        self.registry.register(kind, provider)
    }

    /// Records in state that `entity`'s actions must come from `kind`.
    /// Binding a kind with no installed callable fails with
    /// `UnknownProviderKind` and leaves the binding table untouched.
    pub fn bind_entity_provider(&mut self, entity: EntityId, kind: ProviderKind) -> (r: Result<
        (),
        RuntimeError,
    >)
        requires
            old(self).wf(),
        ensures
            final(self).wf(),
            final(self).registry@ == old(self).registry@,
            final(self).bus == old(self).bus,
            !registered(old(self).registry@, kind) ==> r == Result::<(), RuntimeError>::Err(
                RuntimeError::UnknownProviderKind(kind),
            ) && final(self).state == old(self).state,
            registered(old(self).registry@, kind) ==> r == Result::<(), RuntimeError>::Ok(())
                && final(self).state@ == (StateModel {
                bindings: rebound(old(self).state@.bindings, entity, kind),
                ..old(self).state@
            }) && final(self).state@.binding(entity) == Some(kind) && forall|e2: EntityId|
                e2 != entity ==> final(self).state@.binding(e2) == old(self).state@.binding(e2),
    {
        if self.registry.is_registered(kind) {
            self.state.bind(entity, kind);
            Result::Ok(())
        } else {
            Result::Err(RuntimeError::UnknownProviderKind(kind))
        }
    }

    /// Opens a subscription on `t`, positioned at the topic's current end.
    pub fn subscribe(&self, t: Topic) -> (r: Receiver)
        ensures
            r.topic == t,
            r.cursor == channel_of(self.bus, t).seq,
            r.wf_for(channel_of(self.bus, t)),
    {
        self.bus.subscribe(t)
    }

    /// Opens one subscription per requested topic, each positioned at its
    /// topic's current end.
    pub fn subscribe_multiple(&self, topics: &Vec<Topic>) -> (rs: Vec<Receiver>)
        ensures
            rs@.len() == topics@.len(),
            forall|i: int|
                0 <= i < topics@.len() ==> rs@[i] == (Receiver {
                    topic: topics@[i],
                    cursor: channel_of(self.bus, topics@[i]).seq,
                }),
    {
        let n = topics.len();
        let mut rs: Vec<Receiver> = Vec::new();
        let mut i: usize = 0;
        while i < n
            invariant
                n == topics@.len(),
                0 <= i <= n,
                rs@.len() == i,
                forall|j: int|
                    0 <= j < i ==> rs@[j] == (Receiver {
                        topic: topics@[j],
                        cursor: channel_of(self.bus, topics@[j]).seq,
                    }),
            decreases n - i,
        {
            rs.push(self.bus.subscribe(topics[i]));
            i = i + 1;
        }
        rs
    }

    /// A point-in-time, consistent read of canonical state.
    pub fn query_state(&self) -> (s: GameState)
        ensures
            s@ == self.state@,
    {
        self.state.snapshot()
    }

    /// Offers an externally produced action to the input channel of the
    /// callable serving `kind`; a full queue rejects the input rather than
    /// blocking the producer.
    pub fn submit_input(&mut self, kind: ProviderKind, a: Action) -> (r: Result<(), InputRejected>)
        requires
            old(self).wf(),
        ensures
            final(self).wf(),
            final(self).state == old(self).state,
            final(self).bus == old(self).bus,
            r is Err ==> final(self).registry@ == old(self).registry@,
            slot_index_of(old(self).registry@, kind) is None ==> r == Result::<
                (),
                InputRejected,
            >::Err(InputRejected::UnknownKind),
            match slot_index_of(old(self).registry@, kind) {
                Option::Some(i) => match old(self).registry@[i].provider {
                    crate::providers::ProviderModel::Channel(cm) => {
                        &&& cm.closed ==> r == Result::<(), InputRejected>::Err(
                            InputRejected::Closed,
                        )
                        &&& !cm.closed && cm.queue.len() >= cm.cap ==> r == Result::<
                            (),
                            InputRejected,
                        >::Err(InputRejected::Full)
                        &&& !cm.closed && cm.queue.len() < cm.cap ==> r == Result::<
                            (),
                            InputRejected,
                        >::Ok(()) && final(self).registry@ == old(self).registry@.update(
                            i,
                            SlotModel {
                                kind: old(self).registry@[i].kind,
                                provider: crate::providers::ProviderModel::Channel(
                                    crate::channel::ChannelModel { queue: cm.queue.push(a), ..cm },
                                ),
                            },
                        )
                    },
                    _ => r == Result::<(), InputRejected>::Err(InputRejected::NotInteractive),
                },
                Option::None => true,
            },
    {
        self.registry.submit_input(kind, a)
    }

    /// The model of this runtime's registry slots.
    pub open spec fn spec_slots(self) -> Seq<SlotModel> {
        self.registry@
    }

    /// Closes the input channel of the callable serving `kind`: the defined
    /// way to signal that the provider will no longer act.  A turn awaiting
    /// that provider then resolves with `ProviderChannelClosed` once the
    /// queue is drained, instead of hanging.
    pub fn close_provider(&mut self, kind: ProviderKind) -> (r: Result<(), RuntimeError>)
        requires
            old(self).wf(),
        ensures
            final(self).wf(),
            final(self).state == old(self).state,
            final(self).bus == old(self).bus,
            slot_index_of(old(self).registry@, kind) is None ==> r == Result::<
                (),
                RuntimeError,
            >::Err(RuntimeError::UnknownProviderKind(kind)) && final(self).registry@ == old(
                self,
            ).registry@,
            match slot_index_of(old(self).registry@, kind) {
                Option::Some(i) => {
                    &&& r == Result::<(), RuntimeError>::Ok(())
                    &&& final(self).registry@ == old(self).registry@.update(
                        i,
                        SlotModel {
                            kind: old(self).registry@[i].kind,
                            provider: crate::registry::closed_model(
                                old(self).registry@[i].provider,
                            ),
                        },
                    )
                },
                Option::None => true,
            },
    {
        self.registry.close_kind(kind)
    }

    /// Publishes a proof artifact produced for a committed turn by the
    /// proving backend.
    pub fn publish_proof(&mut self, artifact: ProofArtifact)
        requires
            old(self).wf(),
            old(self).bus.proofs.seq < usize::MAX,
        ensures
            final(self).wf(),
            final(self).state == old(self).state,
            final(self).registry@ == old(self).registry@,
            final(self).bus.proofs.history@ == old(self).bus.proofs.history@.push(
                Event::Proof(artifact),
            ),
            final(self).bus.game_state == old(self).bus.game_state,
            final(self).bus.action_refs == old(self).bus.action_refs,
    {
        self.bus.publish(Event::Proof(artifact));
    }

    /// Replaces canonical state with an archived snapshot and announces the
    /// restoration on the bus.
    pub fn restore_state(&mut self, snapshot: GameState)
        requires
            old(self).wf(),
            snapshot@.wf(),
            old(self).bus.game_state.seq < usize::MAX,
        ensures
            final(self).wf(),
            final(self).state@ == snapshot@,
            final(self).registry@ == old(self).registry@,
            final(self).bus.game_state.history@ == old(self).bus.game_state.history@.push(
                Event::GameState(
                    GameStateEvent::StateRestored {
                        from_nonce: old(self).state.nonce,
                        to_nonce: snapshot.nonce,
                    },
                ),
            ),
            final(self).bus.proofs == old(self).bus.proofs,
            final(self).bus.action_refs == old(self).bus.action_refs,
    {
        let from_nonce = self.state.nonce;
        let to_nonce = snapshot.nonce;
        self.state = snapshot;
        self.bus.publish(Event::GameState(GameStateEvent::StateRestored { from_nonce, to_nonce }));
    }

    /// Tears the session down: every provider channel is closed, releasing
    /// any waiting consumer, and every bus topic is closed behind the
    /// events already published.
    pub fn shutdown(&mut self)
        requires
            old(self).wf(),
        ensures
            final(self).wf(),
            final(self).state == old(self).state,
            final(self).registry@.len() == old(self).registry@.len(),
            forall|i: int|
                0 <= i < old(self).registry@.len() ==> final(self).registry@[i] == (SlotModel {
                    kind: old(self).registry@[i].kind,
                    provider: crate::registry::closed_model(old(self).registry@[i].provider),
                }),
            forall|t: Topic|
                channel_of(final(self).bus, t) == (TopicChannel {
                    closed: true,
                    ..channel_of(old(self).bus, t)
                }),
    {
        self.registry.close_all();
        self.bus.close();
    }

    /// Runs one turn for the current actor, through resolution, invocation,
    /// validation, atomic commit and publication.
    ///
    /// The returned action must act for the resolved actor: a crafted
    /// action naming anyone else is refused with `ActorMismatch` and is
    /// never applied to state.  A closed provider aborts the turn with
    /// `ProviderChannelClosed` rather than hanging.  An aborted turn
    /// publishes nothing and leaves state untouched.
    pub fn execute_turn(&mut self) -> (r: TurnOutcome)
        requires
            old(self).wf(),
            old(self).state.nonce < u64::MAX,
            old(self).state.turn.clock < u64::MAX,
            old(self).bus.game_state.seq < usize::MAX,
            old(self).bus.action_refs.seq < usize::MAX,
        ensures
            final(self).wf(),
            final(self).bus.proofs == old(self).bus.proofs,
            match resolved(old(self).state@, old(self).registry@) {
                Result::Err(err) => {
                    &&& r == TurnOutcome::Aborted(err)
                    &&& final(self).state == old(self).state
                    &&& final(self).registry@ == old(self).registry@
                    &&& final(self).bus == old(self).bus
                },
                Result::Ok((k, i)) => {
                    let actor = old(self).state@.turn.current_actor;
                    let invoked = provide_model(old(self).registry@[i].provider, actor);
                    &&& final(self).registry@ == old(self).registry@.update(
                        i,
                        SlotModel { kind: old(self).registry@[i].kind, provider: invoked.1 },
                    )
                    &&& match invoked.0 {
                        ProvideOutcome::Pending => {
                            &&& r == TurnOutcome::Pending
                            &&& final(self).state == old(self).state
                            &&& final(self).bus == old(self).bus
                        },
                        ProvideOutcome::Closed => {
                            &&& r == TurnOutcome::Aborted(RuntimeError::ProviderChannelClosed)
                            &&& final(self).state == old(self).state
                            &&& final(self).bus == old(self).bus
                        },
                        ProvideOutcome::Ready(a) => if a.spec_actor() != actor {
                            &&& r == TurnOutcome::Aborted(
                                RuntimeError::ActorMismatch {
                                    expected: actor,
                                    got: a.spec_actor(),
                                },
                            )
                            &&& final(self).state == old(self).state
                            &&& final(self).bus == old(self).bus
                        } else {
                            match action_ruling(old(self).state@, a) {
                                Result::Err(ce) => {
                                    &&& r == TurnOutcome::Rejected { action: a, error: ce }
                                    &&& final(self).state@ == old(self).state@
                                    &&& final(self).bus.game_state.history@ == old(
                                        self,
                                    ).bus.game_state.history@.push(
                                        Event::GameState(
                                            GameStateEvent::ActionFailed { action: a, error: ce },
                                        ),
                                    )
                                    &&& final(self).bus.action_refs == old(self).bus.action_refs
                                },
                                Result::Ok(next) => {
                                    &&& r == TurnOutcome::Committed {
                                        action: a,
                                        result: ActionResult { total_damage: 0 },
                                    }
                                    &&& final(self).state@ == next
                                    &&& final(self).bus.game_state.history@ == old(
                                        self,
                                    ).bus.game_state.history@.push(
                                        Event::GameState(
                                            GameStateEvent::ActionExecuted {
                                                action: a,
                                                action_result: ActionResult { total_damage: 0 },
                                            },
                                        ),
                                    )
                                    &&& final(self).bus.action_refs.history@ == old(
                                        self,
                                    ).bus.action_refs.history@.push(
                                        Event::ActionRef(
                                            ActionRef { nonce: old(self).state.nonce },
                                        ),
                                    )
                                },
                            }
                        },
                    }
                },
            },
    {
        let actor = self.state.turn.current_actor;
        let kind_opt = self.state.binding(actor);
        match kind_opt {
            Option::None => TurnOutcome::Aborted(RuntimeError::UnboundEntity(actor)),
            Option::Some(kind) => {
                let provided = self.registry.provide(kind, actor, &self.state);
                match provided {
                    Result::Err(err) => TurnOutcome::Aborted(err),
                    Result::Ok(ProvideOutcome::Pending) => TurnOutcome::Pending,
                    Result::Ok(ProvideOutcome::Closed) => TurnOutcome::Aborted(
                        RuntimeError::ProviderChannelClosed,
                    ),
                    Result::Ok(ProvideOutcome::Ready(a)) => {
                        let got = a.actor();
                        if got != actor {
                            TurnOutcome::Aborted(
                                RuntimeError::ActorMismatch { expected: actor, got },
                            )
                        } else {
                            let prev_nonce = self.state.nonce;
                            let applied = self.state.apply_action(a);
                            match applied {
                                Result::Err(ce) => {
                                    self.bus.publish(
                                        Event::GameState(
                                            GameStateEvent::ActionFailed { action: a, error: ce },
                                        ),
                                    );
                                    TurnOutcome::Rejected { action: a, error: ce }
                                },
                                Result::Ok(res) => {
                                    self.bus.publish(
                                        Event::GameState(
                                            GameStateEvent::ActionExecuted {
                                                action: a,
                                                action_result: res,
                                            },
                                        ),
                                    );
                                    self.bus.publish(
                                        Event::ActionRef(ActionRef { nonce: prev_nonce }),
                                    );
                                    TurnOutcome::Committed { action: a, result: res }
                                },
                            }
                        }
                    },
                }
            },
        }
    }
}

} // verus!
