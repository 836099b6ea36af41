//! The provider registry: one live callable per provider kind.
//!
//! Entity-to-kind bindings are part of canonical state; kind-to-callable
//! bindings live here and are local to the running process.  A process may
//! host only one implementation per kind at a time, so that the kind
//! recorded in state names the callable unambiguously.

use vstd::prelude::*;

use crate::action::{Action, EntityId};
use crate::channel::{ChannelModel, ProvideOutcome};
use crate::error::RuntimeError;
use crate::provider::ProviderKind;
use crate::providers::{provide_action, provide_model, ProviderImpl, ProviderModel};
use crate::state::GameState;

verus! {

/// One installed callable and the kind it serves.
pub struct ProviderSlot {
    pub kind: ProviderKind,
    pub provider: ProviderImpl,
}

/// The mathematical model of a slot.
pub struct SlotModel {
    pub kind: ProviderKind,
    pub provider: ProviderModel,
}

impl View for ProviderSlot {
    type V = SlotModel;

    open spec fn view(&self) -> SlotModel {
        SlotModel { kind: self.kind, provider: self.provider@ }
    }
}

/// The model of a registry: its slots in registration order.
pub open spec fn slots_model(s: Seq<ProviderSlot>) -> Seq<SlotModel> {
    Seq::new(s.len(), |i: int| s[i]@)
}

/// The index of the first slot serving `k` at or after `i`.
pub open spec fn slot_index_from(s: Seq<SlotModel>, i: int, k: ProviderKind) -> Option<int>
    decreases s.len() - i,
{
    if i < 0 || i >= s.len() {
        None
    } else if s[i].kind == k {
        Some(i)
    } else {
        slot_index_from(s, i + 1, k)
    }
}

/// The index of the slot serving `k`, if one is installed.
pub open spec fn slot_index_of(s: Seq<SlotModel>, k: ProviderKind) -> Option<int> {
    slot_index_from(s, 0, k)
}

/// Whether a callable is installed for `k`.
pub open spec fn registered(s: Seq<SlotModel>, k: ProviderKind) -> bool {
    slot_index_of(s, k) is Some
}

/// `pm` with its input channel closed, where it has one.
pub open spec fn closed_model(pm: ProviderModel) -> ProviderModel {
    match pm {
        ProviderModel::Channel(cm) => ProviderModel::Channel(
            ChannelModel { closed: true, ..cm },
        ),
        _ => pm,
    }
}

/// Why an externally submitted action was not queued.
#[derive(Debug, Copy, Clone, PartialEq, Eq, Structural)]
pub enum InputRejected {
    /// No callable is installed for the kind.
    UnknownKind,
    /// The kind's callable takes no external input.
    NotInteractive,
    /// The callable's queue is full; submission never blocks.
    Full,
    /// The callable's channel is closed.
    Closed,
}

/// Holds exactly one live callable per provider kind bound in this process,
/// and resolves a kind to its callable on demand.
pub struct ProviderRegistry {
    pub slots: Vec<ProviderSlot>,
}

impl View for ProviderRegistry {
    type V = Seq<SlotModel>;

    open spec fn view(&self) -> Seq<SlotModel> {
        slots_model(self.slots@)
    }
}

impl ProviderRegistry {
    /// Kinds are unique and every callable's bookkeeping is sound.
    pub open spec fn wf(self) -> bool {
        &&& forall|i: int, j: int|
            0 <= i < j < self.slots@.len() ==> self.slots@[i].kind != self.slots@[j].kind
        &&& forall|i: int| 0 <= i < self.slots@.len() ==> self.slots@[i].provider.wf()
    }

    /// An empty registry.
    pub fn new() -> (r: ProviderRegistry)
        ensures
            r.wf(),
            r@ == Seq::<SlotModel>::empty(),
    {
        let r = ProviderRegistry { slots: Vec::new() };
        proof {
            assert(r@ =~= Seq::<SlotModel>::empty());
        }
        r
    }

    /// Finds the slot serving `k`.
    fn slot_index(&self, k: ProviderKind) -> (r: Option<usize>)
        ensures
            match r {
                Some(i) => {
                    &&& slot_index_of(self@, k) == Some(i as int)
                    &&& i < self.slots@.len()
                    &&& self.slots@[i as int].kind == k
                },
                None => {
                    &&& slot_index_of(self@, k) is None
                    &&& forall|j: int| 0 <= j < self.slots@.len() ==> self.slots@[j].kind != k
                },
            },
    {
        let n = self.slots.len();
        let mut i: usize = 0;
        while i < n
            invariant
                n == self.slots@.len(),
                self@.len() == self.slots@.len(),
                0 <= i <= n,
                slot_index_from(self@, i as int, k) == slot_index_of(self@, k),
                forall|j: int| 0 <= j < i ==> self.slots@[j].kind != k,
            decreases n - i,
        {
            if self.slots[i].kind == k {
                return Some(i);
            }
            i = i + 1;
        }
        None
    }

    /// Whether a callable is installed for `k`.
    pub fn is_registered(&self, k: ProviderKind) -> (r: bool)
        ensures
            r == registered(self@, k),
    {
        self.slot_index(k).is_some()
    }

    /// Installs `provider` as the one callable for `kind` in this process;
    /// a second installation for the same kind is refused and changes
    /// nothing.
    pub fn register(&mut self, kind: ProviderKind, provider: ProviderImpl) -> (r: Result<
        (),
        RuntimeError,
    >)
        requires
            old(self).wf(),
            provider.wf(),
        ensures
            final(self).wf(),
            registered(old(self)@, kind) ==> r == Result::<(), RuntimeError>::Err(
                RuntimeError::DuplicateProvider(kind),
            ) && final(self)@ == old(self)@,
            !registered(old(self)@, kind) ==> r == Result::<(), RuntimeError>::Ok(())
                && final(self)@ == old(self)@.push(SlotModel { kind, provider: provider@ }),
    {
        let found = self.slot_index(kind);
        match found {
            Option::Some(_) => Result::Err(RuntimeError::DuplicateProvider(kind)),
            Option::None => {
                self.slots.push(ProviderSlot { kind, provider });
                proof {
                    assert(self@ =~= old(self)@.push(
                        SlotModel { kind, provider: provider@ },
                    ));
                }
                Result::Ok(())
            },
        }
    }

    /// Resolves `kind` and invokes its callable for `e` against `state`;
    /// with no callable installed the turn-fatal `UnknownProviderKind` is
    /// reported and nothing changes.
    pub fn provide(&mut self, kind: ProviderKind, e: EntityId, state: &GameState) -> (r: Result<
        ProvideOutcome,
        RuntimeError,
    >)
        requires
            old(self).wf(),
        ensures
            final(self).wf(),
            slot_index_of(old(self)@, kind) is None ==> r == Result::<
                ProvideOutcome,
                RuntimeError,
            >::Err(RuntimeError::UnknownProviderKind(kind)) && final(self)@ == old(self)@,
            match slot_index_of(old(self)@, kind) {
                Some(i) => {
                    &&& r == Result::<ProvideOutcome, RuntimeError>::Ok(
                        provide_model(old(self)@[i].provider, e).0,
                    )
                    &&& final(self)@ == old(self)@.update(
                        i,
                        SlotModel {
                            kind: old(self)@[i].kind,
                            provider: provide_model(old(self)@[i].provider, e).1,
                        },
                    )
                },
                None => true,
            },
    {
        let found = self.slot_index(kind);
        match found {
            Option::None => Result::Err(RuntimeError::UnknownProviderKind(kind)),
            Option::Some(i) => {
                let out = provide_action(&mut self.slots[i].provider, e, state);
                proof {
                    assert(self@ =~= old(self)@.update(
                        i as int,
                        SlotModel {
                            kind: old(self)@[i as int].kind,
                            provider: provide_model(old(self)@[i as int].provider, e).1,
                        },
                    ));
                }
                Result::Ok(out)
            },
        }
    }

    /// Offers an externally produced action to the input channel of the
    /// callable serving `kind`, without blocking the producer.
    pub fn submit_input(&mut self, kind: ProviderKind, a: Action) -> (r: Result<(), InputRejected>)
        requires
            old(self).wf(),
        ensures
            final(self).wf(),
            slot_index_of(old(self)@, kind) is None ==> r == Result::<(), InputRejected>::Err(
                InputRejected::UnknownKind,
            ) && final(self)@ == old(self)@,
            match slot_index_of(old(self)@, kind) {
                Some(i) => match old(self)@[i].provider {
                    ProviderModel::Channel(cm) => {
                        &&& cm.closed ==> r == Result::<(), InputRejected>::Err(
                            InputRejected::Closed,
                        ) && final(self)@ == old(self)@
                        &&& !cm.closed && cm.queue.len() >= cm.cap ==> r == Result::<
                            (),
                            InputRejected,
                        >::Err(InputRejected::Full) && final(self)@ == old(self)@
                        &&& !cm.closed && cm.queue.len() < cm.cap ==> r == Result::<
                            (),
                            InputRejected,
                        >::Ok(()) && final(self)@ == old(self)@.update(
                            i,
                            SlotModel {
                                kind: old(self)@[i].kind,
                                provider: ProviderModel::Channel(
                                    ChannelModel { queue: cm.queue.push(a), ..cm },
                                ),
                            },
                        )
                    },
                    _ => r == Result::<(), InputRejected>::Err(InputRejected::NotInteractive)
                        && final(self)@ == old(self)@,
                },
                None => true,
            },
    {
        let found = self.slot_index(kind);
        match found {
            Option::None => Result::Err(InputRejected::UnknownKind),
            Option::Some(i) => {
                let r = match &mut self.slots[i].provider {
                    ProviderImpl::Channel(ch) => match ch.submit(a) {
                        Result::Ok(()) => Result::Ok(()),
                        Result::Err(crate::channel::SubmitError::Full) => Result::Err(
                            InputRejected::Full,
                        ),
                        Result::Err(crate::channel::SubmitError::Closed) => Result::Err(
                            InputRejected::Closed,
                        ),
                    },
                    _ => Result::Err(InputRejected::NotInteractive),
                };
                proof {
                    if r is Ok {
                        assert(self@ =~= old(self)@.update(
                            i as int,
                            SlotModel {
                                kind: old(self)@[i as int].kind,
                                provider: self.slots@[i as int].provider@,
                            },
                        ));
                    } else {
                        assert(self@ =~= old(self)@);
                    }
                }
                r
            },
        }
    }

    /// Closes the input channel of the callable serving `kind`, where it has
    /// one; the callable will no longer act once its queue is drained.
    pub fn close_kind(&mut self, kind: ProviderKind) -> (r: Result<(), RuntimeError>)
        requires
            old(self).wf(),
        ensures
            final(self).wf(),
            slot_index_of(old(self)@, kind) is None ==> r == Result::<(), RuntimeError>::Err(
                RuntimeError::UnknownProviderKind(kind),
            ) && final(self)@ == old(self)@,
            match slot_index_of(old(self)@, kind) {
                Some(i) => {
                    &&& r == Result::<(), RuntimeError>::Ok(())
                    &&& final(self)@ == old(self)@.update(
                        i,
                        SlotModel {
                            kind: old(self)@[i].kind,
                            provider: closed_model(old(self)@[i].provider),
                        },
                    )
                },
                None => true,
            },
    {
        let found = self.slot_index(kind);
        match found {
            Option::None => Result::Err(RuntimeError::UnknownProviderKind(kind)),
            Option::Some(i) => {
                match &mut self.slots[i].provider {
                    ProviderImpl::Channel(ch) => ch.close(),
                    _ => (),
                }
                proof {
                    assert(self@ =~= old(self)@.update(
                        i as int,
                        SlotModel {
                            kind: old(self)@[i as int].kind,
                            provider: closed_model(old(self)@[i as int].provider),
                        },
                    ));
                }
                Result::Ok(())
            },
        }
    }

    /// Closes every callable's input channel: session teardown releases all
    /// waiting consumers instead of leaking them.
    pub fn close_all(&mut self)
        requires
            old(self).wf(),
        ensures
            final(self).wf(),
            final(self)@.len() == old(self)@.len(),
            forall|i: int|
                0 <= i < old(self)@.len() ==> final(self)@[i] == (SlotModel {
                    kind: old(self)@[i].kind,
                    provider: closed_model(old(self)@[i].provider),
                }),
    {
        let n = self.slots.len();
        let mut i: usize = 0;
        while i < n
            invariant
                n == self.slots@.len(),
                old(self).wf(),
                self.wf(),
                0 <= i <= n,
                self@.len() == old(self)@.len(),
                forall|j: int| i <= j < n ==> self@[j] == old(self)@[j],
                forall|j: int| i <= j < n ==> self.slots@[j].kind == old(self).slots@[j].kind,
                forall|j: int|
                    0 <= j < i ==> self@[j] == (SlotModel {
                        kind: old(self)@[j].kind,
                        provider: closed_model(old(self)@[j].provider),
                    }),
                forall|j: int|
                    0 <= j < i ==> self.slots@[j].kind == old(self).slots@[j].kind,
            decreases n - i,
        {
            let ghost prev = self.slots@;
            match &mut self.slots[i].provider {
                ProviderImpl::Channel(ch) => ch.close(),
                _ => (),
            }
            proof {
                assert(self.slots@.len() == prev.len());
                assert forall|j: int| 0 <= j < i + 1 implies self@[j] == (SlotModel {
                    kind: old(self)@[j].kind,
                    provider: closed_model(old(self)@[j].provider),
                }) by {
                    assert(self@[j] == self.slots@[j]@);
                    if j < i {
                        assert(self.slots@[j] == prev[j]);
                        assert(slots_model(prev)[j] == prev[j]@);
                    }
                }
            }
            i = i + 1;
        }
    }
}

} // verus!
