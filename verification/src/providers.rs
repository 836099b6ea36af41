//! The live decision sources a registry can hold, and their invocation.
//!
//! A provider is invoked with the acting entity and a state snapshot and
//! yields at most one action per request.  The automated sources are pure
//! functions of their inputs; the interactive sources read from a recorded
//! log or from an input channel.

use vstd::prelude::*;

use crate::action::{Action, ActionInput, ActionKind, CharacterAction, EntityId, wait_action};
use crate::channel::{ChannelModel, InputChannel, ProvideOutcome};
use crate::state::GameState;

verus! {

/// A recorded log of actions, replayed in order; once it is exhausted the
/// source is closed.
#[derive(Debug, PartialEq, Eq)]
pub struct ReplayLog {
    /// The recorded actions, oldest first.
    pub actions: Vec<Action>,
    /// How many have been replayed already.
    pub cursor: usize,
}

impl ReplayLog {
    /// The cursor never runs past the recording.
    pub open spec fn wf(self) -> bool {
        self.cursor <= self.actions@.len()
    }

    /// A log that will replay `actions` from the beginning.
    pub fn new(actions: Vec<Action>) -> (r: ReplayLog)
        ensures
            r.wf(),
            r.actions@ == actions@,
            r.cursor == 0,
    {
        ReplayLog { actions, cursor: 0 }
    }

    /// The actions not yet replayed.
    pub open spec fn remaining(self) -> Seq<Action> {
        self.actions@.skip(self.cursor as int)
    }
}

/// One candidate the utility source can pick, with its score.
#[derive(Debug, Copy, Clone, PartialEq, Eq, Structural)]
pub struct ScoredCandidate {
    pub kind: ActionKind,
    pub input: ActionInput,
    /// Utility of the candidate; the highest-scoring candidate wins.
    pub score: u32,
}

/// The pluggable, deterministic scoring table of the utility source: the
/// candidate actions of the acting entity, each already scored.  The source
/// picks the best; equal scores fall to the earliest candidate.
#[derive(Debug, PartialEq, Eq)]
pub struct UtilityPolicy {
    pub candidates: Vec<ScoredCandidate>,
}

/// The first index of a highest-scoring candidate among the first `n`.
pub open spec fn best_index_upto(cs: Seq<ScoredCandidate>, n: int) -> int
    decreases n,
{
    if n <= 1 {
        0
    } else {
        let b = best_index_upto(cs, n - 1);
        if cs[n - 1].score > cs[b].score {
            n - 1
        } else {
            b
        }
    }
}

/// The action the utility source owes `e`: its best-scored candidate, or a
/// plain wait where it has no candidates.
pub open spec fn utility_decision(cs: Seq<ScoredCandidate>, e: EntityId) -> Action {
    if cs.len() == 0 {
        wait_action(e)
    } else {
        let b = best_index_upto(cs, cs.len() as int);
        Action::Character(CharacterAction { actor: e, kind: cs[b].kind, input: cs[b].input })
    }
}

/// Picks the utility source's decision for `e`: the best-scored candidate,
/// the earliest of them on equal scores, and a plain wait with no
/// candidates.
pub fn decide_utility(p: &UtilityPolicy, e: EntityId) -> (a: Action)
    ensures
        a == utility_decision(p.candidates@, e),
{
    let n = p.candidates.len();
    if n == 0 {
        Action::wait(e)
    } else {
        let mut best: usize = 0;
        let mut i: usize = 1;
        while i < n
            invariant
                n == p.candidates@.len(),
                1 <= i <= n,
                best < i,
                best == best_index_upto(p.candidates@, i as int),
            decreases n - i,
        {
            if p.candidates[i].score > p.candidates[best].score {
                best = i;
            }
            i = i + 1;
        }
        let c = p.candidates[best];
        Action::Character(CharacterAction { actor: e, kind: c.kind, input: c.input })
    }
}

/// A live decision source.
pub enum ProviderImpl {
    /// An interactive source fed through a bounded input channel.
    Channel(InputChannel),
    /// A recorded log replayed in order.
    Replay(ReplayLog),
    /// The automated source that always waits.
    Wait,
    /// The automated source that picks its best-scored candidate.
    Utility(UtilityPolicy),
}

/// The mathematical model of a decision source.
pub enum ProviderModel {
    Channel(ChannelModel),
    /// The recorded actions not yet replayed.
    Replay(Seq<Action>),
    Wait,
    Utility(Seq<ScoredCandidate>),
}

impl View for ProviderImpl {
    type V = ProviderModel;

    open spec fn view(&self) -> ProviderModel {
        match self {
            ProviderImpl::Channel(ch) => ProviderModel::Channel(ch@),
            ProviderImpl::Replay(log) => ProviderModel::Replay(log.remaining()),
            ProviderImpl::Wait => ProviderModel::Wait,
            ProviderImpl::Utility(p) => ProviderModel::Utility(p.candidates@),
        }
    }
}

impl ProviderImpl {
    /// Well-formedness of the source's own bookkeeping.
    pub open spec fn wf(self) -> bool {
        match self {
            ProviderImpl::Channel(ch) => ch.wf(),
            ProviderImpl::Replay(log) => log.wf(),
            ProviderImpl::Wait => true,
            ProviderImpl::Utility(_) => true,
        }
    }
}

impl ProviderModel {
    /// True of the automated sources, which are pure functions of state.
    pub open spec fn is_ai(self) -> bool {
        self is Wait || self is Utility
    }
}

/// One invocation of a decision source for `e`: what it yields, and the
/// source as it stands afterwards.  The automated sources yield an action
/// and are unchanged; a replay log yields its next recorded action until it
/// is exhausted; a channel yields its oldest queued action, closure once it
/// is closed and drained, and otherwise nothing yet.
pub open spec fn provide_model(pm: ProviderModel, e: EntityId) -> (ProvideOutcome, ProviderModel) {
    match pm {
        ProviderModel::Wait => (ProvideOutcome::Ready(wait_action(e)), pm),
        ProviderModel::Utility(cs) => (ProvideOutcome::Ready(utility_decision(cs, e)), pm),
        ProviderModel::Replay(rem) => if rem.len() > 0 {
            (ProvideOutcome::Ready(rem[0]), ProviderModel::Replay(rem.drop_first()))
        } else {
            (ProvideOutcome::Closed, pm)
        },
        ProviderModel::Channel(cm) => if cm.queue.len() > 0 {
            (
                ProvideOutcome::Ready(cm.queue[0]),
                ProviderModel::Channel(ChannelModel { queue: cm.queue.drop_first(), ..cm }),
            )
        } else if cm.closed {
            (ProvideOutcome::Closed, pm)
        } else {
            (ProvideOutcome::Pending, pm)
        },
    }
}

/// Invokes the decision source `p` for `e` against the snapshot `state`.
///
/// The snapshot is part of the callable contract of every provider; the
/// sources this core ships decide from their own recorded data alone, which
/// is what makes them replay-deterministic.
pub fn provide_action(p: &mut ProviderImpl, e: EntityId, state: &GameState) -> (r: ProvideOutcome)
    requires
        old(p).wf(),
    ensures
        final(p).wf(),
        r == provide_model(old(p)@, e).0,
        final(p)@ == provide_model(old(p)@, e).1,
{
    match p {
        ProviderImpl::Wait => ProvideOutcome::Ready(Action::wait(e)),
        ProviderImpl::Utility(pol) => ProvideOutcome::Ready(decide_utility(pol, e)),
        ProviderImpl::Replay(log) => {
            if log.cursor < log.actions.len() {
                let a = log.actions[log.cursor];
                log.cursor = log.cursor + 1;
                proof {
                    assert(log.remaining() =~= old(p)@->Replay_0.drop_first());
                }
                ProvideOutcome::Ready(a)
            } else {
                ProvideOutcome::Closed
            }
        },
        ProviderImpl::Channel(ch) => ch.try_receive(),
    }
}

/// An automated source is a pure function of its inputs: invoked twice on
/// identical state, it yields the same action both times, and the source
/// itself never changes.
pub proof fn lemma_ai_provider_deterministic(pm: ProviderModel, e: EntityId)
    requires
        pm.is_ai(),
    ensures
        provide_model(pm, e).1 == pm,
        provide_model(provide_model(pm, e).1, e).0 == provide_model(pm, e).0,
{
}

} // verus!
