//! Topic-partitioned event bus with bounded buffers and explicit lag.
//!
//! Publishing never blocks.  Each topic keeps the most recent events up to a
//! fixed capacity; a subscriber that falls behind is told exactly how many
//! events it missed, as a distinct `Lagged` outcome, before the next event is
//! delivered — loss is never silent.  Within one topic every subscriber
//! observes events in publish order; nothing is promised across topics.

use vstd::prelude::*;

use crate::action::Action;
use crate::error::ActionError;
use crate::state::ActionResult;

verus! {

/// A partition of the event bus, with its own subscriber set and its own
/// ordering guarantee.
#[derive(Debug, Copy, Clone, PartialEq, Eq, Hash, Structural)]
pub enum Topic {
    /// State-change notifications.
    GameState,
    /// Proof artifacts, published when proving is enabled.
    Proof,
    /// References to committed actions, resolved lazily by consumers.
    ActionRef,
}

/// An opaque handle to a proof artifact produced for a committed turn.
#[derive(Debug, Copy, Clone, PartialEq, Eq, Structural)]
pub struct ProofArtifact {
    /// Digest identifying the artifact with the proving backend.
    pub digest: u64,
}

/// A reference to a committed action: its slot in the committed log.
#[derive(Debug, Copy, Clone, PartialEq, Eq, Structural)]
pub struct ActionRef {
    /// The state nonce under which the action was committed.
    pub nonce: u64,
}

/// A state-change notification.
#[derive(Debug, Copy, Clone, PartialEq, Eq, Structural)]
pub enum GameStateEvent {
    /// An action was validated, committed and applied.
    ActionExecuted { action: Action, action_result: ActionResult },
    /// An action was rejected by the game rules; state is unchanged.
    ActionFailed { action: Action, error: ActionError },
    /// State was restored to an earlier snapshot.
    StateRestored { from_nonce: u64, to_nonce: u64 },
}

/// An event carried by the bus, keyed by topic.
#[derive(Debug, Copy, Clone, PartialEq, Eq, Structural)]
pub enum Event {
    GameState(GameStateEvent),
    Proof(ProofArtifact),
    ActionRef(ActionRef),
}

/// The topic an event is published on.
pub open spec fn topic_of(e: Event) -> Topic {
    match e {
        Event::GameState(_) => Topic::GameState,
        Event::Proof(_) => Topic::Proof,
        Event::ActionRef(_) => Topic::ActionRef,
    }
}

/// One topic's share of the bus: the full publish history as a ghost
/// sequence, and the retained tail of it as the bounded buffer.
pub struct TopicChannel {
    /// Every event ever published on this topic, in publish order.
    pub history: Ghost<Seq<Event>>,
    /// The most recent events, at most `cap` of them.
    pub buffer: Vec<Event>,
    /// Total number of events published on this topic.
    pub seq: usize,
    /// Buffer capacity; the oldest retained event is dropped beyond it.
    pub cap: usize,
    /// Whether the publisher side is gone; terminal for subscribers.
    pub closed: bool,
}

impl TopicChannel {
    /// The buffer retains exactly the most recent events of the history.
    pub open spec fn wf(self) -> bool {
        &&& self.cap >= 1
        &&& self.seq == self.history@.len()
        &&& self.buffer@.len() <= self.cap
        &&& self.buffer@.len() <= self.seq
        &&& self.buffer@ == self.history@.subrange(
            self.seq - self.buffer@.len(),
            self.seq as int,
        )
    }

    /// The position of the oldest event still retained.
    pub open spec fn oldest(self) -> int {
        self.seq - self.buffer@.len()
    }

    /// An empty topic channel with buffer capacity `cap`.
    pub fn new(cap: usize) -> (r: TopicChannel)
        requires
            cap >= 1,
        ensures
            r.wf(),
            r.history@ == Seq::<Event>::empty(),
            r.cap == cap,
            !r.closed,
    {
        let r = TopicChannel {
            history: Ghost(Seq::empty()),
            buffer: Vec::new(),
            seq: 0,
            cap,
            closed: false,
        };
        proof {
            assert(r.buffer@ =~= r.history@.subrange(0, 0));
        }
        r
    }

    /// Appends `e` to the topic without ever blocking the publisher: where
    /// the buffer is full, the oldest retained event is dropped.
    pub fn publish(&mut self, e: Event)
        requires
            old(self).wf(),
            old(self).seq < usize::MAX,
        ensures
            final(self).wf(),
            final(self).history@ == old(self).history@.push(e),
            final(self).seq == old(self).seq + 1,
            final(self).cap == old(self).cap,
            final(self).closed == old(self).closed,
    {
        self.buffer.push(e);
        if self.buffer.len() > self.cap {
            self.buffer.remove(0);
        }
        self.seq = self.seq + 1;
        proof {
            self.history@ = self.history@.push(e);
            assert(self.buffer@ =~= self.history@.subrange(
                self.seq - self.buffer@.len(),
                self.seq as int,
            ));
        }
    }

    /// Marks the publisher side as gone.
    pub fn close(&mut self)
        ensures
            *final(self) == (TopicChannel { closed: true, ..*old(self) }),
    {
        self.closed = true;
    }
}

/// What one read attempt yields for a subscriber.
#[derive(Debug, Copy, Clone, PartialEq, Eq, Structural)]
pub enum RecvOutcome {
    /// The next event of the topic, in publish order.
    Received(Event),
    /// No event is currently available; more may come.
    Empty,
    /// The subscriber fell behind and missed exactly this many events; it
    /// must treat itself as desynchronized and re-fetch a full snapshot.
    Lagged(u64),
    /// The publisher side is gone; terminal for this subscription.
    Closed,
}

/// A subscriber's handle on one topic: which topic, and how far into the
/// topic's history it has read.  Lag is a per-reader condition; readers never
/// coordinate with each other.
#[derive(Debug, Copy, Clone, PartialEq, Eq, Structural)]
pub struct Receiver {
    pub topic: Topic,
    /// Number of events of the topic's history already consumed or skipped.
    pub cursor: usize,
}

impl Receiver {
    /// The cursor never runs ahead of the topic's history.
    pub open spec fn wf_for(self, ch: TopicChannel) -> bool {
        self.cursor <= ch.seq
    }

    /// One non-blocking read attempt against the receiver's topic channel.
    ///
    /// A subscriber that missed events is handed `Lagged` with the exact
    /// count, before the next delivered event; a delivered event is always
    /// the one at the reader's own cursor, so no event is ever skipped
    /// silently.
    pub fn try_receive(&mut self, ch: &TopicChannel) -> (r: RecvOutcome)
        requires
            ch.wf(),
            old(self).wf_for(*ch),
        ensures
            final(self).wf_for(*ch),
            final(self).topic == old(self).topic,
            old(self).cursor < ch.oldest() ==> {
                &&& r == RecvOutcome::Lagged((ch.oldest() - old(self).cursor) as u64)
                &&& final(self).cursor == ch.oldest()
            },
            ch.oldest() <= old(self).cursor < ch.seq ==> {
                &&& r == RecvOutcome::Received(ch.history@[old(self).cursor as int])
                &&& final(self).cursor == old(self).cursor + 1
            },
            old(self).cursor == ch.seq ==> {
                &&& r == (if ch.closed {
                    RecvOutcome::Closed
                } else {
                    RecvOutcome::Empty
                })
                &&& final(self).cursor == old(self).cursor
            },
    {
        let oldest = ch.seq - ch.buffer.len();
        if self.cursor < oldest {
            let missed = oldest - self.cursor;
            self.cursor = oldest;
            RecvOutcome::Lagged(missed as u64)
        } else if self.cursor < ch.seq {
            let e = ch.buffer[self.cursor - oldest];
            self.cursor = self.cursor + 1;
            RecvOutcome::Received(e)
        } else if ch.closed {
            RecvOutcome::Closed
        } else {
            RecvOutcome::Empty
        }
    }
}

/// The process-wide event bus: one bounded channel per topic.
pub struct EventBus {
    pub game_state: TopicChannel,
    pub proofs: TopicChannel,
    pub action_refs: TopicChannel,
}

/// The channel of `bus` that carries `t`.
pub open spec fn channel_of(bus: EventBus, t: Topic) -> TopicChannel {
    match t {
        Topic::GameState => bus.game_state,
        Topic::Proof => bus.proofs,
        Topic::ActionRef => bus.action_refs,
    }
}

impl EventBus {
    /// All three topic channels are well-formed.
    pub open spec fn wf(self) -> bool {
        &&& self.game_state.wf()
        &&& self.proofs.wf()
        &&& self.action_refs.wf()
    }

    /// A fresh bus whose topics each buffer up to `cap` events.
    pub fn new(cap: usize) -> (r: EventBus)
        requires
            cap >= 1,
        ensures
            r.wf(),
            forall|t: Topic| channel_of(r, t).history@ == Seq::<Event>::empty(),
            forall|t: Topic| !channel_of(r, t).closed,
            forall|t: Topic| channel_of(r, t).cap == cap,
    {
        EventBus {
            game_state: TopicChannel::new(cap),
            proofs: TopicChannel::new(cap),
            action_refs: TopicChannel::new(cap),
        }
    }

    /// Publishes `e` on its topic without blocking; the other topics are
    /// untouched.
    pub fn publish(&mut self, e: Event)
        requires
            old(self).wf(),
            channel_of(*old(self), topic_of(e)).seq < usize::MAX,
        ensures
            final(self).wf(),
            channel_of(*final(self), topic_of(e)).history@ == channel_of(
                *old(self),
                topic_of(e),
            ).history@.push(e),
            channel_of(*final(self), topic_of(e)).cap == channel_of(*old(self), topic_of(e)).cap,
            channel_of(*final(self), topic_of(e)).closed == channel_of(
                *old(self),
                topic_of(e),
            ).closed,
            forall|t: Topic|
                t != topic_of(e) ==> channel_of(*final(self), t) == channel_of(*old(self), t),
            topic_of(e) != Topic::GameState ==> final(self).game_state == old(self).game_state,
            topic_of(e) != Topic::Proof ==> final(self).proofs == old(self).proofs,
            topic_of(e) != Topic::ActionRef ==> final(self).action_refs == old(self).action_refs,
    {
        match e {
            Event::GameState(_) => self.game_state.publish(e),
            Event::Proof(_) => self.proofs.publish(e),
            Event::ActionRef(_) => self.action_refs.publish(e),
        }
    }

    /// The channel carrying `t`.
    pub fn channel(&self, t: Topic) -> (r: &TopicChannel)
        ensures
            *r == channel_of(*self, t),
    {
        match t {
            Topic::GameState => &self.game_state,
            Topic::Proof => &self.proofs,
            Topic::ActionRef => &self.action_refs,
        }
    }

    /// Opens a subscription on `t`, positioned at the topic's current end:
    /// the receiver observes exactly the events published after this call.
    pub fn subscribe(&self, t: Topic) -> (r: Receiver)
        ensures
            r.topic == t,
            r.cursor == channel_of(*self, t).seq,
            r.wf_for(channel_of(*self, t)),
    {
        let cursor = match t {
            Topic::GameState => self.game_state.seq,
            Topic::Proof => self.proofs.seq,
            Topic::ActionRef => self.action_refs.seq,
        };
        Receiver { topic: t, cursor }
    }

    /// Closes every topic: teardown of the session.  Pending reads resolve
    /// with `Closed` once the histories are drained.
    pub fn close(&mut self)
        ensures
            final(self).game_state == (TopicChannel { closed: true, ..old(self).game_state }),
            final(self).proofs == (TopicChannel { closed: true, ..old(self).proofs }),
            final(self).action_refs == (TopicChannel { closed: true, ..old(self).action_refs }),
    {
        self.game_state.close();
        self.proofs.close();
        self.action_refs.close();
    }
}

} // verus!
