//! The action submission path of an interactive provider.
//!
//! External input sources hand actions into a bounded, single-consumer
//! queue.  Submission never blocks the producer: a full queue rejects new
//! input.  Closing the channel is the defined way to signal that the
//! provider will no longer act; a consumer drains what was already queued
//! and then sees the closure.

use vstd::prelude::*;

use crate::action::Action;

verus! {

/// The mathematical model of an input channel.
pub struct ChannelModel {
    /// Queued actions, oldest first.
    pub queue: Seq<Action>,
    /// Capacity of the queue.
    pub cap: nat,
    /// Whether the producer side is gone.
    pub closed: bool,
}

/// Why a submission was rejected.
#[derive(Debug, Copy, Clone, PartialEq, Eq, Structural)]
pub enum SubmitError {
    /// The queue is full; submission never blocks, so the input is refused.
    Full,
    /// The channel is closed and accepts no further input.
    Closed,
}

/// What one poll of a decision source yields.
#[derive(Debug, Copy, Clone, PartialEq, Eq, Structural)]
pub enum ProvideOutcome {
    /// The source produced an action.
    Ready(Action),
    /// No action yet; the caller may suspend and poll again.
    Pending,
    /// The source is closed and will never act again.
    Closed,
}

/// A bounded single-consumer queue feeding an interactive provider.
pub struct InputChannel {
    /// Queued actions, oldest first.
    pub queue: Vec<Action>,
    /// Capacity; submissions beyond it are rejected, never blocked on.
    pub cap: usize,
    /// Whether the channel was closed.
    pub closed: bool,
}

impl View for InputChannel {
    type V = ChannelModel;

    open spec fn view(&self) -> ChannelModel {
        ChannelModel { queue: self.queue@, cap: self.cap as nat, closed: self.closed }
    }
}

impl InputChannel {
    /// The queue never exceeds its capacity.
    pub open spec fn wf(self) -> bool {
        &&& self.cap >= 1
        &&& self.queue@.len() <= self.cap
    }

    /// An empty, open channel with room for `cap` queued actions.
    pub fn new(cap: usize) -> (r: InputChannel)
        requires
            cap >= 1,
        ensures
            r.wf(),
            r@ == (ChannelModel { queue: Seq::<Action>::empty(), cap: cap as nat, closed: false }),
    {
        InputChannel { queue: Vec::new(), cap, closed: false }
    }

    /// Offers `a` to the channel without blocking: a closed channel refuses
    /// it, a full queue refuses it, and otherwise it is queued behind the
    /// actions already waiting.
    pub fn submit(&mut self, a: Action) -> (r: Result<(), SubmitError>)
        requires
            old(self).wf(),
        ensures
            final(self).wf(),
            old(self).closed ==> r == Result::<(), SubmitError>::Err(SubmitError::Closed)
                && *final(self) == *old(self),
            !old(self).closed && old(self).queue@.len() >= old(self).cap ==> r == Result::<
                (),
                SubmitError,
            >::Err(SubmitError::Full) && *final(self) == *old(self),
            !old(self).closed && old(self).queue@.len() < old(self).cap ==> r == Result::<
                (),
                SubmitError,
            >::Ok(()) && final(self)@ == (ChannelModel {
                queue: old(self)@.queue.push(a),
                ..old(self)@
            }),
    {
        if self.closed {
            Result::Err(SubmitError::Closed)
        } else if self.queue.len() >= self.cap {
            Result::Err(SubmitError::Full)
        } else {
            self.queue.push(a);
            Result::Ok(())
        }
    }

    /// Polls the channel: the oldest queued action if any, then closure once
    /// the channel is closed and drained, and otherwise nothing yet.
    pub fn try_receive(&mut self) -> (r: ProvideOutcome)
        requires
            old(self).wf(),
        ensures
            final(self).wf(),
            old(self).queue@.len() > 0 ==> r == ProvideOutcome::Ready(old(self).queue@[0])
                && final(self)@ == (ChannelModel {
                queue: old(self)@.queue.drop_first(),
                ..old(self)@
            }),
            old(self).queue@.len() == 0 && old(self).closed ==> r == ProvideOutcome::Closed
                && *final(self) == *old(self),
            old(self).queue@.len() == 0 && !old(self).closed ==> r == ProvideOutcome::Pending
                && *final(self) == *old(self),
    {
        if self.queue.len() > 0 {
            let a = self.queue.remove(0);
            proof {
                assert(self.queue@ =~= old(self).queue@.drop_first());
            }
            ProvideOutcome::Ready(a)
        } else if self.closed {
            ProvideOutcome::Closed
        } else {
            ProvideOutcome::Pending
        }
    }

    /// Closes the channel: no further input is accepted, and a consumer that
    /// drains the queue then observes the closure instead of waiting.
    pub fn close(&mut self)
        ensures
            *final(self) == (InputChannel { closed: true, ..*old(self) }),
    {
        self.closed = true;
    }
}

} // verus!
