//! The oneshot channel table.
//!
//! One table maps event ids to single-slot channels, each owned by exactly
//! one receiver. Senders never block: a second completion before the poll
//! simply overwrites the slot (last write wins).

use crate::error::CompleteQError;
use crate::keyed::{
    assoc_find, assoc_get, assoc_has, assoc_unique, lemma_assoc_at, lemma_assoc_push,
    lemma_assoc_swap_remove,
};
use crate::result::{EmitInnerResult, ReceiveResult, TaskPoll};
use crate::user_event::UserEvent;
use vstd::prelude::*;

verus! {

/// Per-event-id state of one oneshot channel: a single payload slot and a
/// single receiver suspension slot.
pub struct Channel<Argument, W> {
    /// The suspended receiver's wake handle, if it has polled and found
    /// nothing.
    pub receiver: Option<W>,
    /// The undelivered payload, if a sender completed before the poll.
    pub pending_msg: Option<Argument>,
}

impl<Argument, W> Default for Channel<Argument, W> {
    /// An empty channel: no suspension, no payload.
    fn default() -> (r: Self)
        ensures
            r.receiver is None,
            r.pending_msg is None,
    {
        Channel { receiver: None, pending_msg: None }
    }
}

/// The wake handle of the receiver suspended on one oneshot channel, as a
/// sequence of zero or one entries.
pub open spec fn receiver_wakers<Argument, W>(ch: Channel<Argument, W>) -> Seq<W> {
    match ch.receiver {
        Some(w) => seq![w],
        None => Seq::empty(),
    }
}

/// The wake handles of every suspended receiver across a table's channels.
pub open spec fn all_receiver_wakers<Argument, W>(s: Seq<(u64, Channel<Argument, W>)>) -> Seq<W>
    decreases s.len(),
{
    if s.len() == 0 {
        Seq::empty()
    } else {
        receiver_wakers(s[0].1) + all_receiver_wakers(s.drop_first())
    }
}

/// The oneshot channel table: per-event-id single-slot channels, each with
/// exactly one live receiver.
pub struct CompleteQImpl<E: UserEvent, W> {
    /// The live channels, keyed by event id.
    pub channels: Vec<(u64, Channel<E::Argument, W>)>,
}

impl<E: UserEvent, W> CompleteQImpl<E, W> {
    /// Each event id has at most one channel.
    pub open spec fn wf(&self) -> bool {
        assoc_unique(self.channels@)
    }

    /// Whether a channel for `event_id` is in the table.
    pub open spec fn has_channel(&self, event_id: u64) -> bool {
        assoc_has(self.channels@, event_id)
    }

    /// The channel registered under `event_id` (meaningful only when
    /// `has_channel`).
    pub open spec fn channel(&self, event_id: u64) -> Channel<E::Argument, W> {
        assoc_get(self.channels@, event_id)
    }

    /// The suspended receiver's wake handle on `event_id`'s channel.
    pub open spec fn receiver_of(&self, event_id: u64) -> Option<W> {
        self.channel(event_id).receiver
    }

    /// The undelivered payload in `event_id`'s slot.
    pub open spec fn pending_of(&self, event_id: u64) -> Option<E::Argument> {
        self.channel(event_id).pending_msg
    }

    /// Every channel other than `event_id`'s is untouched.
    pub open spec fn agrees_except(pre: Self, post: Self, event_id: u64) -> bool {
        forall|k: u64|
            #![trigger post.has_channel(k)]
            #![trigger pre.has_channel(k)]
            k != event_id ==> post.has_channel(k) == pre.has_channel(k) && (pre.has_channel(k)
                ==> post.channel(k) == pre.channel(k))
    }

    /// An empty table.
    pub fn new() -> (r: Self)
        ensures
            r.wf(),
            r.channels@.len() == 0,
    {
        CompleteQImpl { channels: Vec::new() }
    }

    /// Remove and hand out the channel registered under `event_id`, if any.
    fn take_channel(&mut self, event_id: u64) -> (r: Option<Channel<E::Argument, W>>)
        requires
            old(self).wf(),
        ensures
            final(self).wf(),
            r is Some <==> old(self).has_channel(event_id),
            r matches Some(ch) ==> ch == old(self).channel(event_id),
            r is None ==> *final(self) == *old(self),
            !final(self).has_channel(event_id),
            Self::agrees_except(*old(self), *final(self), event_id),
    {
        match assoc_find(&self.channels, event_id) {
            None => None,
            Some(i) => {
                proof {
                    lemma_assoc_at(self.channels@, i as int);
                    lemma_assoc_swap_remove(self.channels@, i as int);
                }
                let entry = self.channels.swap_remove(i);
                Some(entry.1)
            },
        }
    }

    /// Register `ch` under `event_id`, which must be free.
    fn put_channel(&mut self, event_id: u64, ch: Channel<E::Argument, W>)
        requires
            old(self).wf(),
            !old(self).has_channel(event_id),
        ensures
            final(self).wf(),
            final(self).has_channel(event_id),
            final(self).channel(event_id) == ch,
            Self::agrees_except(*old(self), *final(self), event_id),
    {
        proof {
            lemma_assoc_push(self.channels@, event_id, ch);
        }
        self.channels.push((event_id, ch));
    }

    /// What `complete_one` does: deposit `event_arg` in `event_id`'s slot,
    /// overwriting any payload not yet consumed (last write wins), and take
    /// the suspended receiver's wake handle for the caller to invoke. With
    /// no channel the attempt reports `Closed`.
    pub open spec fn complete_one_rel(
        pre: Self,
        post: Self,
        event_id: u64,
        event_arg: E::Argument,
        r: EmitInnerResult<E>,
        wake: Option<W>,
    ) -> bool {
        &&& Self::agrees_except(pre, post, event_id)
        &&& if !pre.has_channel(event_id) {
            &&& post == pre
            &&& r is Closed
            &&& wake is None
        } else {
            &&& r is Completed
            &&& post.has_channel(event_id)
            &&& post.pending_of(event_id) == Some(event_arg)
            &&& post.receiver_of(event_id) is None
            &&& wake == pre.receiver_of(event_id)
        }
    }

    /// Deposit `event_arg` under `event_id`. `r.1` is the suspended
    /// receiver's wake handle, if it was waiting.
    pub fn complete_one(&mut self, event_id: u64, event_arg: E::Argument) -> (r: (
        EmitInnerResult<E>,
        Option<W>,
    ))
        requires
            old(self).wf(),
        ensures
            final(self).wf(),
            Self::complete_one_rel(*old(self), *final(self), event_id, event_arg, r.0, r.1),
    {
        match self.take_channel(event_id) {
            None => (EmitInnerResult::Closed, None),
            Some(mut ch) => {
                ch.pending_msg = Some(event_arg);
                let wake = ch.receiver.take();
                self.put_channel(event_id, ch);
                (EmitInnerResult::Completed, wake)
            },
        }
    }

    /// What `poll_once` does: a vanished channel resolves at once to an
    /// empty success; a filled slot hands over its payload (clearing the
    /// slot, without touching the suspension slot); an empty slot suspends
    /// the receiver by storing `waker`.
    pub open spec fn poll_once_rel(
        pre: Self,
        post: Self,
        event_id: u64,
        waker: W,
        r: TaskPoll<ReceiveResult<E>>,
    ) -> bool {
        &&& Self::agrees_except(pre, post, event_id)
        &&& if !pre.has_channel(event_id) {
            &&& post == pre
            &&& r == TaskPoll::<ReceiveResult<E>>::Ready(ReceiveResult::<E>::Success(None))
        } else if pre.pending_of(event_id) is Some {
            &&& r == TaskPoll::<ReceiveResult<E>>::Ready(
                ReceiveResult::<E>::Success(pre.pending_of(event_id)),
            )
            &&& post.has_channel(event_id)
            &&& post.pending_of(event_id) is None
            &&& post.receiver_of(event_id) == pre.receiver_of(event_id)
        } else {
            &&& r is Pending
            &&& post.has_channel(event_id)
            &&& post.pending_of(event_id) is None
            &&& post.receiver_of(event_id) == Some(waker)
        }
    }

    /// Poll for the payload of `event_id`, suspending (registering
    /// `waker`) when the slot is empty.
    pub fn poll_once(&mut self, event_id: u64, waker: W) -> (r: TaskPoll<ReceiveResult<E>>)
        requires
            old(self).wf(),
        ensures
            final(self).wf(),
            Self::poll_once_rel(*old(self), *final(self), event_id, waker, r),
    {
        match self.take_channel(event_id) {
            None => TaskPoll::Ready(ReceiveResult::Success(None)),
            Some(mut ch) => {
                match ch.pending_msg.take() {
                    Some(argument) => {
                        self.put_channel(event_id, ch);
                        TaskPoll::Ready(ReceiveResult::Success(Some(argument)))
                    },
                    None => {
                        ch.receiver = Some(waker);
                        self.put_channel(event_id, ch);
                        TaskPoll::Pending
                    },
                }
            },
        }
    }

    /// What `open_channel` does: claim `event_id` for its one receiver. A
    /// second claim while the first is live fails with `OpenChannelTwice`
    /// and disturbs nothing.
    pub open spec fn open_channel_rel(
        pre: Self,
        post: Self,
        event_id: u64,
        r: Result<(), CompleteQError>,
    ) -> bool {
        &&& Self::agrees_except(pre, post, event_id)
        &&& if pre.has_channel(event_id) {
            &&& r == Result::<(), CompleteQError>::Err(CompleteQError::OpenChannelTwice)
            &&& post == pre
        } else {
            &&& r == Result::<(), CompleteQError>::Ok(())
            &&& post.has_channel(event_id)
            &&& post.pending_of(event_id) is None
            &&& post.receiver_of(event_id) is None
        }
    }

    /// Claim the channel for `event_id`; fails with
    /// [`CompleteQError::OpenChannelTwice`] exactly when the id already has
    /// a live receiver.
    pub fn open_channel(&mut self, event_id: u64) -> (r: Result<(), CompleteQError>)
        requires
            old(self).wf(),
        ensures
            final(self).wf(),
            Self::open_channel_rel(*old(self), *final(self), event_id, r),
    {
        match assoc_find(&self.channels, event_id) {
            Some(_) => Err(CompleteQError::OpenChannelTwice),
            None => {
                let ch: Channel<E::Argument, W> = Default::default();
                self.put_channel(event_id, ch);
                Ok(())
            },
        }
    }

    /// What `close_channel` does: remove `event_id`'s channel outright,
    /// discarding any unconsumed payload.
    pub open spec fn close_channel_rel(pre: Self, post: Self, event_id: u64) -> bool {
        &&& Self::agrees_except(pre, post, event_id)
        &&& !post.has_channel(event_id)
        &&& (!pre.has_channel(event_id) ==> post == pre)
    }

    /// Remove `event_id`'s channel outright.
    pub fn close_channel(&mut self, event_id: u64)
        requires
            old(self).wf(),
        ensures
            final(self).wf(),
            Self::close_channel_rel(*old(self), *final(self), event_id),
    {
        match self.take_channel(event_id) {
            Some(_) => (),
            None => (),
        }
    }

    /// What `remove_pending_poll` does: clear `event_id`'s suspension slot
    /// and hand the wake handle back. An absent channel is a legitimate
    /// transient state: nothing happens.
    pub open spec fn remove_pending_poll_rel(
        pre: Self,
        post: Self,
        event_id: u64,
        r: Option<W>,
    ) -> bool {
        &&& Self::agrees_except(pre, post, event_id)
        &&& if !pre.has_channel(event_id) {
            &&& post == pre
            &&& r is None
        } else {
            &&& post.has_channel(event_id)
            &&& post.pending_of(event_id) == pre.pending_of(event_id)
            &&& post.receiver_of(event_id) is None
            &&& r == pre.receiver_of(event_id)
        }
    }

    /// Clear `event_id`'s suspension slot, if any, and hand back its wake
    /// handle (to be invoked once, forcing a re-poll without delivering a
    /// payload).
    pub fn remove_pending_poll(&mut self, event_id: u64) -> (r: Option<W>)
        requires
            old(self).wf(),
        ensures
            final(self).wf(),
            Self::remove_pending_poll_rel(*old(self), *final(self), event_id, r),
    {
        match self.take_channel(event_id) {
            None => None,
            Some(mut ch) => {
                let wake = ch.receiver.take();
                self.put_channel(event_id, ch);
                wake
            },
        }
    }

    /// Empty the whole table, handing back the wake handles of every
    /// suspended receiver; their next poll observes the channels gone. An
    /// emergency shutdown primitive.
    pub fn cancel_all(&mut self) -> (wakes: Vec<W>)
        requires
            old(self).wf(),
        ensures
            final(self).wf(),
            final(self).channels@.len() == 0,
            forall|k: u64| !final(self).has_channel(k),
            wakes@ == all_receiver_wakers(old(self).channels@),
    {
        let ghost total = all_receiver_wakers(self.channels@);
        let mut wakes: Vec<W> = Vec::new();
        while self.channels.len() > 0
            invariant
                self.wf(),
                wakes@ + all_receiver_wakers(self.channels@) == total,
            decreases self.channels@.len(),
        {
            let ghost s_pre = self.channels@;
            let entry = self.channels.remove(0);
            proof {
                assert(self.channels@ =~= s_pre.drop_first());
                assert(all_receiver_wakers(s_pre) == receiver_wakers(entry.1)
                    + all_receiver_wakers(s_pre.drop_first()));
            }
            let ch = entry.1;
            if let Some(w) = ch.receiver {
                wakes.push(w);
            }
            proof {
                assert(wakes@ + all_receiver_wakers(self.channels@) =~= total);
            }
        }
        proof {
            assert(all_receiver_wakers(self.channels@) == Seq::<W>::empty());
            assert(wakes@ =~= total);
        }
        wakes
    }

    /// Oneshot double-open: opening the same event id a second time while
    /// the first receiver is live fails with `OpenChannelTwice` and leaves
    /// the first receiver's channel exactly as it was.
    pub proof fn lemma_double_open(
        q0: Self,
        q1: Self,
        q2: Self,
        event_id: u64,
        r1: Result<(), CompleteQError>,
        r2: Result<(), CompleteQError>,
    )
        requires
            !q0.has_channel(event_id),
            Self::open_channel_rel(q0, q1, event_id, r1),
            Self::open_channel_rel(q1, q2, event_id, r2),
        ensures
            r1 == Result::<(), CompleteQError>::Ok(()),
            r2 == Result::<(), CompleteQError>::Err(CompleteQError::OpenChannelTwice),
            q2 == q1,
    {
    }
}

} // verus!
