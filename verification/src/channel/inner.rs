//! The multi-message channel table.
//!
//! One table maps event ids to bounded, multi-receiver channels. Every
//! operation is a single atomic step on the table value; operations that
//! would wake a suspended party hand its wake handle back to the caller
//! instead of invoking anything themselves.

use crate::keyed::{
    assoc_find, assoc_get, assoc_has, assoc_removed, assoc_unique, assoc_upserted,
    lemma_assoc_at, lemma_assoc_push, lemma_assoc_swap_remove, lemma_assoc_update,
};
use crate::result::{EmitInnerResult, ReceiveResult, TaskPoll};
use crate::user_event::UserEvent;
use vstd::prelude::*;

verus! {

/// Per-event-id state of one bounded multi-message channel.
pub struct Channel<Argument, W> {
    /// Number of live receivers sharing this event id. The table releases
    /// the channel when this drops to zero.
    pub ref_count: usize,
    /// Capacity: how many undelivered payloads the queue may hold before
    /// senders are made to wait. The most recently registered receiver's
    /// value wins.
    pub max_len: usize,
    /// Wake handles of suspended receivers, keyed by receiver id.
    pub receivers: Vec<(u64, W)>,
    /// Undelivered payloads, oldest first.
    pub pending_msgs: Vec<Argument>,
    /// Wake handles of senders suspended by backpressure, oldest first.
    pub senders: Vec<W>,
}

impl<Argument, W> Channel<Argument, W> {
    /// A live channel: referenced by at least one receiver, and with at most
    /// one suspension per receiver id.
    pub open spec fn wf(&self) -> bool {
        &&& assoc_unique(self.receivers@)
        &&& self.ref_count >= 1
    }
}

impl<Argument, W> Default for Channel<Argument, W> {
    /// An unreferenced channel with the default capacity of 10.
    fn default() -> (r: Self)
        ensures
            r.ref_count == 0,
            r.max_len == 10,
            r.receivers@ == Seq::<(u64, W)>::empty(),
            r.pending_msgs@ == Seq::<Argument>::empty(),
            r.senders@ == Seq::<W>::empty(),
    {
        Channel {
            ref_count: 0,
            max_len: 10,
            receivers: Vec::new(),
            pending_msgs: Vec::new(),
            senders: Vec::new(),
        }
    }
}

/// The wake handles of the receivers suspended on one channel, in
/// registration-table order.
pub open spec fn receiver_wakers<Argument, W>(ch: Channel<Argument, W>) -> Seq<W> {
    ch.receivers@.map_values(|p: (u64, W)| p.1)
}

/// The wake handles of every suspended receiver across a table's channels.
pub open spec fn all_receiver_wakers<Argument, W>(s: Seq<(u64, Channel<Argument, W>)>) -> Seq<W>
    decreases s.len(),
{
    if s.len() == 0 {
        Seq::empty()
    } else {
        receiver_wakers(s[0].1) + all_receiver_wakers(s.drop_first())
    }
}

/// The multi-message channel table: per-event-id channels, each with a
/// bounded payload queue, shared by any number of receivers and senders.
pub struct CompleteQImpl<E: UserEvent, W> {
    /// The live channels, keyed by event id.
    pub channels: Vec<(u64, Channel<E::Argument, W>)>,
}

impl<E: UserEvent, W> CompleteQImpl<E, W> {
    /// Each event id has at most one channel, and each channel is live.
    pub open spec fn wf(&self) -> bool {
        &&& assoc_unique(self.channels@)
        &&& forall|i: int|
            0 <= i < self.channels@.len() ==> (#[trigger] self.channels@[i]).1.wf()
    }

    /// Whether a channel for `event_id` is in the table.
    pub open spec fn has_channel(&self, event_id: u64) -> bool {
        assoc_has(self.channels@, event_id)
    }

    /// The channel registered under `event_id` (meaningful only when
    /// `has_channel`).
    pub open spec fn channel(&self, event_id: u64) -> Channel<E::Argument, W> {
        assoc_get(self.channels@, event_id)
    }

    /// The number of live receivers on `event_id`'s channel.
    pub open spec fn ref_count_of(&self, event_id: u64) -> usize {
        self.channel(event_id).ref_count
    }

    /// The capacity of `event_id`'s channel.
    pub open spec fn max_len_of(&self, event_id: u64) -> usize {
        self.channel(event_id).max_len
    }

    /// The undelivered payloads queued on `event_id`'s channel, oldest
    /// first.
    pub open spec fn pending_of(&self, event_id: u64) -> Seq<E::Argument> {
        self.channel(event_id).pending_msgs@
    }

    /// The suspended receivers of `event_id`'s channel: (receiver id, wake
    /// handle) entries.
    pub open spec fn receivers_of(&self, event_id: u64) -> Seq<(u64, W)> {
        self.channel(event_id).receivers@
    }

    /// The wake handles of senders suspended on `event_id`'s channel,
    /// oldest first.
    pub open spec fn senders_of(&self, event_id: u64) -> Seq<W> {
        self.channel(event_id).senders@
    }

    /// Every channel other than `event_id`'s is untouched.
    pub open spec fn agrees_except(pre: Self, post: Self, event_id: u64) -> bool {
        forall|k: u64|
            #![trigger post.has_channel(k)]
            #![trigger pre.has_channel(k)]
            k != event_id ==> post.has_channel(k) == pre.has_channel(k) && (pre.has_channel(k)
                ==> post.channel(k) == pre.channel(k))
    }

    /// An empty table.
    pub fn new() -> (r: Self)
        ensures
            r.wf(),
            r.channels@.len() == 0,
    {
        CompleteQImpl { channels: Vec::new() }
    }

    /// The number of live receivers on `event_id`'s channel, 0 when no
    /// channel exists.
    pub fn ref_count(&self, event_id: u64) -> (r: usize)
        requires
            self.wf(),
        ensures
            r == if self.has_channel(event_id) {
                self.ref_count_of(event_id)
            } else {
                0
            },
    {
        match assoc_find(&self.channels, event_id) {
            Some(i) => {
                proof {
                    lemma_assoc_at(self.channels@, i as int);
                }
                self.channels[i].1.ref_count
            },
            None => 0,
        }
    }

    /// Remove and hand out the channel registered under `event_id`, if any.
    fn take_channel(&mut self, event_id: u64) -> (r: Option<Channel<E::Argument, W>>)
        requires
            old(self).wf(),
        ensures
            final(self).wf(),
            r is Some <==> old(self).has_channel(event_id),
            r matches Some(ch) ==> ch == old(self).channel(event_id) && ch.wf(),
            r is None ==> *final(self) == *old(self),
            !final(self).has_channel(event_id),
            Self::agrees_except(*old(self), *final(self), event_id),
    {
        match assoc_find(&self.channels, event_id) {
            None => None,
            Some(i) => {
                proof {
                    lemma_assoc_at(self.channels@, i as int);
                    lemma_assoc_swap_remove(self.channels@, i as int);
                    assert forall|j: int|
                        0 <= j < self.channels@.len() - 1 implies (#[trigger] self.channels@.update(
                        i as int,
                        self.channels@.last(),
                    ).drop_last()[j]).1.wf() by {
                        let s = self.channels@;
                        let n = s.len() as int;
                        assert(s.update(i as int, s.last()).drop_last()[j] == (if j == i as int {
                            s[n - 1]
                        } else {
                            s[j]
                        }));
                    }
                }
                let entry = self.channels.swap_remove(i);
                Some(entry.1)
            },
        }
    }

    /// Register `ch` under `event_id`, which must be free.
    fn put_channel(&mut self, event_id: u64, ch: Channel<E::Argument, W>)
        requires
            old(self).wf(),
            !old(self).has_channel(event_id),
            ch.wf(),
        ensures
            final(self).wf(),
            final(self).has_channel(event_id),
            final(self).channel(event_id) == ch,
            Self::agrees_except(*old(self), *final(self), event_id),
    {
        proof {
            lemma_assoc_push(self.channels@, event_id, ch);
            assert forall|j: int|
                0 <= j < self.channels@.push((event_id, ch)).len() implies (
            #[trigger] self.channels@.push((event_id, ch))[j]).1.wf() by {
                let s = self.channels@;
                if j < s.len() {
                    assert(s.push((event_id, ch))[j] == s[j]);
                } else {
                    assert(s.push((event_id, ch))[j] == (event_id, ch));
                }
            }
        }
        self.channels.push((event_id, ch));
    }

    /// What `open_channel` does: join `event_id`'s channel, creating it with
    /// reference count 1 if absent, else bumping the count; either way the
    /// capacity is reset to `max_len` (last writer wins). `r` is the
    /// resulting reference count.
    pub open spec fn open_channel_rel(
        pre: Self,
        post: Self,
        event_id: u64,
        max_len: usize,
        r: usize,
    ) -> bool {
        &&& Self::agrees_except(pre, post, event_id)
        &&& post.has_channel(event_id)
        &&& post.max_len_of(event_id) == max_len
        &&& r == post.ref_count_of(event_id)
        &&& if pre.has_channel(event_id) {
            &&& post.ref_count_of(event_id) == pre.ref_count_of(event_id) + 1
            &&& post.pending_of(event_id) == pre.pending_of(event_id)
            &&& post.receivers_of(event_id) == pre.receivers_of(event_id)
            &&& post.senders_of(event_id) == pre.senders_of(event_id)
        } else {
            &&& post.ref_count_of(event_id) == 1
            &&& post.pending_of(event_id) == Seq::<E::Argument>::empty()
            &&& post.receivers_of(event_id) == Seq::<(u64, W)>::empty()
            &&& post.senders_of(event_id) == Seq::<W>::empty()
        }
    }

    /// Open (or join) the channel for `event_id` and return the resulting
    /// receiver reference count. One call per receiver construction.
    pub fn open_channel(&mut self, event_id: u64, max_len: usize) -> (r: usize)
        requires
            old(self).wf(),
            old(self).has_channel(event_id) ==> old(self).ref_count_of(event_id) < usize::MAX,
        ensures
            final(self).wf(),
            Self::open_channel_rel(*old(self), *final(self), event_id, max_len, r),
    {
        match self.take_channel(event_id) {
            Some(mut ch) => {
                ch.ref_count = ch.ref_count + 1;
                ch.max_len = max_len;
                let r = ch.ref_count;
                self.put_channel(event_id, ch);
                r
            },
            None => {
                let mut ch: Channel<E::Argument, W> = Default::default();
                ch.ref_count = 1;
                ch.max_len = max_len;
                self.put_channel(event_id, ch);
                1
            },
        }
    }

    /// What `close_channel` does: drop one receiver reference. The last
    /// reference removes the channel outright, discarding still-pending
    /// payloads; the senders still blocked on it come back in `wakes` so the
    /// caller can wake them to observe the closure. `r` is the remaining
    /// count (0 when the channel was absent or removed).
    pub open spec fn close_channel_rel(
        pre: Self,
        post: Self,
        event_id: u64,
        r: usize,
        wakes: Seq<W>,
    ) -> bool {
        &&& Self::agrees_except(pre, post, event_id)
        &&& if !pre.has_channel(event_id) {
            &&& post == pre
            &&& r == 0
            &&& wakes == Seq::<W>::empty()
        } else if pre.ref_count_of(event_id) == 1 {
            &&& !post.has_channel(event_id)
            &&& r == 0
            &&& wakes == pre.senders_of(event_id)
        } else {
            &&& post.has_channel(event_id)
            &&& post.ref_count_of(event_id) == pre.ref_count_of(event_id) - 1
            &&& post.max_len_of(event_id) == pre.max_len_of(event_id)
            &&& post.pending_of(event_id) == pre.pending_of(event_id)
            &&& post.receivers_of(event_id) == pre.receivers_of(event_id)
            &&& post.senders_of(event_id) == pre.senders_of(event_id)
            &&& r == post.ref_count_of(event_id)
            &&& wakes == Seq::<W>::empty()
        }
    }

    /// Drop one receiver reference to `event_id`'s channel, removing the
    /// channel when it was the last. Returns the remaining count and the
    /// wake handles of senders to be woken (they will observe the channel
    /// gone).
    pub fn close_channel(&mut self, event_id: u64) -> (r: (usize, Vec<W>))
        requires
            old(self).wf(),
        ensures
            final(self).wf(),
            Self::close_channel_rel(*old(self), *final(self), event_id, r.0, r.1@),
    {
        match self.take_channel(event_id) {
            None => (0, Vec::new()),
            Some(mut ch) => {
                if ch.ref_count == 1 {
                    (0, ch.senders)
                } else {
                    ch.ref_count = ch.ref_count - 1;
                    let r = ch.ref_count;
                    self.put_channel(event_id, ch);
                    (r, Vec::new())
                }
            },
        }
    }

    /// What `complete_one` does: deposit a payload for `event_id`. Without a
    /// channel the attempt reports `Closed`. With a full queue the payload
    /// comes back as `Pending` and the sender's wake handle joins the
    /// blocked-sender queue. Otherwise the payload joins the queue and one
    /// arbitrarily chosen suspended receiver — if any — is deregistered, its
    /// wake handle handed back in `wake`.
    pub open spec fn complete_one_rel(
        pre: Self,
        post: Self,
        event_id: u64,
        event_arg: E::Argument,
        waker: W,
        r: EmitInnerResult<E>,
        wake: Option<W>,
    ) -> bool {
        &&& Self::agrees_except(pre, post, event_id)
        &&& if !pre.has_channel(event_id) {
            &&& post == pre
            &&& r is Closed
            &&& wake is None
        } else if pre.pending_of(event_id).len() >= pre.max_len_of(event_id) {
            &&& r == EmitInnerResult::<E>::Pending(event_arg)
            &&& wake is None
            &&& post.has_channel(event_id)
            &&& post.ref_count_of(event_id) == pre.ref_count_of(event_id)
            &&& post.max_len_of(event_id) == pre.max_len_of(event_id)
            &&& post.pending_of(event_id) == pre.pending_of(event_id)
            &&& post.receivers_of(event_id) == pre.receivers_of(event_id)
            &&& post.senders_of(event_id) == pre.senders_of(event_id).push(waker)
        } else {
            &&& r is Completed
            &&& post.has_channel(event_id)
            &&& post.ref_count_of(event_id) == pre.ref_count_of(event_id)
            &&& post.max_len_of(event_id) == pre.max_len_of(event_id)
            &&& post.pending_of(event_id) == pre.pending_of(event_id).push(event_arg)
            &&& post.senders_of(event_id) == pre.senders_of(event_id)
            &&& if pre.receivers_of(event_id).len() == 0 {
                &&& wake is None
                &&& post.receivers_of(event_id) == pre.receivers_of(event_id)
            } else {
                exists|i: int|
                    0 <= i < pre.receivers_of(event_id).len() && wake == Some(
                        (#[trigger] pre.receivers_of(event_id)[i]).1,
                    ) && assoc_removed(
                        pre.receivers_of(event_id),
                        post.receivers_of(event_id),
                        pre.receivers_of(event_id)[i].0,
                    )
            }
        }
    }

    /// Attempt to deposit `event_arg` under `event_id`. `r.1` is the wake
    /// handle of the one receiver to wake, if any was suspended.
    pub fn complete_one(&mut self, event_id: u64, event_arg: E::Argument, waker: W) -> (r: (
        EmitInnerResult<E>,
        Option<W>,
    ))
        requires
            old(self).wf(),
        ensures
            final(self).wf(),
            Self::complete_one_rel(
                *old(self),
                *final(self),
                event_id,
                event_arg,
                waker,
                r.0,
                r.1,
            ),
    {
        match self.take_channel(event_id) {
            None => (EmitInnerResult::Closed, None),
            Some(mut ch) => {
                if ch.pending_msgs.len() >= ch.max_len {
                    ch.senders.push(waker);
                    self.put_channel(event_id, ch);
                    (EmitInnerResult::Pending(event_arg), None)
                } else {
                    ch.pending_msgs.push(event_arg);
                    let ghost pre_receivers = ch.receivers@;
                    let wake: Option<W> = if ch.receivers.len() > 0 {
                        proof {
                            lemma_assoc_at(ch.receivers@, 0);
                            lemma_assoc_swap_remove(ch.receivers@, 0);
                        }
                        let entry = ch.receivers.swap_remove(0);
                        Some(entry.1)
                    } else {
                        None
                    };
                    self.put_channel(event_id, ch);
                    proof {
                        if pre_receivers.len() > 0 {
                            assert(wake == Some(pre_receivers[0].1));
                            assert(assoc_removed(
                                pre_receivers,
                                final(self).receivers_of(event_id),
                                pre_receivers[0].0,
                            ));
                        }
                    }
                    (EmitInnerResult::Completed, wake)
                }
            },
        }
    }

    /// What `poll_once` does for the receiver `receiver_id` on `event_id`.
    /// A vanished channel resolves at once to an empty success. A non-empty
    /// queue hands over its oldest payload and — if senders are blocked —
    /// the oldest blocked sender's wake handle. An empty queue suspends the
    /// receiver: its wake handle is registered under `receiver_id`.
    pub open spec fn poll_once_rel(
        pre: Self,
        post: Self,
        receiver_id: u64,
        event_id: u64,
        waker: W,
        r: TaskPoll<ReceiveResult<E>>,
        sender_wake: Option<W>,
    ) -> bool {
        &&& Self::agrees_except(pre, post, event_id)
        &&& if !pre.has_channel(event_id) {
            &&& post == pre
            &&& r == TaskPoll::<ReceiveResult<E>>::Ready(ReceiveResult::<E>::Success(None))
            &&& sender_wake is None
        } else if pre.pending_of(event_id).len() > 0 {
            &&& r == TaskPoll::<ReceiveResult<E>>::Ready(
                ReceiveResult::<E>::Success(Some(pre.pending_of(event_id)[0])),
            )
            &&& post.has_channel(event_id)
            &&& post.ref_count_of(event_id) == pre.ref_count_of(event_id)
            &&& post.max_len_of(event_id) == pre.max_len_of(event_id)
            &&& post.pending_of(event_id) == pre.pending_of(event_id).drop_first()
            &&& post.receivers_of(event_id) == pre.receivers_of(event_id)
            &&& if pre.senders_of(event_id).len() > 0 {
                &&& sender_wake == Some(pre.senders_of(event_id)[0])
                &&& post.senders_of(event_id) == pre.senders_of(event_id).drop_first()
            } else {
                &&& sender_wake is None
                &&& post.senders_of(event_id) == pre.senders_of(event_id)
            }
        } else {
            &&& r is Pending
            &&& sender_wake is None
            &&& post.has_channel(event_id)
            &&& post.ref_count_of(event_id) == pre.ref_count_of(event_id)
            &&& post.max_len_of(event_id) == pre.max_len_of(event_id)
            &&& post.pending_of(event_id) == pre.pending_of(event_id)
            &&& post.senders_of(event_id) == pre.senders_of(event_id)
            &&& assoc_upserted(
                pre.receivers_of(event_id),
                post.receivers_of(event_id),
                receiver_id,
                waker,
            )
        }
    }

    /// Poll for a payload on `event_id` as receiver `receiver_id`,
    /// suspending (registering `waker`) when the queue is empty. Delivery is
    /// weak FIFO: the payload handed out is always the oldest one queued.
    /// `r.1` is the wake handle of the oldest blocked sender, handed back
    /// when a queue slot was freed.
    pub fn poll_once(&mut self, receiver_id: u64, event_id: u64, waker: W) -> (r: (
        TaskPoll<ReceiveResult<E>>,
        Option<W>,
    ))
        requires
            old(self).wf(),
        ensures
            final(self).wf(),
            Self::poll_once_rel(
                *old(self),
                *final(self),
                receiver_id,
                event_id,
                waker,
                r.0,
                r.1,
            ),
    {
        match self.take_channel(event_id) {
            None => (TaskPoll::Ready(ReceiveResult::Success(None)), None),
            Some(mut ch) => {
                if ch.pending_msgs.len() > 0 {
                    let argument = ch.pending_msgs.remove(0);
                    let sender_wake: Option<W> = if ch.senders.len() > 0 {
                        Some(ch.senders.remove(0))
                    } else {
                        None
                    };
                    proof {
                        assert(ch.pending_msgs@ =~= old(self).pending_of(event_id).drop_first());
                        assert(ch.senders@ =~= if old(self).senders_of(event_id).len() > 0 {
                            old(self).senders_of(event_id).drop_first()
                        } else {
                            old(self).senders_of(event_id)
                        });
                    }
                    self.put_channel(event_id, ch);
                    (TaskPoll::Ready(ReceiveResult::Success(Some(argument))), sender_wake)
                } else {
                    match assoc_find(&ch.receivers, receiver_id) {
                        Some(j) => {
                            proof {
                                lemma_assoc_at(ch.receivers@, j as int);
                                lemma_assoc_update(ch.receivers@, j as int, waker);
                            }
                            ch.receivers.set(j, (receiver_id, waker));
                        },
                        None => {
                            proof {
                                lemma_assoc_push(ch.receivers@, receiver_id, waker);
                            }
                            ch.receivers.push((receiver_id, waker));
                        },
                    }
                    self.put_channel(event_id, ch);
                    (TaskPoll::Pending, None)
                }
            },
        }
    }

    /// What `remove_pending_poll` does: deregister receiver `receiver_id`'s
    /// suspension on `event_id`, handing its wake handle back so the caller
    /// can force a re-poll. Nothing changes when no such suspension exists.
    pub open spec fn remove_pending_poll_rel(
        pre: Self,
        post: Self,
        receiver_id: u64,
        event_id: u64,
        r: Option<W>,
    ) -> bool {
        &&& Self::agrees_except(pre, post, event_id)
        &&& if !pre.has_channel(event_id) {
            &&& post == pre
            &&& r is None
        } else if !assoc_has(pre.receivers_of(event_id), receiver_id) {
            &&& post.has_channel(event_id)
            &&& post.channel(event_id) == pre.channel(event_id)
            &&& r is None
        } else {
            &&& r == Some(assoc_get(pre.receivers_of(event_id), receiver_id))
            &&& post.has_channel(event_id)
            &&& post.ref_count_of(event_id) == pre.ref_count_of(event_id)
            &&& post.max_len_of(event_id) == pre.max_len_of(event_id)
            &&& post.pending_of(event_id) == pre.pending_of(event_id)
            &&& post.senders_of(event_id) == pre.senders_of(event_id)
            &&& assoc_removed(
                pre.receivers_of(event_id),
                post.receivers_of(event_id),
                receiver_id,
            )
        }
    }

    /// Deregister `receiver_id`'s pending suspension on `event_id`, if one
    /// exists, and hand back its wake handle (to be invoked once, forcing a
    /// re-poll without delivering a payload).
    pub fn remove_pending_poll(&mut self, receiver_id: u64, event_id: u64) -> (r: Option<W>)
        requires
            old(self).wf(),
        ensures
            final(self).wf(),
            Self::remove_pending_poll_rel(
                *old(self),
                *final(self),
                receiver_id,
                event_id,
                r,
            ),
    {
        match self.take_channel(event_id) {
            None => None,
            Some(mut ch) => {
                match assoc_find(&ch.receivers, receiver_id) {
                    Some(j) => {
                        proof {
                            lemma_assoc_at(ch.receivers@, j as int);
                            lemma_assoc_swap_remove(ch.receivers@, j as int);
                        }
                        let entry = ch.receivers.swap_remove(j);
                        self.put_channel(event_id, ch);
                        Some(entry.1)
                    },
                    None => {
                        self.put_channel(event_id, ch);
                        None
                    },
                }
            },
        }
    }

    /// Empty the whole table, handing back the wake handles of every
    /// suspended receiver so the caller can wake them all; their next poll
    /// observes the channels gone. An emergency shutdown primitive.
    pub fn cancel_all(&mut self) -> (wakes: Vec<W>)
        requires
            old(self).wf(),
        ensures
            final(self).wf(),
            final(self).channels@.len() == 0,
            forall|k: u64| !final(self).has_channel(k),
            wakes@ == all_receiver_wakers(old(self).channels@),
    {
        let ghost total = all_receiver_wakers(self.channels@);
        let mut wakes: Vec<W> = Vec::new();
        while self.channels.len() > 0
            invariant
                self.wf(),
                wakes@ + all_receiver_wakers(self.channels@) == total,
            decreases self.channels@.len(),
        {
            let ghost s_pre = self.channels@;
            let entry = self.channels.remove(0);
            proof {
                assert(self.channels@ =~= s_pre.drop_first());
                assert(all_receiver_wakers(s_pre) == receiver_wakers(entry.1)
                    + all_receiver_wakers(s_pre.drop_first()));
            }
            let ch = entry.1;
            let mut rcvrs = ch.receivers;
            while rcvrs.len() > 0
                invariant
                    wakes@ + rcvrs@.map_values(|p: (u64, W)| p.1) + all_receiver_wakers(
                        self.channels@,
                    ) == total,
                decreases rcvrs@.len(),
            {
                let ghost r_pre = rcvrs@;
                let p = rcvrs.remove(0);
                wakes.push(p.1);
                proof {
                    assert(wakes@ + rcvrs@.map_values(|q: (u64, W)| q.1) =~= wakes@.drop_last()
                        + r_pre.map_values(|q: (u64, W)| q.1));
                }
            }
            proof {
                assert(wakes@ + all_receiver_wakers(self.channels@) =~= wakes@
                    + rcvrs@.map_values(|p: (u64, W)| p.1) + all_receiver_wakers(self.channels@));
            }
        }
        proof {
            assert(all_receiver_wakers(self.channels@) == Seq::<W>::empty());
            assert(wakes@ =~= total);
        }
        wakes
    }

    /// At-most-one delivery: a payload handed out by a poll leaves the
    /// pending queue at that very step — afterwards the queue holds exactly
    /// one occurrence fewer of it — so no second receive can observe the
    /// same payload instance.
    pub proof fn lemma_at_most_one_delivery(
        pre: Self,
        post: Self,
        receiver_id: u64,
        event_id: u64,
        waker: W,
        r: TaskPoll<ReceiveResult<E>>,
        sender_wake: Option<W>,
        argument: E::Argument,
    )
        requires
            Self::poll_once_rel(pre, post, receiver_id, event_id, waker, r, sender_wake),
            pre.has_channel(event_id),
            r == TaskPoll::<ReceiveResult<E>>::Ready(ReceiveResult::<E>::Success(Some(argument))),
        ensures
            pre.pending_of(event_id).len() > 0,
            argument == pre.pending_of(event_id)[0],
            post.pending_of(event_id) == pre.pending_of(event_id).drop_first(),
            post.pending_of(event_id).to_multiset() == pre.pending_of(
                event_id,
            ).to_multiset().remove(argument),
    {
        let q = pre.pending_of(event_id);
        assert(q.len() > 0);
        assert(q.drop_first() =~= q.remove(0));
        vstd::seq_lib::to_multiset_remove(q, 0);
    }

    /// Closed after the last receiver: once the only remaining receiver of
    /// an event id has closed the channel, a subsequent send attempt for
    /// that id reports `Closed` and leaves the table untouched.
    pub proof fn lemma_closed_after_last_receiver(
        q0: Self,
        q1: Self,
        q2: Self,
        event_id: u64,
        close_r: usize,
        close_wakes: Seq<W>,
        event_arg: E::Argument,
        waker: W,
        send_r: EmitInnerResult<E>,
        send_wake: Option<W>,
    )
        requires
            q0.has_channel(event_id),
            q0.ref_count_of(event_id) == 1,
            Self::close_channel_rel(q0, q1, event_id, close_r, close_wakes),
            Self::complete_one_rel(q1, q2, event_id, event_arg, waker, send_r, send_wake),
        ensures
            close_r == 0,
            !q1.has_channel(event_id),
            send_r is Closed,
            q2 == q1,
    {
    }

    /// Backpressure: with the queue at capacity, a send attempt comes back
    /// `Pending` — retaining its payload — and queues the sender's wake
    /// handle. Once a receiver drains one payload (waking that oldest
    /// blocked sender), the retried attempt completes.
    pub proof fn lemma_backpressure(
        q0: Self,
        q1: Self,
        q2: Self,
        q3: Self,
        event_id: u64,
        arg: E::Argument,
        send_waker: W,
        r1: EmitInnerResult<E>,
        w1: Option<W>,
        receiver_id: u64,
        recv_waker: W,
        pr: TaskPoll<ReceiveResult<E>>,
        sw: Option<W>,
        r2: EmitInnerResult<E>,
        w2: Option<W>,
    )
        requires
            q0.has_channel(event_id),
            q0.pending_of(event_id).len() == q0.max_len_of(event_id),
            q0.max_len_of(event_id) >= 1,
            q0.senders_of(event_id).len() == 0,
            Self::complete_one_rel(q0, q1, event_id, arg, send_waker, r1, w1),
            Self::poll_once_rel(q1, q2, receiver_id, event_id, recv_waker, pr, sw),
            Self::complete_one_rel(q2, q3, event_id, arg, send_waker, r2, w2),
        ensures
            r1 == EmitInnerResult::<E>::Pending(arg),
            q1.senders_of(event_id) == seq![send_waker],
            sw == Some(send_waker),
            r2 is Completed,
            q3.pending_of(event_id) == q2.pending_of(event_id).push(arg),
    {
        assert(q1.senders_of(event_id) =~= seq![send_waker]);
        assert(q1.pending_of(event_id).len() > 0);
        assert(q2.pending_of(event_id).len() < q2.max_len_of(event_id));
    }

    /// Weak FIFO: after sending `a`, `b`, `c` on an otherwise idle channel
    /// with room for all three, receiving three times yields `a` first, and
    /// delivers `b` and `c` — in one order or the other — exactly once
    /// each, leaving the queue empty.
    #[verifier::rlimit(25)]
    pub proof fn lemma_weak_fifo(
        q0: Self,
        q1: Self,
        q2: Self,
        q3: Self,
        q4: Self,
        q5: Self,
        q6: Self,
        event_id: u64,
        a: E::Argument,
        b: E::Argument,
        c: E::Argument,
        wa: W,
        wb: W,
        wc: W,
        ra: EmitInnerResult<E>,
        rb: EmitInnerResult<E>,
        rc: EmitInnerResult<E>,
        ka: Option<W>,
        kb: Option<W>,
        kc: Option<W>,
        receiver_id: u64,
        w1: W,
        w2: W,
        w3: W,
        p1: TaskPoll<ReceiveResult<E>>,
        p2: TaskPoll<ReceiveResult<E>>,
        p3: TaskPoll<ReceiveResult<E>>,
        s1: Option<W>,
        s2: Option<W>,
        s3: Option<W>,
    )
        requires
            q0.has_channel(event_id),
            q0.pending_of(event_id).len() == 0,
            q0.max_len_of(event_id) >= 3,
            Self::complete_one_rel(q0, q1, event_id, a, wa, ra, ka),
            Self::complete_one_rel(q1, q2, event_id, b, wb, rb, kb),
            Self::complete_one_rel(q2, q3, event_id, c, wc, rc, kc),
            Self::poll_once_rel(q3, q4, receiver_id, event_id, w1, p1, s1),
            Self::poll_once_rel(q4, q5, receiver_id, event_id, w2, p2, s2),
            Self::poll_once_rel(q5, q6, receiver_id, event_id, w3, p3, s3),
        ensures
            ra is Completed,
            rb is Completed,
            rc is Completed,
            p1 == TaskPoll::<ReceiveResult<E>>::Ready(ReceiveResult::<E>::Success(Some(a))),
            (p2 == TaskPoll::<ReceiveResult<E>>::Ready(ReceiveResult::<E>::Success(Some(b))) && p3
                == TaskPoll::<ReceiveResult<E>>::Ready(ReceiveResult::<E>::Success(Some(c)))) || (
            p2 == TaskPoll::<ReceiveResult<E>>::Ready(ReceiveResult::<E>::Success(Some(c))) && p3
                == TaskPoll::<ReceiveResult<E>>::Ready(ReceiveResult::<E>::Success(Some(b)))),
            q6.pending_of(event_id).len() == 0,
    {
        assert(q3.pending_of(event_id) =~= seq![a, b, c]);
        assert(q4.pending_of(event_id) =~= seq![b, c]);
        assert(q5.pending_of(event_id) =~= seq![c]);
        assert(q6.pending_of(event_id) =~= Seq::<E::Argument>::empty());
    }

    /// Cancel-all resolves everything: on the emptied table any poll
    /// resolves at once as an empty success (the cancelled outcome), any
    /// send reports `Closed`, and a subsequent open starts a fresh channel
    /// with reference count 1.
    pub proof fn lemma_cancelled_table(
        q: Self,
        q_poll: Self,
        receiver_id: u64,
        poll_id: u64,
        pw: W,
        pr: TaskPoll<ReceiveResult<E>>,
        psw: Option<W>,
        q_send: Self,
        send_id: u64,
        arg: E::Argument,
        send_waker: W,
        sr: EmitInnerResult<E>,
        swk: Option<W>,
        q_open: Self,
        open_id: u64,
        max_len: usize,
        open_r: usize,
    )
        requires
            q.channels@.len() == 0,
            Self::poll_once_rel(q, q_poll, receiver_id, poll_id, pw, pr, psw),
            Self::complete_one_rel(q, q_send, send_id, arg, send_waker, sr, swk),
            Self::open_channel_rel(q, q_open, open_id, max_len, open_r),
        ensures
            pr == TaskPoll::<ReceiveResult<E>>::Ready(ReceiveResult::<E>::Success(None)),
            q_poll == q,
            sr is Closed,
            q_send == q,
            open_r == 1,
            q_open.has_channel(open_id),
            q_open.ref_count_of(open_id) == 1,
            q_open.pending_of(open_id) == Seq::<E::Argument>::empty(),
            q_open.receivers_of(open_id) == Seq::<(u64, W)>::empty(),
    {
    }

    /// Round trip: on an empty table, opening a channel, depositing one
    /// payload, receiving it, and closing the channel leaves the table
    /// empty again.
    pub proof fn lemma_round_trip(
        q0: Self,
        q1: Self,
        q2: Self,
        q3: Self,
        q4: Self,
        event_id: u64,
        max_len: usize,
        open_r: usize,
        arg: E::Argument,
        send_waker: W,
        sr: EmitInnerResult<E>,
        swk: Option<W>,
        receiver_id: u64,
        recv_waker: W,
        pr: TaskPoll<ReceiveResult<E>>,
        psw: Option<W>,
        close_r: usize,
        close_wakes: Seq<W>,
    )
        requires
            q0.channels@.len() == 0,
            max_len >= 1,
            Self::open_channel_rel(q0, q1, event_id, max_len, open_r),
            Self::complete_one_rel(q1, q2, event_id, arg, send_waker, sr, swk),
            Self::poll_once_rel(q2, q3, receiver_id, event_id, recv_waker, pr, psw),
            Self::close_channel_rel(q3, q4, event_id, close_r, close_wakes),
        ensures
            open_r == 1,
            sr is Completed,
            pr == TaskPoll::<ReceiveResult<E>>::Ready(ReceiveResult::<E>::Success(Some(arg))),
            close_r == 0,
            q4.channels@.len() == 0,
    {
        assert(q1.pending_of(event_id) =~= Seq::<E::Argument>::empty());
        assert(q2.pending_of(event_id) =~= seq![arg]);
        assert(q3.ref_count_of(event_id) == 1);
        assert forall|k: u64| !q4.has_channel(k) by {
            if k != event_id {
                assert(!q0.has_channel(k));
                assert(!q1.has_channel(k));
                assert(!q2.has_channel(k));
                assert(!q3.has_channel(k));
            }
        }
        if q4.channels@.len() > 0 {
            assert(assoc_has(q4.channels@, q4.channels@[0].0));
            assert(q4.has_channel(q4.channels@[0].0));
        }
    }
}

} // verus!
