//! The consumer side of the oneshot channel.

use crate::oneshot::inner::CompleteQImpl;
use crate::oneshot::sender::EventSender;
use crate::result::{ReceiveResult, TaskPoll};
use crate::timer::Timer;
use crate::user_event::UserEvent;
use core::marker::PhantomData;
use vstd::prelude::*;

verus! {

/// Event receiver endpoint: the one receiver of its event id's slot.
///
/// The façade claims the channel before constructing the receiver, so a
/// live receiver always had its `open_channel` succeed; [`dispose`] removes
/// the channel outright, exactly once.
///
/// [`dispose`]: EventReceiver::dispose
pub struct EventReceiver<E: UserEvent, T: Timer> {
    /// The event id this receiver waits on.
    pub event_id: u64,
    /// The advisory timeout timer, if any.
    pub timer: Option<T>,
    /// Carries the event type.
    pub marker: PhantomData<E>,
}

/// How one receiver poll reads the table: a vanished channel resolves at
/// once to an empty success; a filled slot hands over its payload, clears
/// both slots and hands back any stale suspension handle (`wake`, invoked
/// spuriously); an empty slot suspends the receiver by registering the
/// poll's wake handle.
pub open spec fn recv_poll_rel<E: UserEvent, W>(
    pre: CompleteQImpl<E, W>,
    post: CompleteQImpl<E, W>,
    event_id: u64,
    waker: W,
    r: TaskPoll<ReceiveResult<E>>,
    wake: Option<W>,
) -> bool {
    &&& CompleteQImpl::<E, W>::agrees_except(pre, post, event_id)
    &&& if !pre.has_channel(event_id) {
        &&& post == pre
        &&& r == TaskPoll::<ReceiveResult<E>>::Ready(ReceiveResult::<E>::Success(None))
        &&& wake is None
    } else if pre.pending_of(event_id) is Some {
        &&& r == TaskPoll::<ReceiveResult<E>>::Ready(
            ReceiveResult::<E>::Success(pre.pending_of(event_id)),
        )
        &&& post.has_channel(event_id)
        &&& post.pending_of(event_id) is None
        &&& post.receiver_of(event_id) is None
        &&& wake == pre.receiver_of(event_id)
    } else {
        &&& r is Pending
        &&& wake is None
        &&& post.has_channel(event_id)
        &&& post.pending_of(event_id) is None
        &&& post.receiver_of(event_id) == Some(waker)
    }
}

impl<E: UserEvent, T: Timer> EventReceiver<E, T> {
    /// Wrap an already claimed event id in a receiver. The façade calls
    /// this right after a successful
    /// [`open_channel`](CompleteQImpl::open_channel).
    pub fn new(event_id: u64, timer: Option<T>) -> (r: Self)
        ensures
            r.event_id == event_id,
            r.timer == timer,
    {
        EventReceiver { event_id, timer, marker: PhantomData }
    }

    /// The event id this receiver is bound to.
    pub fn event_id(&self) -> (r: u64)
        ensures
            r == self.event_id,
    {
        self.event_id
    }

    /// Mint an associated [`EventSender`] for the same event id.
    pub fn sender(&self) -> (r: EventSender<E>)
        ensures
            r.event_id == self.event_id,
    {
        EventSender::new(self.event_id)
    }

    /// One poll of this receiver against the table.
    ///
    /// The timer is checked first, so when timer and payload are both ready
    /// the timeout wins: the suspension slot is cleared — `r.1` carries its
    /// wake handle — and the result is `Timeout`. Only a timer that has not
    /// elapsed lets the slot be consulted, as [`recv_poll_rel`] describes.
    pub fn poll<W>(&mut self, q: &mut CompleteQImpl<E, W>, waker: W) -> (r: (
        TaskPoll<ReceiveResult<E>>,
        Option<W>,
    ))
        requires
            old(q).wf(),
        ensures
            final(q).wf(),
            final(self).event_id == old(self).event_id,
            old(self).timer is None ==> final(self).timer is None && recv_poll_rel(
                *old(q),
                *final(q),
                old(self).event_id,
                waker,
                r.0,
                r.1,
            ),
            old(self).timer matches Some(t0) ==> final(self).timer matches Some(t1) && (
            t0.elapsed() ==> t1.elapsed()) && (t1.elapsed() ==> r.0 == TaskPoll::<
                ReceiveResult<E>,
            >::Ready(ReceiveResult::<E>::Timeout)
                && CompleteQImpl::<E, W>::remove_pending_poll_rel(
                *old(q),
                *final(q),
                old(self).event_id,
                r.1,
            )) && (!t1.elapsed() ==> recv_poll_rel(
                *old(q),
                *final(q),
                old(self).event_id,
                waker,
                r.0,
                r.1,
            )),
    {
        let timer_opt = self.timer.take();
        if let Some(mut timer) = timer_opt {
            let elapsed = timer.poll_elapsed();
            self.timer = Some(timer);
            if elapsed {
                let wake = q.remove_pending_poll(self.event_id);
                return (TaskPoll::Ready(ReceiveResult::Timeout), wake);
            }
        }
        let res = q.poll_once(self.event_id, waker);
        match res {
            TaskPoll::Pending => (TaskPoll::Pending, None),
            TaskPoll::Ready(result) => {
                let wake = q.remove_pending_poll(self.event_id);
                (TaskPoll::Ready(result), wake)
            },
        }
    }

    /// Remove this receiver's channel outright, exactly once, whatever the
    /// receiver resolved to. Any unconsumed payload is discarded.
    pub fn dispose<W>(self, q: &mut CompleteQImpl<E, W>)
        requires
            old(q).wf(),
        ensures
            final(q).wf(),
            CompleteQImpl::<E, W>::close_channel_rel(*old(q), *final(q), self.event_id),
    {
        q.close_channel(self.event_id)
    }
}

} // verus!
