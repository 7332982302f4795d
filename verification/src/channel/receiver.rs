//! The consumer side of the multi-message channel.

use crate::channel::inner::CompleteQImpl;
use crate::channel::sender::EventSender;
use crate::result::{ReceiveResult, TaskPoll};
use crate::timer::Timer;
use crate::user_event::UserEvent;
use core::marker::PhantomData;
use vstd::prelude::*;

verus! {

/// Event receiver endpoint: the suspension point of one exchange.
///
/// Construction joins the channel for its event id (so no sender can observe
/// "no channel" between creation and first poll); [`dispose`] leaves it
/// again, exactly once, whether or not anything was ever received.
///
/// [`dispose`]: EventReceiver::dispose
pub struct EventReceiver<E: UserEvent, T: Timer> {
    /// The capacity this receiver configured on its channel.
    pub max_len: usize,
    /// The event id this receiver waits on.
    pub event_id: u64,
    /// This receiver's identity among possibly many sharing the event id.
    pub receiver_id: u64,
    /// The advisory timeout timer, if any.
    pub timer: Option<T>,
    /// Carries the event type.
    pub marker: PhantomData<E>,
}

impl<E: UserEvent, T: Timer> EventReceiver<E, T> {
    /// Open (or join) the channel for `event_id` in `q` and wrap the
    /// membership in a receiver. One call per receiver; `receiver_id` must
    /// be fresh.
    pub fn new<W>(
        event_id: u64,
        max_len: usize,
        receiver_id: u64,
        q: &mut CompleteQImpl<E, W>,
        timer: Option<T>,
    ) -> (r: Self)
        requires
            old(q).wf(),
            old(q).has_channel(event_id) ==> old(q).ref_count_of(event_id) < usize::MAX,
        ensures
            final(q).wf(),
            CompleteQImpl::<E, W>::open_channel_rel(
                *old(q),
                *final(q),
                event_id,
                max_len,
                final(q).ref_count_of(event_id),
            ),
            r.event_id == event_id,
            r.max_len == max_len,
            r.receiver_id == receiver_id,
            r.timer == timer,
    {
        q.open_channel(event_id, max_len);
        EventReceiver { max_len, event_id, receiver_id, timer, marker: PhantomData }
    }

    /// The event id this receiver is bound to.
    pub fn event_id(&self) -> (r: u64)
        ensures
            r == self.event_id,
    {
        self.event_id
    }

    /// The queue capacity this receiver configured.
    pub fn max_len(&self) -> (r: usize)
        ensures
            r == self.max_len,
    {
        self.max_len
    }

    /// Mint an associated [`EventSender`] for the same event id.
    pub fn sender(&self) -> (r: EventSender<E>)
        ensures
            r.event_id == self.event_id,
    {
        EventSender::new(self.event_id)
    }

    /// One poll of this receiver against the table.
    ///
    /// The timer is checked first, so when timer and payload are both ready
    /// the timeout wins: the receiver's pending suspension (if any) is
    /// deregistered — `r.1` carries its wake handle — and the result is
    /// `Timeout`. Only a timer that has not elapsed lets the channel be
    /// consulted: that poll either takes the oldest payload (`r.1` then
    /// carries the oldest blocked sender's wake handle, if any) or suspends
    /// this receiver by registering `waker`.
    pub fn poll<W>(&mut self, q: &mut CompleteQImpl<E, W>, waker: W) -> (r: (
        TaskPoll<ReceiveResult<E>>,
        Option<W>,
    ))
        requires
            old(q).wf(),
        ensures
            final(q).wf(),
            final(self).event_id == old(self).event_id,
            final(self).receiver_id == old(self).receiver_id,
            final(self).max_len == old(self).max_len,
            old(self).timer is None ==> final(self).timer is None
                && CompleteQImpl::<E, W>::poll_once_rel(
                *old(q),
                *final(q),
                old(self).receiver_id,
                old(self).event_id,
                waker,
                r.0,
                r.1,
            ),
            old(self).timer matches Some(t0) ==> final(self).timer matches Some(t1) && (
            t0.elapsed() ==> t1.elapsed()) && (t1.elapsed() ==> r.0 == TaskPoll::<
                ReceiveResult<E>,
            >::Ready(ReceiveResult::<E>::Timeout)
                && CompleteQImpl::<E, W>::remove_pending_poll_rel(
                *old(q),
                *final(q),
                old(self).receiver_id,
                old(self).event_id,
                r.1,
            )) && (!t1.elapsed() ==> CompleteQImpl::<E, W>::poll_once_rel(
                *old(q),
                *final(q),
                old(self).receiver_id,
                old(self).event_id,
                waker,
                r.0,
                r.1,
            )),
    {
        let timer_opt = self.timer.take();
        if let Some(mut timer) = timer_opt {
            let elapsed = timer.poll_elapsed();
            self.timer = Some(timer);
            if elapsed {
                let wake = q.remove_pending_poll(self.receiver_id, self.event_id);
                return (TaskPoll::Ready(ReceiveResult::Timeout), wake);
            }
        }
        q.poll_once(self.receiver_id, self.event_id, waker)
    }

    /// Give up this receiver's channel membership, exactly once, whatever
    /// the receiver resolved to. Returns what the table's
    /// [`close_channel`](CompleteQImpl::close_channel) returns: the
    /// remaining reference count, and the blocked senders to wake when the
    /// channel went away.
    pub fn dispose<W>(self, q: &mut CompleteQImpl<E, W>) -> (r: (usize, Vec<W>))
        requires
            old(q).wf(),
        ensures
            final(q).wf(),
            CompleteQImpl::<E, W>::close_channel_rel(
                *old(q),
                *final(q),
                self.event_id,
                r.0,
                r.1@,
            ),
    {
        q.close_channel(self.event_id)
    }
}

} // verus!
