//! The bounded multi-message, multi-receiver channel discipline.
//!
//! Any number of receivers may share one event id; each channel holds a
//! bounded queue of undelivered payloads, and senders experience
//! backpressure once it is full.

pub mod inner;
pub mod receiver;
pub mod sender;

pub use self::receiver::EventReceiver;
pub use self::sender::{EventSend, EventSender};

use self::inner::CompleteQImpl;
use crate::timer::{CountdownTimer, Timer};
use crate::user_event::{AutoIncEvent, UserEvent};
use vstd::prelude::*;

verus! {

/// The central scheduler for one family of completion events: owns the
/// channel table and the receiver-id generator.
///
/// The generic parameter `E` is the user-defined event type; `W` is the
/// opaque wake-handle type of the surrounding scheduler. Receiver and
/// sender handles carry no reference of their own: each of their operations
/// takes the table (`inner`) by `&mut`.
pub struct CompleteQ<E: UserEvent, W> {
    /// The event-id generator for receivers that do not care about id
    /// semantics.
    pub event: E,
    /// The receiver-identity generator: monotonically increasing, starting
    /// at 1, distinct from event ids.
    pub receiver_id_seq: u64,
    /// The channel table.
    pub inner: CompleteQImpl<E, W>,
}

impl<E: UserEvent, W> CompleteQ<E, W> {
    /// A valid queue: its table is well-formed.
    pub open spec fn wf(&self) -> bool {
        self.inner.wf()
    }

    /// A fresh queue with no channels.
    pub fn new() -> (r: Self)
        ensures
            r.wf(),
            r.inner.channels@.len() == 0,
            r.receiver_id_seq == 1,
    {
        CompleteQ { event: E::default(), receiver_id_seq: 1, inner: CompleteQImpl::new() }
    }

    /// Emergency shutdown: discard every channel and hand back the wake
    /// handles of all suspended receivers, so each can be woken to observe
    /// its channel gone ("cancelled"). Subsequent opens start fresh
    /// channels.
    pub fn cancel_all(&mut self) -> (wakes: Vec<W>)
        requires
            old(self).wf(),
        ensures
            final(self).wf(),
            final(self).inner.channels@.len() == 0,
            forall|k: u64| !final(self).inner.has_channel(k),
            wakes@ == inner::all_receiver_wakers(old(self).inner.channels@),
            final(self).event == old(self).event,
            final(self).receiver_id_seq == old(self).receiver_id_seq,
    {
        self.inner.cancel_all()
    }

    /// Begin a send attempt of `event_arg` under `event_id`. The returned
    /// operation is polled against the table until it completes or observes
    /// closure.
    pub fn complete_one(&self, event_id: u64, event_arg: E::Argument) -> (r: EventSend<E>)
        ensures
            r.event_id == event_id,
            r.argument == Some(event_arg),
    {
        EventSender::new(event_id).send(event_arg)
    }

    /// Create a new event receiver for the caller-chosen `event_id`,
    /// joining its channel (or creating it) and resetting the channel
    /// capacity to `max_len`. The receiver carries no timeout.
    pub fn wait_for(&mut self, event_id: u64, max_len: usize) -> (r: EventReceiver<
        E,
        CountdownTimer,
    >)
        requires
            old(self).wf(),
            old(self).receiver_id_seq < u64::MAX,
            old(self).inner.has_channel(event_id) ==> old(self).inner.ref_count_of(event_id)
                < usize::MAX,
        ensures
            final(self).wf(),
            final(self).event == old(self).event,
            final(self).receiver_id_seq == old(self).receiver_id_seq + 1,
            CompleteQImpl::<E, W>::open_channel_rel(
                old(self).inner,
                final(self).inner,
                event_id,
                max_len,
                final(self).inner.ref_count_of(event_id),
            ),
            r.event_id == event_id,
            r.max_len == max_len,
            r.receiver_id == old(self).receiver_id_seq,
            r.timer is None,
    {
        let receiver_id = self.receiver_id_seq;
        self.receiver_id_seq = self.receiver_id_seq + 1;
        EventReceiver::new(event_id, max_len, receiver_id, &mut self.inner, None)
    }

    /// [`wait_for`](CompleteQ::wait_for) with a caller-supplied timeout
    /// timer: the receiver resolves as `Timeout` once the timer elapses.
    pub fn wait_for_with_timer<T: Timer>(&mut self, event_id: u64, max_len: usize, timer: T) -> (r:
        EventReceiver<E, T>)
        requires
            old(self).wf(),
            old(self).receiver_id_seq < u64::MAX,
            old(self).inner.has_channel(event_id) ==> old(self).inner.ref_count_of(event_id)
                < usize::MAX,
        ensures
            final(self).wf(),
            final(self).event == old(self).event,
            final(self).receiver_id_seq == old(self).receiver_id_seq + 1,
            CompleteQImpl::<E, W>::open_channel_rel(
                old(self).inner,
                final(self).inner,
                event_id,
                max_len,
                final(self).inner.ref_count_of(event_id),
            ),
            r.event_id == event_id,
            r.max_len == max_len,
            r.receiver_id == old(self).receiver_id_seq,
            r.timer == Some(timer),
    {
        let receiver_id = self.receiver_id_seq;
        self.receiver_id_seq = self.receiver_id_seq + 1;
        EventReceiver::new(event_id, max_len, receiver_id, &mut self.inner, Some(timer))
    }
}

impl<E: AutoIncEvent, W> CompleteQ<E, W> {
    /// Create a new event receiver under an automatically generated event
    /// id (no timeout).
    pub fn wait_one(&mut self, max_len: usize) -> (r: EventReceiver<E, CountdownTimer>)
        requires
            old(self).wf(),
            old(self).receiver_id_seq < u64::MAX,
            old(self).event.next_ready(),
            old(self).inner.has_channel(old(self).event.peek_next()) ==> old(
                self,
            ).inner.ref_count_of(old(self).event.peek_next()) < usize::MAX,
        ensures
            final(self).wf(),
            final(self).receiver_id_seq == old(self).receiver_id_seq + 1,
            final(self).event.next_ready() ==> final(self).event.peek_next() > old(
                self,
            ).event.peek_next(),
            CompleteQImpl::<E, W>::open_channel_rel(
                old(self).inner,
                final(self).inner,
                old(self).event.peek_next(),
                max_len,
                final(self).inner.ref_count_of(old(self).event.peek_next()),
            ),
            r.event_id == old(self).event.peek_next(),
            r.max_len == max_len,
            r.receiver_id == old(self).receiver_id_seq,
            r.timer is None,
    {
        let event_id = self.event.next();
        self.wait_for(event_id, max_len)
    }

    /// [`wait_one`](CompleteQ::wait_one) with a caller-supplied timeout
    /// timer.
    pub fn wait_one_with_timer<T: Timer>(&mut self, max_len: usize, timer: T) -> (r: EventReceiver<
        E,
        T,
    >)
        requires
            old(self).wf(),
            old(self).receiver_id_seq < u64::MAX,
            old(self).event.next_ready(),
            old(self).inner.has_channel(old(self).event.peek_next()) ==> old(
                self,
            ).inner.ref_count_of(old(self).event.peek_next()) < usize::MAX,
        ensures
            final(self).wf(),
            final(self).receiver_id_seq == old(self).receiver_id_seq + 1,
            final(self).event.next_ready() ==> final(self).event.peek_next() > old(
                self,
            ).event.peek_next(),
            CompleteQImpl::<E, W>::open_channel_rel(
                old(self).inner,
                final(self).inner,
                old(self).event.peek_next(),
                max_len,
                final(self).inner.ref_count_of(old(self).event.peek_next()),
            ),
            r.event_id == old(self).event.peek_next(),
            r.max_len == max_len,
            r.receiver_id == old(self).receiver_id_seq,
            r.timer == Some(timer),
    {
        let event_id = self.event.next();
        self.wait_for_with_timer(event_id, max_len, timer)
    }
}

} // verus!
