//! The oneshot channel discipline: exactly one pending slot and exactly one
//! live receiver per event id. Senders never block; a completion before the
//! poll overwrites the slot (last write wins).

pub mod inner;
pub mod receiver;
pub mod sender;

pub use self::receiver::EventReceiver;
pub use self::sender::EventSender;

use self::inner::CompleteQImpl;
use crate::error::CompleteQError;
use crate::timer::{CountdownTimer, Timer};
use crate::user_event::{AutoIncEvent, UserEvent};
use vstd::prelude::*;

verus! {

/// The central scheduler for one family of oneshot completion events: owns
/// the channel table and the event-id generator.
///
/// The generic parameter `E` is the user-defined event type; `W` is the
/// opaque wake-handle type of the surrounding scheduler. Receiver and
/// sender handles carry no reference of their own: each of their operations
/// takes the table (`inner`) by `&mut`.
pub struct CompleteQ<E: UserEvent, W> {
    /// The event-id generator for receivers that do not care about id
    /// semantics.
    pub event: E,
    /// The channel table.
    pub inner: CompleteQImpl<E, W>,
}

impl<E: UserEvent, W> CompleteQ<E, W> {
    /// A valid queue: its table is well-formed.
    pub open spec fn wf(&self) -> bool {
        self.inner.wf()
    }

    /// A fresh queue with no channels.
    pub fn new() -> (r: Self)
        ensures
            r.wf(),
            r.inner.channels@.len() == 0,
    {
        CompleteQ { event: E::default(), inner: CompleteQImpl::new() }
    }

    /// Create a new event receiver claiming the caller-chosen `event_id`
    /// (no timeout). Fails with [`CompleteQError::OpenChannelTwice`]
    /// exactly when a receiver for `event_id` is already live — the
    /// existing one is not disturbed.
    pub fn wait_for(&mut self, event_id: u64) -> (r: Result<
        EventReceiver<E, CountdownTimer>,
        CompleteQError,
    >)
        requires
            old(self).wf(),
        ensures
            final(self).wf(),
            final(self).event == old(self).event,
            r is Ok <==> !old(self).inner.has_channel(event_id),
            CompleteQImpl::<E, W>::open_channel_rel(
                old(self).inner,
                final(self).inner,
                event_id,
                if r is Ok {
                    Result::<(), CompleteQError>::Ok(())
                } else {
                    Result::<(), CompleteQError>::Err(CompleteQError::OpenChannelTwice)
                },
            ),
            r matches Ok(rec) ==> rec.event_id == event_id && rec.timer is None,
            r matches Err(e) ==> e == CompleteQError::OpenChannelTwice,
    {
        match self.inner.open_channel(event_id) {
            Ok(_) => Ok(EventReceiver::new(event_id, None)),
            Err(e) => Err(e),
        }
    }

    /// [`wait_for`](CompleteQ::wait_for) with a caller-supplied timeout
    /// timer: the receiver resolves as `Timeout` once the timer elapses.
    pub fn wait_for_with_timer<T: Timer>(&mut self, event_id: u64, timer: T) -> (r: Result<
        EventReceiver<E, T>,
        CompleteQError,
    >)
        requires
            old(self).wf(),
        ensures
            final(self).wf(),
            final(self).event == old(self).event,
            r is Ok <==> !old(self).inner.has_channel(event_id),
            CompleteQImpl::<E, W>::open_channel_rel(
                old(self).inner,
                final(self).inner,
                event_id,
                if r is Ok {
                    Result::<(), CompleteQError>::Ok(())
                } else {
                    Result::<(), CompleteQError>::Err(CompleteQError::OpenChannelTwice)
                },
            ),
            r matches Ok(rec) ==> rec.event_id == event_id && rec.timer == Some(timer),
            r matches Err(e) ==> e == CompleteQError::OpenChannelTwice,
    {
        match self.inner.open_channel(event_id) {
            Ok(_) => Ok(EventReceiver::new(event_id, Some(timer))),
            Err(e) => Err(e),
        }
    }
}

impl<E: AutoIncEvent, W> CompleteQ<E, W> {
    /// Create a new event receiver under an automatically generated event
    /// id (no timeout). Fails with [`CompleteQError::OpenChannelTwice`]
    /// exactly when the generated id collides with a live channel.
    pub fn wait_one(&mut self) -> (r: Result<EventReceiver<E, CountdownTimer>, CompleteQError>)
        requires
            old(self).wf(),
            old(self).event.next_ready(),
        ensures
            final(self).wf(),
            final(self).event.next_ready() ==> final(self).event.peek_next() > old(
                self,
            ).event.peek_next(),
            r is Ok <==> !old(self).inner.has_channel(old(self).event.peek_next()),
            CompleteQImpl::<E, W>::open_channel_rel(
                old(self).inner,
                final(self).inner,
                old(self).event.peek_next(),
                if r is Ok {
                    Result::<(), CompleteQError>::Ok(())
                } else {
                    Result::<(), CompleteQError>::Err(CompleteQError::OpenChannelTwice)
                },
            ),
            r matches Ok(rec) ==> rec.event_id == old(self).event.peek_next() && rec.timer
                is None,
            r matches Err(e) ==> e == CompleteQError::OpenChannelTwice,
    {
        let event_id = self.event.next();
        self.wait_for(event_id)
    }

    /// [`wait_one`](CompleteQ::wait_one) with a caller-supplied timeout
    /// timer.
    pub fn wait_one_with_timer<T: Timer>(&mut self, timer: T) -> (r: Result<
        EventReceiver<E, T>,
        CompleteQError,
    >)
        requires
            old(self).wf(),
            old(self).event.next_ready(),
        ensures
            final(self).wf(),
            final(self).event.next_ready() ==> final(self).event.peek_next() > old(
                self,
            ).event.peek_next(),
            r is Ok <==> !old(self).inner.has_channel(old(self).event.peek_next()),
            CompleteQImpl::<E, W>::open_channel_rel(
                old(self).inner,
                final(self).inner,
                old(self).event.peek_next(),
                if r is Ok {
                    Result::<(), CompleteQError>::Ok(())
                } else {
                    Result::<(), CompleteQError>::Err(CompleteQError::OpenChannelTwice)
                },
            ),
            r matches Ok(rec) ==> rec.event_id == old(self).event.peek_next() && rec.timer
                == Some(timer),
            r matches Err(e) ==> e == CompleteQError::OpenChannelTwice,
    {
        let event_id = self.event.next();
        self.wait_for_with_timer(event_id, timer)
    }
}

} // verus!
