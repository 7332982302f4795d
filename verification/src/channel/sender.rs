//! The producer side of the multi-message channel.

use crate::channel::inner::CompleteQImpl;
use crate::result::{EmitInnerResult, EmitResult, TaskPoll};
use crate::user_event::UserEvent;
use core::marker::PhantomData;
use vstd::prelude::*;

verus! {

/// Event sender endpoint, minted from an
/// [`EventReceiver`](crate::channel::receiver::EventReceiver) and handed to
/// the concurrent activity that will produce the result.
pub struct EventSender<E: UserEvent> {
    /// The event id this sender deposits under.
    pub event_id: u64,
    /// Carries the event type.
    pub marker: PhantomData<E>,
}

impl<E: UserEvent> EventSender<E> {
    /// A sender for `event_id`.
    pub fn new(event_id: u64) -> (r: Self)
        ensures
            r.event_id == event_id,
    {
        EventSender { event_id, marker: PhantomData }
    }

    /// Begin a send attempt: the returned operation owns the payload and is
    /// polled against the table until it completes or observes closure.
    pub fn send(&self, event_arg: E::Argument) -> (r: EventSend<E>)
        ensures
            r.event_id == self.event_id,
            r.argument == Some(event_arg),
    {
        EventSend { event_id: self.event_id, argument: Some(event_arg) }
    }
}

/// One suspendable send attempt, created by [`EventSender::send`]. Under
/// backpressure the attempt keeps its payload and is re-polled after the
/// registered wake handle fires.
pub struct EventSend<E: UserEvent> {
    /// The event id the payload is for.
    pub event_id: u64,
    /// The payload; held until an attempt ends in `Completed` or `Closed`.
    pub argument: Option<E::Argument>,
}

impl<E: UserEvent> EventSend<E> {
    /// One attempt to deposit the payload under this attempt's event id.
    ///
    /// `Ready(Completed)` and `Ready(Closed)` are terminal: the payload is
    /// consumed (delivered, or dropped because nobody is listening). On
    /// `Pending` the payload is retained, `waker` is registered in the
    /// table's blocked-sender queue, and the attempt must be re-polled once
    /// woken. `r.1` carries the wake handle of the one receiver to wake
    /// after a successful deposit.
    pub fn poll<W>(&mut self, q: &mut CompleteQImpl<E, W>, waker: W) -> (r: (
        TaskPoll<EmitResult>,
        Option<W>,
    ))
        requires
            old(q).wf(),
            old(self).argument is Some,
        ensures
            final(q).wf(),
            final(self).event_id == old(self).event_id,
            r.0 == TaskPoll::<EmitResult>::Ready(EmitResult::Completed) ==> final(self).argument
                is None && CompleteQImpl::<E, W>::complete_one_rel(
                *old(q),
                *final(q),
                old(self).event_id,
                old(self).argument->0,
                waker,
                EmitInnerResult::<E>::Completed,
                r.1,
            ),
            r.0 == TaskPoll::<EmitResult>::Ready(EmitResult::Closed) ==> final(self).argument
                is None && r.1 is None && CompleteQImpl::<E, W>::complete_one_rel(
                *old(q),
                *final(q),
                old(self).event_id,
                old(self).argument->0,
                waker,
                EmitInnerResult::<E>::Closed,
                r.1,
            ),
            r.0 is Pending ==> final(self).argument == old(self).argument
                && CompleteQImpl::<E, W>::complete_one_rel(
                *old(q),
                *final(q),
                old(self).event_id,
                old(self).argument->0,
                waker,
                EmitInnerResult::<E>::Pending(old(self).argument->0),
                r.1,
            ),
    {
        let argument = self.argument.take();
        let (res, wake) = q.complete_one(self.event_id, argument.unwrap(), waker);
        match res {
            EmitInnerResult::Completed => (TaskPoll::Ready(EmitResult::Completed), wake),
            EmitInnerResult::Closed => (TaskPoll::Ready(EmitResult::Closed), wake),
            EmitInnerResult::Pending(retained) => {
                self.argument = Some(retained);
                (TaskPoll::Pending, wake)
            },
        }
    }
}

} // verus!
