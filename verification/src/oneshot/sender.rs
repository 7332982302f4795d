//! The producer side of the oneshot channel.

use crate::oneshot::inner::CompleteQImpl;
use crate::result::{EmitInnerResult, EmitResult};
use crate::user_event::UserEvent;
use core::marker::PhantomData;
use vstd::prelude::*;

verus! {

/// Event sender endpoint, minted from an
/// [`EventReceiver`](crate::oneshot::receiver::EventReceiver) and handed to
/// the concurrent activity that will produce the result.
pub struct EventSender<E: UserEvent> {
    /// The event id this sender deposits under.
    pub event_id: u64,
    /// Carries the event type.
    pub marker: PhantomData<E>,
}

impl<E: UserEvent> EventSender<E> {
    /// A sender for `event_id`.
    pub fn new(event_id: u64) -> (r: Self)
        ensures
            r.event_id == event_id,
    {
        EventSender { event_id, marker: PhantomData }
    }

    /// Deposit `event_arg` in this sender's slot — a single synchronous
    /// step, never blocking. A payload already in the slot is overwritten
    /// (last write wins). `r.1` is the suspended receiver's wake handle, if
    /// it was waiting; `Closed` reports that no receiver is live.
    pub fn send<W>(&self, q: &mut CompleteQImpl<E, W>, event_arg: E::Argument) -> (r: (
        EmitResult,
        Option<W>,
    ))
        requires
            old(q).wf(),
        ensures
            final(q).wf(),
            r.0 == EmitResult::Completed <==> old(q).has_channel(self.event_id),
            CompleteQImpl::<E, W>::complete_one_rel(
                *old(q),
                *final(q),
                self.event_id,
                event_arg,
                if r.0 == EmitResult::Completed {
                    EmitInnerResult::<E>::Completed
                } else {
                    EmitInnerResult::<E>::Closed
                },
                r.1,
            ),
    {
        let (res, wake) = q.complete_one(self.event_id, event_arg);
        match res {
            EmitInnerResult::Completed => (EmitResult::Completed, wake),
            EmitInnerResult::Closed => (EmitResult::Closed, wake),
            EmitInnerResult::Pending(_) => (EmitResult::Closed, wake),
        }
    }
}

} // verus!
