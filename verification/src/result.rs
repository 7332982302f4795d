use crate::error::CompleteQError;
use crate::user_event::UserEvent;
use vstd::prelude::*;

verus! {

/// The terminal outcome of a send attempt.
#[derive(Clone, Copy, Debug, PartialEq, Eq, Structural)]
pub enum EmitResult {
    /// The payload was deposited in the channel.
    Completed,
    /// No surviving receiver: the channel is closed.
    Closed,
}

impl EmitResult {
    /// Convert into a `Result`, reporting a closed channel as
    /// [`CompleteQError::PipeBroken`].
    pub fn completed(self) -> (r: Result<(), CompleteQError>)
        ensures
            r == (if self == EmitResult::Completed {
                Ok::<(), CompleteQError>(())
            } else {
                Err::<(), CompleteQError>(CompleteQError::PipeBroken)
            }),
    {
        match self {
            EmitResult::Completed => Ok(()),
            EmitResult::Closed => Err(CompleteQError::PipeBroken),
        }
    }

    /// Whether this outcome is [`EmitResult::Closed`].
    pub fn is_closed(&self) -> (r: bool)
        ensures
            r <==> *self == EmitResult::Closed,
    {
        match self {
            EmitResult::Completed => false,
            EmitResult::Closed => true,
        }
    }
}

/// What a receiver resolves to.
pub enum ReceiveResult<E: UserEvent> {
    /// The exchange finished. `Some` carries the payload; `None` means the
    /// channel was already gone (torn down or cancelled) — a graceful signal,
    /// never a fault.
    Success(Option<E::Argument>),
    /// The receiver's timer elapsed before a payload arrived.
    Timeout,
}

impl<E: UserEvent> ReceiveResult<E> {
    /// Convert into a `Result`, reporting a timeout as
    /// [`CompleteQError::Timeout`].
    pub fn success(self) -> (r: Result<Option<E::Argument>, CompleteQError>)
        ensures
            self matches ReceiveResult::Success(argument) ==> r == Ok::<
                Option<E::Argument>,
                CompleteQError,
            >(argument),
            self is Timeout ==> r == Err::<Option<E::Argument>, CompleteQError>(
                CompleteQError::Timeout,
            ),
    {
        match self {
            ReceiveResult::Success(argument) => Ok(argument),
            ReceiveResult::Timeout => Err(CompleteQError::Timeout),
        }
    }

    /// Whether this outcome is [`ReceiveResult::Timeout`].
    pub fn is_timeout(&self) -> (r: bool)
        ensures
            r <==> *self is Timeout,
    {
        match self {
            ReceiveResult::Timeout => true,
            _ => false,
        }
    }
}

/// The outcome of polling a suspendable operation: either its terminal
/// result, or a notice that the caller's wake handle was registered and the
/// operation must be re-polled once woken.
pub enum TaskPoll<T> {
    /// The operation finished with this result.
    Ready(T),
    /// Nothing to report yet; the wake handle passed to the poll is now
    /// registered.
    Pending,
}

impl<T> TaskPoll<T> {
    /// Whether the operation is still suspended.
    pub fn is_pending(&self) -> (r: bool)
        ensures
            r <==> *self is Pending,
    {
        match self {
            TaskPoll::Pending => true,
            _ => false,
        }
    }
}

/// The outcome a channel table reports for one send attempt. Unlike
/// [`EmitResult`] it can hand the payload back for a retry under
/// backpressure.
pub enum EmitInnerResult<E: UserEvent> {
    /// The payload was deposited.
    Completed,
    /// The queue is at capacity. The payload comes back to the caller, whose
    /// wake handle is now registered for a retry.
    Pending(E::Argument),
    /// No surviving receiver: the payload could never be consumed.
    Closed,
}

} // verus!
