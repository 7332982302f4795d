use core::marker::PhantomData;
use vstd::prelude::*;

verus! {

/// A user-defined event type bundles the payload carried on completion.
///
/// Event ids themselves are plain `u64` values: an id uniquely names one
/// logical exchange, and a reused id after its channel closes starts a fresh,
/// unrelated channel.
pub trait UserEvent: Default {
    /// The payload delivered on completion. Ownership transfers from the
    /// sender to whichever receiver consumes it.
    type Argument;
}

/// An event type whose ids carry no meaning to the caller can supply an
/// auto-increment generator and let the queue pick fresh ids.
pub trait AutoIncEvent: UserEvent {
    /// Whether another id can still be generated.
    spec fn next_ready(&self) -> bool;

    /// The id the next call to [`next`](AutoIncEvent::next) will hand out.
    spec fn peek_next(&self) -> u64;

    /// Whether another id can still be generated, as an executable check.
    fn has_next(&self) -> (r: bool)
        ensures
            r == self.next_ready(),
    ;

    /// Generate a new event id. Ids are handed out in strictly increasing
    /// order.
    fn next(&mut self) -> (id: u64)
        requires
            old(self).next_ready(),
        ensures
            id == old(self).peek_next(),
            final(self).next_ready() ==> final(self).peek_next() > id,
    ;
}

/// A ready-made event type for RPC-like request/response matching: the
/// payload is the response, and ids are drawn from a counter starting at 1.
pub struct RPCResponser<Argument> {
    pub next_id: u64,
    pub marker: PhantomData<Argument>,
}

impl<Argument> RPCResponser<Argument> {
    /// The id the generator will hand out next.
    pub open spec fn counter(&self) -> u64 {
        self.next_id
    }
}

impl<Argument> Default for RPCResponser<Argument> {
    /// A fresh generator whose first id is 1.
    fn default() -> (r: Self)
        ensures
            r.counter() == 1,
    {
        RPCResponser { next_id: 1, marker: PhantomData }
    }
}

impl<Argument> UserEvent for RPCResponser<Argument> {
    type Argument = Argument;
}

impl<Argument> AutoIncEvent for RPCResponser<Argument> {
    open spec fn next_ready(&self) -> bool {
        self.next_id < u64::MAX
    }

    open spec fn peek_next(&self) -> u64 {
        self.next_id
    }

    fn has_next(&self) -> (r: bool) {
        self.next_id < u64::MAX
    }

    fn next(&mut self) -> (id: u64) {
        let id = self.next_id;
        self.next_id = self.next_id + 1;
        id
    }
}

} // verus!
