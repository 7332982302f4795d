use vstd::prelude::*;

verus! {

/// The timer interface a receiver consumes: a one-shot object polled for
/// "has this timer elapsed". The surrounding scheduler supplies the actual
/// time source; the queue only asks this question.
pub trait Timer {
    /// Whether the timer has elapsed.
    spec fn elapsed(&self) -> bool;

    /// Poll the timer once, reporting whether it has elapsed. Once elapsed,
    /// a timer stays elapsed.
    fn poll_elapsed(&mut self) -> (r: bool)
        ensures
            r == final(self).elapsed(),
            old(self).elapsed() ==> final(self).elapsed(),
    ;
}

/// A deterministic timer that elapses after a fixed number of polls. It
/// stands in where no real clock is wanted: `CountdownTimer::new(0)` has
/// already elapsed, and `CountdownTimer::new(n)` elapses on the `n`th poll.
pub struct CountdownTimer {
    pub remaining: u64,
}

impl CountdownTimer {
    /// A timer that elapses after `polls` polls.
    pub fn new(polls: u64) -> (r: Self)
        ensures
            r.remaining == polls,
    {
        CountdownTimer { remaining: polls }
    }
}

impl Timer for CountdownTimer {
    open spec fn elapsed(&self) -> bool {
        self.remaining == 0
    }

    fn poll_elapsed(&mut self) -> (r: bool)
        ensures
            final(self).remaining == if old(self).remaining > 0 {
                old(self).remaining - 1
            } else {
                0
            },
    {
        if self.remaining > 0 {
            self.remaining = self.remaining - 1;
        }
        self.remaining == 0
    }
}

} // verus!
