use vstd::prelude::*;

verus! {

/// The failure modes of the completion queue. None of them is fatal: each is
/// an ordinary value the caller handles.
#[derive(Clone, Copy, Debug, PartialEq, Eq, Structural)]
pub enum CompleteQError {
    /// No surviving receiver remains for the target event id.
    PipeBroken,
    /// The receiver's timer elapsed before a payload arrived.
    Timeout,
    /// A second receiver was opened on an event id that already has one
    /// (oneshot discipline only).
    OpenChannelTwice,
}

} // verus!
