//! A process-local completion queue: senders deposit payloads under an event
//! id, and receivers that registered interest in that id are woken to collect
//! them.
//!
//! The channel table comes in two disciplines: a bounded multi-message,
//! multi-receiver channel per event id ([`channel`]), and a single-slot,
//! single-receiver channel per event id ([`oneshot`]).
//!
//! The table is a plain value with a single owner. Suspension is cooperative:
//! an operation that cannot make progress records an opaque wake handle, and
//! every operation hands back the handles whose parties must be re-polled.
//! The surrounding scheduler owns the handles and performs the actual waking.

pub mod channel;
pub mod error;
pub mod keyed;
pub mod oneshot;
pub mod result;
pub mod timer;
pub mod user_event;
