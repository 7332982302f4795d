//! Scenario tests for the bounded multi-message channel discipline.
//!
//! Wake handles are plain `u64` tokens here; a real scheduler would hand in
//! its own waker type.

use completeq::channel::CompleteQ;
use completeq::error::CompleteQError;
use completeq::result::{EmitResult, TaskPoll};
use completeq::timer::CountdownTimer;
use completeq::user_event::RPCResponser;

type Ev = RPCResponser<String>;

#[test]
fn channel_one_send_one_recv() {
    let mut q = CompleteQ::<Ev, u64>::new();

    let mut receiver = q.wait_one(10);
    let sender = receiver.sender();

    // Nothing sent yet: the receiver suspends under wake token 1.
    let (poll, wake) = receiver.poll(&mut q.inner, 1);
    assert!(poll.is_pending());
    assert_eq!(wake, None);

    // The sender deposits and the suspended receiver is woken.
    let mut attempt = sender.send(String::from("pong"));
    let (sent, woken) = attempt.poll(&mut q.inner, 2);
    assert!(matches!(sent, TaskPoll::Ready(EmitResult::Completed)));
    assert_eq!(woken, Some(1));

    // The woken receiver re-polls and takes the payload.
    let (poll, sender_wake) = receiver.poll(&mut q.inner, 1);
    assert_eq!(sender_wake, None);
    match poll {
        TaskPoll::Ready(result) => {
            assert_eq!(result.success().unwrap(), Some(String::from("pong")));
        }
        TaskPoll::Pending => panic!("payload was deposited"),
    }

    let (remaining, wakes) = receiver.dispose(&mut q.inner);
    assert_eq!(remaining, 0);
    assert!(wakes.is_empty());
    assert_eq!(q.inner.channels.len(), 0);
}

#[test]
fn delivered_payload_is_gone() {
    // At-most-one delivery: once a payload is received, a further receive
    // does not observe it again.
    let mut q = CompleteQ::<Ev, u64>::new();
    let mut receiver = q.wait_for(7, 4);

    let mut attempt = q.complete_one(7, String::from("only-once"));
    let (sent, _) = attempt.poll(&mut q.inner, 2);
    assert!(matches!(sent, TaskPoll::Ready(EmitResult::Completed)));

    let (first, _) = receiver.poll(&mut q.inner, 1);
    match first {
        TaskPoll::Ready(result) => {
            assert_eq!(result.success().unwrap(), Some(String::from("only-once")));
        }
        TaskPoll::Pending => panic!("payload was deposited"),
    }

    // The queue is empty again: the same instance cannot be observed twice.
    let (second, _) = receiver.poll(&mut q.inner, 1);
    assert!(second.is_pending());

    receiver.dispose(&mut q.inner);
}

#[test]
fn closed_after_last_receiver() {
    let mut q = CompleteQ::<Ev, u64>::new();
    let receiver = q.wait_for(40, 4);
    let sender = receiver.sender();

    let (remaining, _) = receiver.dispose(&mut q.inner);
    assert_eq!(remaining, 0);

    // Nobody is listening any more: the send reports Closed.
    let mut attempt = sender.send(String::from("late"));
    let (sent, woken) = attempt.poll(&mut q.inner, 2);
    assert!(matches!(sent, TaskPoll::Ready(EmitResult::Closed)));
    assert_eq!(woken, None);
    match sent {
        TaskPoll::Ready(result) => {
            assert!(result.is_closed());
            assert_eq!(result.completed(), Err(CompleteQError::PipeBroken));
        }
        TaskPoll::Pending => panic!("closed is terminal"),
    }
}

#[test]
fn backpressure_pending_send_is_not_lost() {
    let mut q = CompleteQ::<Ev, u64>::new();
    let mut receiver = q.wait_for(9, 1);
    let sender = receiver.sender();

    // Capacity 1: the first payload fits.
    let mut first = sender.send(String::from("fits"));
    let (sent, _) = first.poll(&mut q.inner, 21);
    assert!(matches!(sent, TaskPoll::Ready(EmitResult::Completed)));

    // The second attempt hits backpressure and keeps its payload.
    let mut second = sender.send(String::from("waits"));
    let (pending, woken) = second.poll(&mut q.inner, 22);
    assert!(pending.is_pending());
    assert_eq!(woken, None);

    // Draining one payload wakes the blocked sender (token 22)...
    let (poll, sender_wake) = receiver.poll(&mut q.inner, 1);
    match poll {
        TaskPoll::Ready(result) => {
            assert_eq!(result.success().unwrap(), Some(String::from("fits")));
        }
        TaskPoll::Pending => panic!("a payload was queued"),
    }
    assert_eq!(sender_wake, Some(22));

    // ... and its retry now completes: the payload was never lost.
    let (sent, _) = second.poll(&mut q.inner, 22);
    assert!(matches!(sent, TaskPoll::Ready(EmitResult::Completed)));

    let (poll, _) = receiver.poll(&mut q.inner, 1);
    match poll {
        TaskPoll::Ready(result) => {
            assert_eq!(result.success().unwrap(), Some(String::from("waits")));
        }
        TaskPoll::Pending => panic!("the retried payload was queued"),
    }

    receiver.dispose(&mut q.inner);
}

#[test]
fn weak_fifo_first_in_first_out() {
    let mut q = CompleteQ::<Ev, u64>::new();
    let mut receiver = q.wait_for(5, 10);
    let sender = receiver.sender();

    for name in ["a", "b", "c"] {
        let mut attempt = sender.send(String::from(name));
        let (sent, _) = attempt.poll(&mut q.inner, 2);
        assert!(matches!(sent, TaskPoll::Ready(EmitResult::Completed)));
    }

    let mut delivered: Vec<String> = Vec::new();
    for _ in 0..3 {
        let (poll, _) = receiver.poll(&mut q.inner, 1);
        match poll {
            TaskPoll::Ready(result) => {
                delivered.push(result.success().unwrap().expect("payload queued"));
            }
            TaskPoll::Pending => panic!("three payloads were queued"),
        }
    }

    // The first payload in is the first out; the rest are delivered exactly
    // once each, in an unspecified order.
    assert_eq!(delivered[0], "a");
    let mut rest = vec![delivered[1].clone(), delivered[2].clone()];
    rest.sort();
    assert_eq!(rest, vec![String::from("b"), String::from("c")]);

    receiver.dispose(&mut q.inner);
}

#[test]
fn timeout_wins_over_pending_payload() {
    // The receiver checks its timer before the channel: when both are
    // ready, the timeout wins.
    let mut q = CompleteQ::<Ev, u64>::new();
    let mut receiver = q.wait_for_with_timer(3, 4, CountdownTimer::new(0));

    let mut attempt = q.complete_one(3, String::from("too-late"));
    let (sent, _) = attempt.poll(&mut q.inner, 2);
    assert!(matches!(sent, TaskPoll::Ready(EmitResult::Completed)));

    let (poll, _) = receiver.poll(&mut q.inner, 1);
    match poll {
        TaskPoll::Ready(result) => {
            assert!(result.is_timeout());
            assert_eq!(result.success().err(), Some(CompleteQError::Timeout));
        }
        TaskPoll::Pending => panic!("the timer had elapsed"),
    }

    receiver.dispose(&mut q.inner);
}

#[test]
fn completion_wins_before_timer_elapses() {
    // Three polls of headroom: the payload arrives first and is delivered.
    let mut q = CompleteQ::<Ev, u64>::new();
    let mut receiver = q.wait_for_with_timer(3, 4, CountdownTimer::new(3));

    let mut attempt = q.complete_one(3, String::from("in-time"));
    let (sent, _) = attempt.poll(&mut q.inner, 2);
    assert!(matches!(sent, TaskPoll::Ready(EmitResult::Completed)));

    let (poll, _) = receiver.poll(&mut q.inner, 1);
    match poll {
        TaskPoll::Ready(result) => {
            assert_eq!(result.success().unwrap(), Some(String::from("in-time")));
        }
        TaskPoll::Pending => panic!("a payload was queued"),
    }

    receiver.dispose(&mut q.inner);
}

#[test]
fn send_after_timed_out_receiver_disposes_is_closed() {
    let mut q = CompleteQ::<Ev, u64>::new();
    let mut receiver = q.wait_for_with_timer(8, 4, CountdownTimer::new(2));
    let sender = receiver.sender();

    // First poll: timer not yet elapsed, receiver suspends.
    let (poll, _) = receiver.poll(&mut q.inner, 1);
    assert!(poll.is_pending());

    // Second poll: the timer elapses; the stale suspension is handed back.
    let (poll, wake) = receiver.poll(&mut q.inner, 1);
    match poll {
        TaskPoll::Ready(result) => assert!(result.is_timeout()),
        TaskPoll::Pending => panic!("the timer had elapsed"),
    }
    assert_eq!(wake, Some(1));

    // The timed-out receiver disposes; a later send observes Closed.
    receiver.dispose(&mut q.inner);
    let mut attempt = sender.send(String::from("too-late"));
    let (sent, _) = attempt.poll(&mut q.inner, 2);
    assert!(matches!(sent, TaskPoll::Ready(EmitResult::Closed)));
}

#[test]
fn cancel_all_resolves_every_receiver() {
    let mut q = CompleteQ::<Ev, u64>::new();
    let mut r1 = q.wait_one(4);
    let mut r2 = q.wait_one(4);
    let mut r3 = q.wait_one(4);
    assert_ne!(r1.event_id(), r2.event_id());
    assert_ne!(r2.event_id(), r3.event_id());

    // All three suspend under distinct wake tokens.
    assert!(r1.poll(&mut q.inner, 101).0.is_pending());
    assert!(r2.poll(&mut q.inner, 102).0.is_pending());
    assert!(r3.poll(&mut q.inner, 103).0.is_pending());

    // Global cancel wakes all three and empties the table.
    let mut wakes = q.cancel_all();
    wakes.sort();
    assert_eq!(wakes, vec![101, 102, 103]);
    assert_eq!(q.inner.channels.len(), 0);

    // Each woken receiver resolves gracefully with nothing received.
    for receiver in [&mut r1, &mut r2, &mut r3] {
        let (poll, _) = receiver.poll(&mut q.inner, 104);
        match poll {
            TaskPoll::Ready(result) => {
                assert_eq!(result.success().unwrap(), None);
            }
            TaskPoll::Pending => panic!("cancelled receivers resolve at once"),
        }
    }

    // Subsequent opens start fresh channels.
    let r4 = q.wait_one(4);
    assert_eq!(q.inner.channels.len(), 1);
    r4.dispose(&mut q.inner);
    r1.dispose(&mut q.inner);
    r2.dispose(&mut q.inner);
    r3.dispose(&mut q.inner);
}

#[test]
fn round_trip_leaves_no_channel() {
    let mut q = CompleteQ::<Ev, u64>::new();

    let mut receiver = q.wait_one(10);
    let sender = receiver.sender();

    let mut attempt = sender.send(String::from("once"));
    let (sent, _) = attempt.poll(&mut q.inner, 2);
    assert!(matches!(sent, TaskPoll::Ready(EmitResult::Completed)));

    let (poll, _) = receiver.poll(&mut q.inner, 1);
    match poll {
        TaskPoll::Ready(result) => {
            assert_eq!(result.success().unwrap(), Some(String::from("once")));
        }
        TaskPoll::Pending => panic!("a payload was queued"),
    }

    receiver.dispose(&mut q.inner);
    assert_eq!(q.inner.channels.len(), 0);
}

#[test]
fn capacity_follows_last_opened_receiver() {
    let mut q = CompleteQ::<Ev, u64>::new();
    let r1 = q.wait_for(6, 5);
    assert_eq!(r1.max_len(), 5);

    // A second receiver on the same id resets the capacity to 1.
    let r2 = q.wait_for(6, 1);
    assert_eq!(r2.max_len(), 1);

    let sender = r1.sender();
    let mut first = sender.send(String::from("one"));
    assert!(matches!(
        first.poll(&mut q.inner, 2).0,
        TaskPoll::Ready(EmitResult::Completed)
    ));
    let mut second = sender.send(String::from("two"));
    assert!(second.poll(&mut q.inner, 3).0.is_pending());

    let (remaining, _) = r2.dispose(&mut q.inner);
    assert_eq!(remaining, 1);
    let (remaining, wakes) = r1.dispose(&mut q.inner);
    assert_eq!(remaining, 0);
    // Closing the last receiver hands back the blocked sender to wake.
    assert_eq!(wakes, vec![3]);
}

#[test]
fn zero_capacity_channel_always_blocks_senders() {
    let mut q = CompleteQ::<Ev, u64>::new();
    let receiver = q.wait_for(2, 0);
    let sender = receiver.sender();

    let mut attempt = sender.send(String::from("never-fits"));
    assert!(attempt.poll(&mut q.inner, 30).0.is_pending());

    // Closing the channel wakes the blocked sender, which then observes
    // the closure.
    let (_, wakes) = receiver.dispose(&mut q.inner);
    assert_eq!(wakes, vec![30]);
    let (sent, _) = attempt.poll(&mut q.inner, 30);
    assert!(matches!(sent, TaskPoll::Ready(EmitResult::Closed)));
}

#[test]
fn poll_on_unknown_key_is_graceful() {
    // An absent channel is a legitimate transient state: polling it is an
    // empty success, never a fault.
    let mut q = CompleteQ::<Ev, u64>::new();
    let (poll, wake) = q.inner.poll_once(1, 999, 5);
    match poll {
        TaskPoll::Ready(result) => assert_eq!(result.success().unwrap(), None),
        TaskPoll::Pending => panic!("an absent channel resolves at once"),
    }
    assert_eq!(wake, None);
}

#[test]
fn receiver_ids_and_event_ids_increase() {
    let mut q = CompleteQ::<Ev, u64>::new();
    let r1 = q.wait_one(4);
    let r2 = q.wait_one(4);
    assert_eq!(r1.event_id(), 1);
    assert_eq!(r2.event_id(), 2);
    assert_eq!(r1.receiver_id, 1);
    assert_eq!(r2.receiver_id, 2);
    r1.dispose(&mut q.inner);
    r2.dispose(&mut q.inner);
}
