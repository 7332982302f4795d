//! Scenario tests for the oneshot channel discipline.

use completeq::error::CompleteQError;
use completeq::oneshot::CompleteQ;
use completeq::result::{EmitResult, TaskPoll};
use completeq::timer::CountdownTimer;
use completeq::user_event::RPCResponser;

type Ev = RPCResponser<u32>;

#[test]
fn oneshot_one_send_one_recv() {
    let mut q = CompleteQ::<Ev, u64>::new();

    let mut receiver = q.wait_one().expect("fresh id");
    let sender = receiver.sender();

    let (sent, woken) = sender.send(&mut q.inner, 42);
    assert_eq!(sent, EmitResult::Completed);
    assert_eq!(woken, None);

    let (poll, _) = receiver.poll(&mut q.inner, 1);
    match poll {
        TaskPoll::Ready(result) => {
            assert_eq!(result.success().unwrap(), Some(42));
        }
        TaskPoll::Pending => panic!("the slot was filled"),
    }

    receiver.dispose(&mut q.inner);
    assert_eq!(q.inner.channels.len(), 0);
}

#[test]
fn rec_timeout() {
    let mut q = CompleteQ::<Ev, u64>::new();
    let mut receiver = q
        .wait_one_with_timer(CountdownTimer::new(2))
        .expect("fresh id");

    // First poll: the timer has not elapsed yet, the receiver suspends.
    let (poll, _) = receiver.poll(&mut q.inner, 1);
    assert!(poll.is_pending());

    // Second poll: the timer elapses and the timeout wins; the stale
    // suspension handle comes back.
    let (poll, wake) = receiver.poll(&mut q.inner, 1);
    match poll {
        TaskPoll::Ready(result) => {
            assert!(result.is_timeout());
            assert_eq!(result.success().err(), Some(CompleteQError::Timeout));
        }
        TaskPoll::Pending => panic!("the timer had elapsed"),
    }
    assert_eq!(wake, Some(1));

    receiver.dispose(&mut q.inner);
}

#[test]
fn oneshot_double_open_fails() {
    let mut q = CompleteQ::<Ev, u64>::new();

    let mut first = q.wait_for(5).expect("first open succeeds");

    // A second receiver on the same id is refused...
    match q.wait_for(5) {
        Ok(_) => panic!("the id is taken"),
        Err(e) => assert_eq!(e, CompleteQError::OpenChannelTwice),
    }

    // ... and the first receiver is not disturbed.
    let sender = first.sender();
    let (sent, _) = sender.send(&mut q.inner, 7);
    assert_eq!(sent, EmitResult::Completed);
    let (poll, _) = first.poll(&mut q.inner, 1);
    match poll {
        TaskPoll::Ready(result) => assert_eq!(result.success().unwrap(), Some(7)),
        TaskPoll::Pending => panic!("the slot was filled"),
    }

    first.dispose(&mut q.inner);
}

#[test]
fn oneshot_last_write_wins() {
    let mut q = CompleteQ::<Ev, u64>::new();
    let mut receiver = q.wait_for(11).expect("fresh id");
    let sender = receiver.sender();

    // Two completions before the poll: the slot keeps the later payload.
    assert_eq!(sender.send(&mut q.inner, 1).0, EmitResult::Completed);
    assert_eq!(sender.send(&mut q.inner, 2).0, EmitResult::Completed);

    let (poll, _) = receiver.poll(&mut q.inner, 1);
    match poll {
        TaskPoll::Ready(result) => assert_eq!(result.success().unwrap(), Some(2)),
        TaskPoll::Pending => panic!("the slot was filled"),
    }

    receiver.dispose(&mut q.inner);
}

#[test]
fn oneshot_send_after_dispose_is_closed() {
    let mut q = CompleteQ::<Ev, u64>::new();
    let receiver = q.wait_for(3).expect("fresh id");
    let sender = receiver.sender();

    receiver.dispose(&mut q.inner);

    let (sent, woken) = sender.send(&mut q.inner, 9);
    assert_eq!(sent, EmitResult::Closed);
    assert_eq!(woken, None);
    assert_eq!(sent.completed(), Err(CompleteQError::PipeBroken));
}

#[test]
fn oneshot_wake_on_late_send() {
    let mut q = CompleteQ::<Ev, u64>::new();
    let mut receiver = q.wait_for(6).expect("fresh id");
    let sender = receiver.sender();

    // The receiver polls first and suspends under token 77.
    assert!(receiver.poll(&mut q.inner, 77).0.is_pending());

    // The completion hands the suspended receiver's token back.
    let (sent, woken) = sender.send(&mut q.inner, 5);
    assert_eq!(sent, EmitResult::Completed);
    assert_eq!(woken, Some(77));

    let (poll, _) = receiver.poll(&mut q.inner, 77);
    match poll {
        TaskPoll::Ready(result) => assert_eq!(result.success().unwrap(), Some(5)),
        TaskPoll::Pending => panic!("the slot was filled"),
    }

    receiver.dispose(&mut q.inner);
}

#[test]
fn oneshot_poll_on_unknown_key_is_graceful() {
    let mut q = CompleteQ::<Ev, u64>::new();
    match q.inner.poll_once(999, 5) {
        TaskPoll::Ready(result) => assert_eq!(result.success().unwrap(), None),
        TaskPoll::Pending => panic!("an absent channel resolves at once"),
    }
}

#[test]
fn oneshot_cancel_all_wakes_and_clears() {
    let mut q = CompleteQ::<Ev, u64>::new();
    let mut r1 = q.wait_for(21).expect("fresh id");
    let mut r2 = q.wait_for(22).expect("fresh id");

    assert!(r1.poll(&mut q.inner, 201).0.is_pending());
    assert!(r2.poll(&mut q.inner, 202).0.is_pending());

    let mut wakes = q.inner.cancel_all();
    wakes.sort();
    assert_eq!(wakes, vec![201, 202]);
    assert_eq!(q.inner.channels.len(), 0);

    // Woken receivers resolve gracefully with nothing received.
    for receiver in [&mut r1, &mut r2] {
        let (poll, _) = receiver.poll(&mut q.inner, 203);
        match poll {
            TaskPoll::Ready(result) => assert_eq!(result.success().unwrap(), None),
            TaskPoll::Pending => panic!("cancelled receivers resolve at once"),
        }
    }

    r1.dispose(&mut q.inner);
    r2.dispose(&mut q.inner);
}
