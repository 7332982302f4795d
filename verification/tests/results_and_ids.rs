//! Tests of the result types, the error taxonomy, the timers and the
//! auto-increment id generator.

use completeq::error::CompleteQError;
use completeq::result::{EmitResult, ReceiveResult, TaskPoll};
use completeq::timer::{CountdownTimer, Timer};
use completeq::user_event::{AutoIncEvent, RPCResponser};

type Ev = RPCResponser<String>;

#[test]
fn emit_result_conversions() {
    assert_eq!(EmitResult::Completed.completed(), Ok(()));
    assert_eq!(
        EmitResult::Closed.completed(),
        Err(CompleteQError::PipeBroken)
    );
    assert!(EmitResult::Closed.is_closed());
    assert!(!EmitResult::Completed.is_closed());
}

#[test]
fn receive_result_conversions() {
    let delivered: ReceiveResult<Ev> = ReceiveResult::Success(Some(String::from("v")));
    assert!(!delivered.is_timeout());
    assert_eq!(delivered.success(), Ok(Some(String::from("v"))));

    let empty: ReceiveResult<Ev> = ReceiveResult::Success(None);
    assert_eq!(empty.success(), Ok(None));

    let late: ReceiveResult<Ev> = ReceiveResult::Timeout;
    assert!(late.is_timeout());
    assert_eq!(late.success(), Err(CompleteQError::Timeout));
}

#[test]
fn task_poll_is_pending() {
    let pending: TaskPoll<EmitResult> = TaskPoll::Pending;
    assert!(pending.is_pending());
    let ready: TaskPoll<EmitResult> = TaskPoll::Ready(EmitResult::Completed);
    assert!(!ready.is_pending());
}

#[test]
fn countdown_timer_elapses_once_and_stays() {
    let mut t = CountdownTimer::new(2);
    assert!(!t.poll_elapsed());
    assert!(t.poll_elapsed());
    assert!(t.poll_elapsed());

    let mut zero = CountdownTimer::new(0);
    assert!(zero.poll_elapsed());
}

#[test]
fn auto_increment_ids_start_at_one() {
    let mut gen: Ev = Default::default();
    assert_eq!(gen.next(), 1);
    assert_eq!(gen.next(), 2);
    assert_eq!(gen.next(), 3);
}
