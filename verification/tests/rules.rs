use tiny_actor::sending::{snd_poll, SndPoll, SndWait};
use tiny_actor::{BackPressure, Capacity, Growth, Timeout};
use tiny_actor::capacity::{growth_exponent, linear_nanos};
use std::time::Duration;
use tiny_actor::counting::{
    halt_amount, listeners_for_halt, next_halt_count, previous_count_checked, receiver_count_after_add,
};
use tiny_actor::owner::{all_finished, count_alive, drop_action};
use tiny_actor::receiving::{recv_outcome, stream_item};
use tiny_actor::sending::{send_outcome, SendStep};
use tiny_actor::{
    DropAction, ExitError, Halted, Link, RecvError, SendError, TryRecvError, TrySendError,
    TrySpawnError,
};

#[test]
fn halt_amount_is_capped() {
    assert_eq!(halt_amount(0), 0);
    assert_eq!(halt_amount(17), 17);
    assert_eq!(halt_amount(i32::MAX as u32), i32::MAX);
    assert_eq!(halt_amount(u32::MAX), i32::MAX);
    assert_eq!(listeners_for_halt(12), 12);
}

#[test]
fn halt_count_rules() {
    assert_eq!(next_halt_count(-5, 3), Some(3));
    assert_eq!(next_halt_count(2, 3), Some(5));
    assert_eq!(next_halt_count(i32::MAX - 1, 3), Some(i32::MAX));
    assert_eq!(next_halt_count(0, i32::MAX), Some(i32::MAX));
    assert_eq!(next_halt_count(i32::MIN + 1, -3), Some(-3));
    assert_eq!(next_halt_count(4, -10), Some(-6));
    assert_eq!(next_halt_count(1, i32::MIN), Some(i32::MIN + 1));
}

#[test]
fn receiver_add_rules() {
    assert_eq!(receiver_count_after_add(0), None);
    assert_eq!(receiver_count_after_add(1), Some(2));
    assert_eq!(receiver_count_after_add(41), Some(42));
    assert_eq!(receiver_count_after_add(usize::MAX), None);
}

#[test]
fn exit_error_kinds() {
    let panic: ExitError = ExitError::Panic(Box::new(5u8));
    assert!(panic.is_panic());
    assert!(!panic.is_abort());
    let abort: ExitError = ExitError::Abort;
    assert!(abort.is_abort());
    assert!(!abort.is_panic());
}

#[test]
fn spawn_error_keeps_value() {
    let e = TrySpawnError::Exited(3u8);
    match e.clone() {
        TrySpawnError::Exited(v) => assert_eq!(v, 3),
        TrySpawnError::IncorrectInboxType(_) => panic!("wrong variant"),
    }
}

#[test]
fn link_attach_and_detach() {
    let mut link = Link::Detached;
    assert!(!link.is_attached());
    assert_eq!(link.attach(Duration::from_secs(1)), None);
    assert!(link.is_attached());
    assert_eq!(link.attach(Duration::from_secs(2)), Some(Duration::from_secs(1)));
    assert_eq!(link, Link::Attached(Duration::from_secs(2)));
    assert_eq!(link.detach(), Some(Duration::from_secs(2)));
    assert_eq!(link, Link::Detached);
    assert_eq!(link.detach(), None);
}

#[test]
fn drop_actions() {
    let attached = Link::Attached(Duration::from_millis(5));
    let zero = Link::Attached(Duration::from_secs(0));
    assert_eq!(drop_action(&Link::Detached, false, false), DropAction::Nothing);
    assert_eq!(drop_action(&attached, true, false), DropAction::Nothing);
    assert_eq!(drop_action(&attached, false, true), DropAction::Nothing);
    assert_eq!(drop_action(&zero, false, false), DropAction::AbortNow);
    assert_eq!(
        drop_action(&attached, false, false),
        DropAction::HaltThenAbortAfter(Duration::from_millis(5))
    );
}

#[test]
fn task_counts() {
    assert!(all_finished(&vec![]));
    assert_eq!(count_alive(&vec![]), 0);
    assert!(all_finished(&vec![true, true]));
    assert_eq!(count_alive(&vec![true, true]), 0);
    assert!(!all_finished(&vec![true, false, true]));
    assert_eq!(count_alive(&vec![false, true, false, false]), 3);
}

#[test]
fn recv_outcomes() {
    assert_eq!(recv_outcome::<u8>(Ok(4)), Some(Ok(4)));
    assert_eq!(recv_outcome::<u8>(Err(TryRecvError::Halted)), Some(Err(RecvError::Halted)));
    assert_eq!(recv_outcome::<u8>(Err(TryRecvError::Closed)), Some(Err(RecvError::ClosedAndEmpty)));
    assert_eq!(recv_outcome::<u8>(Err(TryRecvError::Empty)), None);
    assert_eq!(stream_item::<u8>(Ok(9)), Some(Ok(9)));
    assert_eq!(stream_item::<u8>(Err(RecvError::Halted)), Some(Err(Halted)));
    assert_eq!(stream_item::<u8>(Err(RecvError::ClosedAndEmpty)), None);
}

#[test]
fn send_outcomes() {
    assert!(matches!(send_outcome::<u8>(Ok(())), SendStep::Done(Ok(()))));
    assert!(matches!(
        send_outcome::<u8>(Err(TrySendError::Closed(6))),
        SendStep::Done(Err(SendError(6)))
    ));
    assert!(matches!(send_outcome::<u8>(Err(TrySendError::Full(8))), SendStep::Retry(8)));
}

#[test]
fn owner_abort_is_first_only_once() {
    let mut state = tiny_actor::OwnerState {
        link: Link::Attached(Duration::from_millis(1)),
        is_aborted: false,
    };
    assert_eq!(state.on_drop(false), DropAction::HaltThenAbortAfter(Duration::from_millis(1)));
    assert!(state.abort());
    assert!(state.is_aborted);
    assert!(!state.abort());
    assert_eq!(state.link, Link::Attached(Duration::from_millis(1)));
    assert_eq!(state.on_drop(false), DropAction::Nothing);
}

#[test]
fn linear_and_exponent_helpers() {
    assert_eq!(linear_nanos(1_000_000_000, 10, 11), 2_000_000_000);
    assert_eq!(linear_nanos(7, 0, 0), 7);
    assert_eq!(linear_nanos(u128::MAX, 0, 1), u64::MAX);
    assert_eq!(linear_nanos(u64::MAX as u128, 3, 4), u64::MAX);
    assert_eq!(growth_exponent(3, 7), 4);
    assert_eq!(growth_exponent(0, usize::MAX), i32::MAX);
}

#[test]
fn previous_counts() {
    assert_eq!(previous_count_checked(0), Err(()));
    assert_eq!(previous_count_checked(1), Ok(1));
    assert_eq!(previous_count_checked(usize::MAX), Ok(usize::MAX));
}

#[test]
fn count_decisions() {
    assert!(tiny_actor::counting::was_last_receiver(1));
    assert!(!tiny_actor::counting::was_last_receiver(2));
    assert!(!tiny_actor::counting::was_last_receiver(0));
    assert!(tiny_actor::counting::no_receivers_left(0));
    assert!(!tiny_actor::counting::no_receivers_left(3));
    assert!(tiny_actor::counting::halt_due(1));
    assert!(!tiny_actor::counting::halt_due(0));
    assert!(!tiny_actor::counting::halt_due(-2));
}

#[test]
fn send_future_steps() {
    let bounded = Capacity::Bounded(2);
    assert_eq!(snd_poll(&bounded, &SndWait::Idle, 7), Some(SndPoll::TrySend));
    assert_eq!(snd_poll(&bounded, &SndWait::Listener, 7), Some(SndPoll::TrySend));
    assert_eq!(snd_poll(&bounded, &SndWait::Sleep, 7), None);
    let unbounded = Capacity::Unbounded(BackPressure {
        start_at: 3,
        timeout: Duration::from_nanos(10),
        growth: Growth::Linear,
    });
    assert_eq!(snd_poll(&unbounded, &SndWait::Idle, 2), Some(SndPoll::Push));
    assert_eq!(
        snd_poll(&unbounded, &SndWait::Idle, 4),
        Some(SndPoll::StartSleep(Timeout::Exact(Duration::from_nanos(20))))
    );
    assert_eq!(snd_poll(&unbounded, &SndWait::Sleep, 4), Some(SndPoll::PollSleep));
    assert_eq!(snd_poll(&unbounded, &SndWait::Listener, 4), None);
}

#[test]
fn halts_compose() {
    let once = next_halt_count(-3, 7).unwrap();
    let twice = next_halt_count(once, 5).unwrap();
    assert_eq!(twice, next_halt_count(-3, 12).unwrap());
    let big = next_halt_count(next_halt_count(4, i32::MAX - 1).unwrap(), 9).unwrap();
    assert_eq!(big, next_halt_count(4, i32::MAX).unwrap());
}
