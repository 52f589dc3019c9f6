use std::sync::atomic::AtomicBool;
use std::sync::atomic::AtomicUsize;
use std::sync::atomic::Ordering;
use std::sync::Arc;
use std::sync::Mutex;
use std::time::Duration;

use quickwit_actors::scheduler::EventIdsExhausted;
use quickwit_actors::Callback;
use quickwit_actors::Scheduler;
use quickwit_actors::SchedulerCounters;
use quickwit_actors::SchedulerMessage;

const MILLI: u128 = 1_000_000;
const SECOND: u128 = 1_000_000_000;

fn create_test_callback() -> (Arc<AtomicBool>, Callback) {
    let cb_called = Arc::new(AtomicBool::default());
    let cb_called_clone = cb_called.clone();
    let callback = Callback::new(move || {
        cb_called_clone.store(true, Ordering::SeqCst);
    });
    (cb_called, callback)
}

fn recording_callback(log: &Arc<Mutex<Vec<u32>>>, tag: u32) -> Callback {
    let log = log.clone();
    Callback::new(move || log.lock().unwrap().push(tag))
}

fn schedule(timeout: Duration, callback: Callback) -> SchedulerMessage {
    SchedulerMessage::ScheduleEvent { timeout, callback }
}

fn advance(time_shift: Duration) -> SchedulerMessage {
    SchedulerMessage::SimulateAdvanceTime { time_shift }
}

#[test]
fn test_scheduler_advance_time() {
    let mut scheduler = Scheduler::new();
    let (cb_called, callback) = create_test_callback();
    scheduler
        .process_message_at(schedule(Duration::from_secs(30), callback), 0)
        .unwrap();
    scheduler
        .process_message_at(SchedulerMessage::Timeout, SECOND)
        .unwrap();
    assert!(!cb_called.load(Ordering::SeqCst));
    scheduler
        .process_message_at(advance(Duration::from_secs(31)), SECOND)
        .unwrap();
    let scheduler_counters: SchedulerCounters = scheduler.observable_state();
    assert_eq!(
        scheduler_counters,
        SchedulerCounters {
            total_num_events: 1,
            num_pending_events: 0
        }
    );
    assert!(cb_called.load(Ordering::SeqCst));
}

#[test]
fn test_scheduler_simple() {
    let mut scheduler = Scheduler::new();
    let (cb_called1, callback1) = create_test_callback();
    let (cb_called2, callback2) = create_test_callback();
    scheduler
        .process_message_at(schedule(Duration::from_secs(20), callback2), 0)
        .unwrap();
    scheduler
        .process_message_at(schedule(Duration::from_millis(2), callback1), 0)
        .unwrap();
    let scheduler_counters = scheduler.observable_state();
    assert_eq!(
        scheduler_counters,
        SchedulerCounters {
            total_num_events: 2,
            num_pending_events: 2
        }
    );
    assert!(!cb_called1.load(Ordering::SeqCst));
    assert!(!cb_called2.load(Ordering::SeqCst));
    scheduler
        .process_message_at(SchedulerMessage::Timeout, 10 * MILLI)
        .unwrap();
    let scheduler_counters = scheduler.observable_state();
    assert_eq!(
        scheduler_counters,
        SchedulerCounters {
            total_num_events: 2,
            num_pending_events: 1
        }
    );
    assert!(cb_called1.load(Ordering::SeqCst));
    assert!(!cb_called2.load(Ordering::SeqCst));
    scheduler
        .process_message_at(advance(Duration::from_secs(10)), 10 * MILLI)
        .unwrap();
    assert!(cb_called1.load(Ordering::SeqCst));
    assert!(!cb_called2.load(Ordering::SeqCst));
    scheduler
        .process_message_at(advance(Duration::from_secs(10)), 10 * MILLI)
        .unwrap();
    let scheduler_counters: SchedulerCounters = scheduler.observable_state();
    assert!(cb_called1.load(Ordering::SeqCst));
    assert!(cb_called2.load(Ordering::SeqCst));
    assert_eq!(
        scheduler_counters,
        SchedulerCounters {
            total_num_events: 2,
            num_pending_events: 0
        }
    );
}

#[test]
fn test_new_scheduler_is_empty() {
    let scheduler = Scheduler::new();
    assert_eq!(
        scheduler.observable_state(),
        SchedulerCounters {
            total_num_events: 0,
            num_pending_events: 0
        }
    );
    assert_eq!(scheduler.schedule_next_timeout(0), None);
    assert_eq!(scheduler.simulated_now_at(5), 5);
}

#[test]
fn test_schedule_asks_for_a_wake_up_only_for_a_new_earliest_deadline() {
    let mut scheduler = Scheduler::new();
    let (_, first) = create_test_callback();
    let (_, later) = create_test_callback();
    let (_, same) = create_test_callback();
    let (_, earlier) = create_test_callback();
    assert_eq!(
        scheduler.process_message_at(schedule(Duration::from_secs(5), first), SECOND),
        Ok(Some(5 * SECOND))
    );
    assert_eq!(
        scheduler.process_message_at(schedule(Duration::from_secs(7), later), SECOND),
        Ok(None)
    );
    assert_eq!(
        scheduler.process_message_at(schedule(Duration::from_secs(5), same), SECOND),
        Ok(None)
    );
    assert_eq!(
        scheduler.process_message_at(schedule(Duration::from_millis(2), earlier), 2 * SECOND),
        Ok(Some(2 * MILLI))
    );
    assert_eq!(
        scheduler.observable_state(),
        SchedulerCounters {
            total_num_events: 4,
            num_pending_events: 4
        }
    );
}

#[test]
fn test_timeout_asks_for_the_next_wake_up() {
    let mut scheduler = Scheduler::new();
    let (_, first) = create_test_callback();
    let (_, second) = create_test_callback();
    scheduler.process_schedule_event(0, 3 * SECOND, first);
    scheduler.process_schedule_event(0, 8 * SECOND, second);
    assert_eq!(scheduler.schedule_next_timeout(SECOND), Some(2 * SECOND));
    assert_eq!(scheduler.schedule_next_timeout(4 * SECOND), Some(0));
    assert_eq!(scheduler.process_timeout(SECOND), Some(2 * SECOND));
    assert_eq!(scheduler.process_timeout(3 * SECOND), Some(5 * SECOND));
    assert_eq!(scheduler.process_timeout(8 * SECOND), None);
}

#[test]
fn test_deadline_is_inclusive() {
    let mut scheduler = Scheduler::new();
    let (called, callback) = create_test_callback();
    scheduler.process_schedule_event(10, 90, callback);
    scheduler.process_timeout(99);
    assert!(!called.load(Ordering::SeqCst));
    scheduler.process_timeout(100);
    assert!(called.load(Ordering::SeqCst));
}

#[test]
fn test_equal_deadlines_fire_in_submission_order() {
    let log = Arc::new(Mutex::new(Vec::new()));
    let mut scheduler = Scheduler::new();
    scheduler.process_schedule_event(0, 50, recording_callback(&log, 1));
    scheduler.process_schedule_event(0, 20, recording_callback(&log, 2));
    scheduler.process_schedule_event(0, 50, recording_callback(&log, 3));
    scheduler.process_schedule_event(10, 40, recording_callback(&log, 4));
    scheduler.process_schedule_event(0, 20, recording_callback(&log, 5));
    scheduler.process_schedule_event(0, 80, recording_callback(&log, 6));
    assert_eq!(scheduler.process_timeout(60), Some(20));
    assert_eq!(*log.lock().unwrap(), vec![2, 5, 1, 3, 4]);
    scheduler.process_schedule_event(60, 20, recording_callback(&log, 7));
    assert_eq!(scheduler.process_timeout(80), None);
    assert_eq!(*log.lock().unwrap(), vec![2, 5, 1, 3, 4, 6, 7]);
}

#[test]
fn test_events_fire_by_deadline_not_by_submission() {
    let log = Arc::new(Mutex::new(Vec::new()));
    let mut scheduler = Scheduler::new();
    for (tag, timeout) in [(1u32, 500u128), (2, 100), (3, 400), (4, 200), (5, 300)] {
        scheduler.process_schedule_event(0, timeout, recording_callback(&log, tag));
    }
    scheduler.process_timeout(250);
    assert_eq!(*log.lock().unwrap(), vec![2, 4]);
    scheduler.process_timeout(1_000);
    assert_eq!(*log.lock().unwrap(), vec![2, 4, 5, 3, 1]);
}

#[test]
fn test_advance_time_fires_everything_due_on_the_new_clock() {
    let log = Arc::new(Mutex::new(Vec::new()));
    let mut scheduler = Scheduler::new();
    scheduler.process_schedule_event(0, 10 * SECOND, recording_callback(&log, 1));
    scheduler.process_schedule_event(0, 30 * SECOND, recording_callback(&log, 2));
    scheduler.process_schedule_event(0, 31 * SECOND, recording_callback(&log, 3));
    assert_eq!(
        scheduler.process_simulate_advance_time(SECOND, 29 * SECOND),
        Some(SECOND)
    );
    assert_eq!(*log.lock().unwrap(), vec![1, 2]);
    assert_eq!(scheduler.simulated_now_at(SECOND), 30 * SECOND);
    assert_eq!(
        scheduler.observable_state(),
        SchedulerCounters {
            total_num_events: 3,
            num_pending_events: 1
        }
    );
}

#[test]
fn test_simulated_time_is_kept_for_later_events() {
    let mut scheduler = Scheduler::new();
    scheduler.process_simulate_advance_time(0, 100 * SECOND);
    let (called, callback) = create_test_callback();
    assert_eq!(
        scheduler.process_schedule_event(scheduler.simulated_now_at(0), 5 * SECOND, callback),
        Some(5 * SECOND)
    );
    scheduler.process_timeout(scheduler.simulated_now_at(4 * SECOND));
    assert!(!called.load(Ordering::SeqCst));
    scheduler.process_timeout(scheduler.simulated_now_at(5 * SECOND));
    assert!(called.load(Ordering::SeqCst));
}

#[test]
fn test_clock_saturates() {
    let mut scheduler = Scheduler::new();
    assert_eq!(scheduler.simulated_now_at(u128::MAX), u128::MAX);
    scheduler.process_simulate_advance_time(0, u128::MAX);
    scheduler.process_simulate_advance_time(0, 5);
    assert_eq!(scheduler.simulated_now_at(7), u128::MAX);
    let (called, callback) = create_test_callback();
    assert_eq!(
        scheduler.process_schedule_event(u128::MAX, 10, callback),
        Some(0)
    );
    scheduler.process_timeout(u128::MAX);
    assert!(called.load(Ordering::SeqCst));
}

#[test]
fn test_process_message_reads_the_clock() {
    let mut scheduler = Scheduler::new();
    let (due, due_callback) = create_test_callback();
    let (far, far_callback) = create_test_callback();
    assert_eq!(
        scheduler.process_message(schedule(Duration::ZERO, due_callback)),
        Ok(Some(0))
    );
    assert_eq!(
        scheduler.process_message(schedule(Duration::from_secs(3_600), far_callback)),
        Ok(None)
    );
    let wake = scheduler
        .process_message(SchedulerMessage::Timeout)
        .unwrap()
        .unwrap();
    assert!(due.load(Ordering::SeqCst));
    assert!(!far.load(Ordering::SeqCst));
    assert!(wake <= 3_600 * SECOND && wake > 3_599 * SECOND);
    assert!(scheduler.simulated_now() <= scheduler.simulated_now());
    assert_eq!(
        scheduler.process_message(advance(Duration::from_secs(3_600))),
        Ok(None)
    );
    assert!(far.load(Ordering::SeqCst));
    assert!(scheduler.simulated_now() >= 3_600 * SECOND);
}

#[test]
fn test_callback_runs_once_when_called() {
    let (called, callback) = create_test_callback();
    assert!(!called.load(Ordering::SeqCst));
    callback.call();
    assert!(called.load(Ordering::SeqCst));
}

#[test]
fn test_dropped_scheduler_does_not_fire() {
    let (called, callback) = create_test_callback();
    let mut scheduler = Scheduler::new();
    scheduler.process_schedule_event(0, 1, callback);
    drop(scheduler);
    assert!(!called.load(Ordering::SeqCst));
}

#[test]
fn test_scheduler_message_debug_string() {
    let (_, callback) = create_test_callback();
    assert_eq!(
        schedule(Duration::from_secs(30), callback).debug_string(),
        "ScheduleEvent { timeout: 30s }"
    );
    assert_eq!(SchedulerMessage::Timeout.debug_string(), "Timeout");
    assert_eq!(
        advance(Duration::from_millis(2)).debug_string(),
        "SimulateAdvanceTime { time_shift: 2ms }"
    );
}

#[test]
fn test_event_ids_exhausted_is_an_error_value() {
    let outcome: Result<Option<u128>, EventIdsExhausted> = Err(EventIdsExhausted);
    assert_eq!(outcome, Err(EventIdsExhausted));
}

#[test]
fn test_each_callback_runs_once() {
    let calls = Arc::new(AtomicUsize::new(0));
    let mut scheduler = Scheduler::new();
    for timeout in [30u128, 10, 20, 10, 40] {
        let calls = calls.clone();
        scheduler.process_schedule_event(
            0,
            timeout,
            Callback::new(move || {
                calls.fetch_add(1, Ordering::SeqCst);
            }),
        );
    }
    assert_eq!(calls.load(Ordering::SeqCst), 0);
    scheduler.process_timeout(9);
    assert_eq!(calls.load(Ordering::SeqCst), 0);
    scheduler.process_timeout(10);
    assert_eq!(calls.load(Ordering::SeqCst), 2);
    scheduler.process_timeout(10);
    assert_eq!(calls.load(Ordering::SeqCst), 2);
    scheduler.process_simulate_advance_time(10, 20);
    assert_eq!(calls.load(Ordering::SeqCst), 4);
    scheduler.process_simulate_advance_time(10, 1_000);
    assert_eq!(calls.load(Ordering::SeqCst), 5);
    scheduler.process_timeout(u128::MAX);
    assert_eq!(calls.load(Ordering::SeqCst), 5);
    assert_eq!(
        scheduler.observable_state(),
        SchedulerCounters {
            total_num_events: 5,
            num_pending_events: 0
        }
    );
}

#[test]
fn test_pending_events_never_exceed_the_total() {
    let mut scheduler = Scheduler::new();
    for round in 0..20u128 {
        let (_, callback) = create_test_callback();
        scheduler.process_schedule_event(round, 5, callback);
        if round % 3 == 0 {
            scheduler.process_timeout(round + 1);
        }
        let counters = scheduler.observable_state();
        assert!(counters.num_pending_events as u64 <= counters.total_num_events);
        assert_eq!(counters.total_num_events, round as u64 + 1);
    }
}
