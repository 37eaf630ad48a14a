use portlight::{EventLoop, Fired, Key, TaskId, Timer, TimerId, Timers};

#[test]
fn first_firing_after_one_period() {
    let mut timers = Timers::new();
    let id = timers.repeat(1000, 100, TaskId(0), Key(1));
    assert_eq!(timers.next_time(), Some(1100));
    assert!(timers.poll(1100).is_empty());
    assert_eq!(timers.poll(1101), vec![Fired { id, task: TaskId(0), key: Key(1) }]);
    // On schedule: one period after the due instant.
    assert_eq!(timers.next_time(), Some(1200));
}

#[test]
fn stalled_timer_fires_once_and_resets_phase() {
    let mut timers = Timers::new();
    let id = timers.repeat(0, 100, TaskId(0), Key(0));
    // Due at 100; the loop stalls for three and a half periods past that.
    let now = 100 + 350;
    let fired = timers.poll(now);
    assert_eq!(fired.len(), 1);
    assert_eq!(fired[0].id, id);
    assert_eq!(timers.next_time(), Some(now));
    assert!(timers.poll(now).is_empty());
    assert_eq!(timers.poll(now + 1).len(), 1);
}

#[test]
fn cancel_is_idempotent() {
    let mut timers = Timers::new();
    let id = timers.repeat(0, 10, TaskId(0), Key(0));
    assert!(timers.is_active(id));
    timers.cancel(id);
    assert!(!timers.is_active(id));
    timers.cancel(id);
    timers.cancel(TimerId(99));
    assert!(timers.poll(1000).is_empty());
    assert_eq!(timers.next_time(), None);
}

#[test]
fn saturating_due_time() {
    let mut timers = Timers::new();
    timers.repeat(u64::MAX - 5, 100, TaskId(0), Key(0));
    assert_eq!(timers.next_time(), Some(u64::MAX));
}

#[test]
fn two_timers_one_task_cancel_one() {
    let mut event_loop = EventLoop::new().unwrap();
    let task = event_loop.spawn();
    let a = Timer::repeat(&mut event_loop, 0, 10, task.id, Key(1));
    let b = Timer::repeat(&mut event_loop, 0, 10, task.id, Key(2));
    let fired = event_loop.poll_timers(11);
    assert_eq!(fired.len(), 2);
    // Both go through the task's single exclusive borrow: never overlapping.
    let d1 = event_loop.route_timer(fired[0]).unwrap();
    assert_eq!(d1.key, Key(1));
    assert_eq!(event_loop.route_timer(fired[1]), None);
    event_loop.complete(d1);

    a.cancel(&mut event_loop);
    a.cancel(&mut event_loop);
    let fired = event_loop.poll_timers(100);
    assert_eq!(fired, vec![Fired { id: b.id, task: task.id, key: Key(2) }]);
    let d2 = event_loop.route_timer(fired[0]).unwrap();
    assert_eq!(d2.key, Key(2));
    event_loop.complete(d2);
}

#[test]
fn firing_of_timer_canceled_in_same_pass_is_dropped() {
    let mut event_loop = EventLoop::new().unwrap();
    let task = event_loop.spawn();
    let a = Timer::repeat(&mut event_loop, 0, 10, task.id, Key(1));
    let b = Timer::repeat(&mut event_loop, 0, 10, task.id, Key(2));
    let fired = event_loop.poll_timers(20);
    let d = event_loop.route_timer(fired[0]).unwrap();
    // The first callback cancels the other timer.
    b.cancel(&mut event_loop);
    event_loop.complete(d);
    assert_eq!(event_loop.route_timer(fired[1]), None);
    assert_eq!(fired[0].id, a.id);
}

#[test]
fn wait_timeout_until_next_due() {
    let mut timers = Timers::new();
    assert_eq!(timers.wait_timeout(5), None);
    timers.repeat(0, 100, TaskId(0), Key(0));
    timers.repeat(0, 40, TaskId(0), Key(1));
    assert_eq!(timers.wait_timeout(10), Some(30));
    assert_eq!(timers.wait_timeout(50), Some(0));
}
