use portlight::{
    leak, Application, BorrowMutError, Delivery, DispatchError, Error, EventLoop, EventLoopMode,
    EventLoopOptions, FailureAction, Key, LoopControl, RawWindow, RunState, TaskSlot,
};

#[test]
fn leak_releases_everything() {
    assert_eq!(leak(), vec![0]);
}

#[test]
fn options_default_to_owner_and_build() {
    let mut options = EventLoopOptions::new();
    assert_eq!(options.mode, EventLoopMode::Owner);
    options.mode(EventLoopMode::Guest);
    let event_loop = options.build().unwrap();
    assert_eq!(event_loop.mode, EventLoopMode::Guest);
    assert_eq!(event_loop.control.state, RunState::Stopped);
}

#[test]
fn run_twice_is_already_running() {
    let mut event_loop = EventLoop::new().unwrap();
    assert_eq!(event_loop.run(), Ok(()));
    assert_eq!(event_loop.run(), Err(Error::AlreadyRunning));
    assert_eq!(event_loop.poll(), Err(Error::AlreadyRunning));
    assert_eq!(event_loop.finish(), Ok(()));
    assert_eq!(event_loop.poll(), Ok(()));
    assert_eq!(event_loop.finish(), Ok(()));
    assert_eq!(event_loop.control.state, RunState::Stopped);
}

#[test]
fn exit_outside_run_is_moot() {
    let mut event_loop = EventLoop::new().unwrap();
    event_loop.exit();
    assert_eq!(event_loop.control.state, RunState::Stopped);
    assert!(!event_loop.is_pumping());
}

#[test]
fn exit_inside_callback_stops_before_next_event() {
    // Five queued events; the callback of the third calls exit.
    let mut event_loop = EventLoop::new().unwrap();
    event_loop.run().unwrap();
    let mut taken = 0;
    for i in 0..5 {
        if !event_loop.is_pumping() {
            break;
        }
        taken += 1;
        if i == 2 {
            event_loop.exit();
        }
    }
    assert_eq!(taken, 3);
    assert_eq!(event_loop.control.state, RunState::Exiting);
    assert_eq!(event_loop.finish(), Ok(()));
    assert_eq!(event_loop.control.state, RunState::Stopped);
}

#[test]
fn latest_failure_is_reraised() {
    let mut event_loop = EventLoop::new().unwrap();
    event_loop.run().unwrap();
    assert_eq!(event_loop.capture_failure(7), FailureAction::Propagate);
    assert!(!event_loop.is_pumping());
    assert_eq!(event_loop.capture_failure(8), FailureAction::Propagate);
    assert_eq!(event_loop.finish(), Err(8));
    assert_eq!(event_loop.control.panic, None);
    // A later run starts clean.
    event_loop.run().unwrap();
    assert_eq!(event_loop.finish(), Ok(()));
}

#[test]
fn failure_while_stopped_aborts() {
    let mut control = LoopControl::new();
    assert_eq!(control.capture_failure(3), FailureAction::Abort);
    assert_eq!(control.panic, None);
    assert_eq!(control.state, RunState::Stopped);
}

#[test]
fn dropped_task_gets_no_deliveries() {
    let mut event_loop = EventLoop::new().unwrap();
    let task = event_loop.spawn();
    let id = task.id;
    let w = event_loop.open_window(10, None, id, Key(3), 20, 10, 96).unwrap();
    let d = event_loop.route_window(w).unwrap();
    assert_eq!(d, Delivery { task: id, key: Key(3) });
    event_loop.complete(d);
    event_loop.drop_task(task);
    assert_eq!(event_loop.tasks.slot(id), TaskSlot::Dropped);
    assert_eq!(event_loop.route_window(w), None);
    assert_eq!(event_loop.route_window(w), None);
    assert_eq!(event_loop.tasks.try_acquire(id), Err(DispatchError::Gone));
}

#[test]
fn task_dropped_during_its_own_dispatch() {
    let mut event_loop = EventLoop::new().unwrap();
    let task = event_loop.spawn();
    let id = task.id;
    let w = event_loop.open_window(10, None, id, Key(0), 20, 10, 96).unwrap();
    let d = event_loop.route_window(w).unwrap();
    event_loop.drop_task(task);
    assert_eq!(event_loop.tasks.slot(id), TaskSlot::DroppedWhileBorrowed);
    event_loop.complete(d);
    assert_eq!(event_loop.tasks.slot(id), TaskSlot::Dropped);
    assert_eq!(event_loop.route_window(w), None);
}

#[test]
fn dispatch_while_borrowed_is_dropped() {
    let mut event_loop = EventLoop::new().unwrap();
    let task = event_loop.spawn();
    let w = event_loop.open_window(10, None, task.id, Key(0), 20, 10, 96).unwrap();
    assert_eq!(task.try_with(&mut event_loop.tasks), Ok(()));
    assert_eq!(event_loop.route_window(w), None);
    assert_eq!(task.try_with(&mut event_loop.tasks), Err(BorrowMutError));
    event_loop.tasks.release(task.id);
    assert!(event_loop.route_window(w).is_some());
}

#[test]
fn closed_window_is_released_once() {
    let mut event_loop = EventLoop::new().unwrap();
    let class = event_loop.register();
    let task = event_loop.spawn();
    let w1 = event_loop.open_window(101, None, task.id, Key(1), 10, 10, 96).unwrap();
    let w2 = event_loop.open_window(102, None, task.id, Key(2), 10, 10, 96).unwrap();
    assert_eq!(class, 0);
    assert_eq!(event_loop.close_window(w1), Some(101));
    assert_eq!(event_loop.close_window(w1), None);
    assert_eq!(event_loop.windows[w1].inner.as_raw(), Err(Error::WindowClosed));
    assert_eq!(event_loop.windows[w2].inner.as_raw(), Ok(RawWindow::X11(102)));
    assert_eq!(event_loop.route_window(w1), None);
    let released = event_loop.teardown();
    // The window class (0) and the second window (2); the first window (1)
    // was released when it closed.
    assert_eq!(released, vec![2, 0]);
}

#[test]
fn frame_ticks_coalesce() {
    let mut event_loop = EventLoop::new().unwrap();
    let f = event_loop.add_display(5);
    assert!(event_loop.frame_tick(f));
    assert!(!event_loop.frame_tick(f));
    assert!(!event_loop.frame_tick(f));
    event_loop.frame_ack(f);
    assert!(event_loop.frame_tick(f));
    assert!(!event_loop.frame_tick(9));
}

#[test]
fn frame_targets_follow_current_display() {
    let mut event_loop = EventLoop::new().unwrap();
    let task = event_loop.spawn();
    let a = event_loop.open_window(1, None, task.id, Key(0), 10, 10, 96).unwrap();
    let b = event_loop.open_window(2, None, task.id, Key(1), 10, 10, 96).unwrap();
    let c = event_loop.open_window(3, None, task.id, Key(2), 10, 10, 96).unwrap();
    assert_eq!(event_loop.frame_targets(&vec![7, 8, 7], 7), vec![a, c]);
    // Window b moved to display 7, window c was closed.
    event_loop.close_window(c);
    assert_eq!(event_loop.frame_targets(&vec![7, 7, 7], 7), vec![a, b]);
}

#[test]
fn application_new_succeeds() {
    assert!(Application::new().is_ok());
}

#[test]
fn error_messages() {
    assert_eq!(Error::AlreadyRunning.message(), "event loop is already running");
    assert_eq!(Error::WindowClosed.message(), "window has been closed");
}

#[test]
fn teardown_inside_handler_is_refused() {
    let mut event_loop = EventLoop::new().unwrap();
    event_loop.register();
    event_loop.run().unwrap();
    let (error, mut event_loop) = match event_loop.try_teardown() {
        Err(pair) => pair,
        Ok(_) => panic!("teardown while running"),
    };
    assert_eq!(error, Error::InsideEventHandler);
    assert_eq!(event_loop.finish(), Ok(()));
    assert_eq!(event_loop.try_teardown().ok(), Some(vec![0]));
}

#[test]
fn with_block_borrows_then_releases() {
    let mut event_loop = EventLoop::new().unwrap();
    let task = event_loop.spawn();
    task.with(&mut event_loop.tasks);
    assert_eq!(event_loop.tasks.slot(task.id), TaskSlot::Borrowed);
    event_loop.tasks.release(task.id);
    assert_eq!(event_loop.tasks.slot(task.id), TaskSlot::Idle);
}

#[test]
fn teardown_stops_refresh_signals_first() {
    let mut event_loop = EventLoop::new().unwrap();
    let class = event_loop.register();
    let display = event_loop.add_display(3);
    let task = event_loop.spawn();
    let w = event_loop.open_window(9, None, task.id, Key(0), 10, 10, 96).unwrap();
    assert_eq!((class, display, event_loop.frames[display].reg, event_loop.windows[w].reg), (0, 0, 1, 2));
    assert_eq!(event_loop.teardown(), vec![1, 2, 0]);
}

#[test]
fn dpi_awareness_only_for_owner() {
    let event_loop = EventLoop::new().unwrap();
    assert!(event_loop.wants_dpi_awareness());
    let mut options = EventLoopOptions::new();
    options.mode(EventLoopMode::Guest);
    assert!(!options.build().unwrap().wants_dpi_awareness());
}

#[test]
fn windows_report_platform_handles() {
    let mut event_loop = EventLoop::new().unwrap();
    let task = event_loop.spawn();
    let w = event_loop.open_window(77, None, task.id, Key(0), 10, 10, 96).unwrap();
    assert_eq!(event_loop.windows[w].inner.as_raw(), Ok(RawWindow::X11(77)));
}
