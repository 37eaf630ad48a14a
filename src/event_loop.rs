use vstd::prelude::*;

use crate::control::{FailureAction, LoopControl, RunState};
use crate::error::Error;
use crate::frame::FrameSignal;
use crate::task::{
    drop_spec, release_spec, resolve_spec, slot_of, DispatchError, Key, TaskHandle, TaskId,
    TaskRegistry, TaskSlot,
};
use crate::input::{pressed_after, ButtonAction};
use crate::timer::{due_fired, next_due, poll_spec, Fired, TimerEntry, TimerId, Timers};
use crate::window::{
    expose_step, parent_handle, parent_handle_spec, physical_extent, physical_extent_spec,
    DamageRect, Platform, RawWindow, WindowInner,
};

verus! {

/// Whether the loop owns the process's event pump or runs inside a host's.
#[derive(Clone, Copy, Debug, PartialEq, Eq, Structural)]
pub enum EventLoopMode {
    Owner,
    Guest,
}

#[derive(Clone, Copy, Debug, PartialEq, Eq, Structural)]
pub struct EventLoopOptions {
    pub mode: EventLoopMode,
    pub platform: Platform,
}

impl EventLoopOptions {
    /// Options of a loop that owns the event pump, on the socket-protocol
    /// platform unless `platform` says otherwise.
    pub fn new() -> (r: EventLoopOptions)
        ensures
            r.mode == EventLoopMode::Owner,
            r.platform == Platform::X11,
    {
        EventLoopOptions { mode: EventLoopMode::Owner, platform: Platform::X11 }
    }

    pub fn mode(&mut self, mode: EventLoopMode) -> (r: &mut EventLoopOptions)
        ensures
            *r == (EventLoopOptions { mode, platform: old(self).platform }),
            *final(self) == *final(r),
    {
        self.mode = mode;
        self
    }

    /// The platform whose native handles the loop's windows carry.
    pub fn platform(&mut self, platform: Platform) -> (r: &mut EventLoopOptions)
        ensures
            *r == (EventLoopOptions { mode: old(self).mode, platform }),
            *final(self) == *final(r),
    {
        self.platform = platform;
        self
    }

    /// Builds the loop's bookkeeping: stopped, with nothing registered.
    pub fn build(&self) -> (r: Result<EventLoop, Error>)
        ensures
            r matches Ok(l) && l.wf() && l.mode == self.mode && l.platform == self.platform
                && l.control.state == RunState::Stopped
                && l.control.panic.is_none() && l.tasks@.len() == 0 && l.timers@.len() == 0
                && l.windows@.len() == 0 && l.regs@.len() == 0 && l.frames@.len() == 0
                && l.released@.len() == 0,
    {
        Ok(
            EventLoop {
                mode: self.mode,
                platform: self.platform,
                control: LoopControl::new(),
                tasks: TaskRegistry::new(),
                timers: Timers::new(),
                windows: Vec::new(),
                regs: Vec::new(),
                frames: Vec::new(),
                released: Ghost(Seq::empty()),
            },
        )
    }
}

/// A delivery to make: the task to call and the key to tag the event with.
/// The task stays exclusively borrowed until `EventLoop::complete`.
#[derive(Clone, Copy, Debug, PartialEq, Eq, Structural)]
pub struct Delivery {
    pub task: TaskId,
    pub key: Key,
}

/// What to do for a paint request: the `Expose` delivery, if any, with the
/// rectangles it carries, and whether the update region is to be validated.
pub struct PaintRequest {
    pub delivery: Option<Delivery>,
    pub rects: Vec<DamageRect>,
    pub validate: bool,
}

/// A window slot: its bookkeeping and the native registration it holds.
pub struct WindowEntry {
    pub inner: WindowInner,
    pub reg: usize,
}

/// The state of one event loop: run state and panic cell, tasks, timers,
/// windows, refresh signals, and every native registration with whether it
/// is still live.
pub struct EventLoop {
    pub mode: EventLoopMode,
    pub platform: Platform,
    pub control: LoopControl,
    pub tasks: TaskRegistry,
    pub timers: Timers,
    pub windows: Vec<WindowEntry>,
    pub regs: Vec<bool>,
    pub frames: Vec<FrameSignal>,
    /// The registrations released so far, in order.
    pub released: Ghost<Seq<usize>>,
}

/// The registrations still live, from the newest to the oldest.
pub open spec fn live_desc(regs: Seq<bool>) -> Seq<usize>
    decreases regs.len(),
{
    if regs.len() == 0 {
        Seq::empty()
    } else {
        let rest = live_desc(regs.drop_last());
        if regs.last() {
            seq![(regs.len() - 1) as usize] + rest
        } else {
            rest
        }
    }
}

/// The windows `0..n` that a tick of `display` reaches.
pub open spec fn frame_targets_spec(
    windows: Seq<WindowEntry>,
    current: Seq<u64>,
    display: u64,
    n: int,
) -> Seq<usize>
    decreases n,
{
    if n <= 0 {
        Seq::empty()
    } else {
        let rest = frame_targets_spec(windows, current, display, n - 1);
        if windows[n - 1].inner.native.is_some() && current[n - 1] == display {
            rest.push((n - 1) as usize)
        } else {
            rest
        }
    }
}

/// The registrations and the release log after releasing `reg`: a live
/// registration is marked released and logged; anything else stays as is.
pub open spec fn release_once(regs: Seq<bool>, released: Seq<usize>, reg: usize) -> (
    Seq<bool>,
    Seq<usize>,
) {
    if reg < regs.len() && regs[reg as int] {
        (regs.update(reg as int, false), released.push(reg))
    } else {
        (regs, released)
    }
}

/// Whether `x` is the registration of one of the refresh signals.
pub open spec fn is_signal_reg(frames: Seq<FrameSignal>, x: usize) -> bool {
    exists|g: int| 0 <= g < frames.len() && frames[g].reg == x
}

/// What tearing a loop down hands back: every registration not released
/// before, each once, the refresh signals' before all others.
pub open spec fn teardown_spec(l: EventLoop, r: Seq<usize>) -> bool {
    &&& (l.released@ + r).no_duplicates()
    &&& forall|x: usize| x < l.regs@.len() ==> #[trigger] (l.released@ + r).contains(x)
    &&& forall|k: int| 0 <= k < r.len() ==> r[k] < l.regs@.len()
    &&& forall|a: int, b: int|
        0 <= a < b < r.len() && is_signal_reg(l.frames@, #[trigger] r[b]) ==> is_signal_reg(
            l.frames@,
            #[trigger] r[a],
        )
}

/// Each registration is released at most once, and a registration is
/// released exactly when it is no longer live.
pub open spec fn release_log_ok(regs: Seq<bool>, released: Seq<usize>) -> bool {
    &&& released.no_duplicates()
    &&& forall|k: int| 0 <= k < released.len() ==> released[k] < regs.len()
    &&& forall|i: int| 0 <= i < regs.len() ==> (!regs[i] <==> released.contains(i as usize))
}

/// Two states of a loop that differ at most in run state and panic cell.
pub open spec fn same_resources(a: EventLoop, b: EventLoop) -> bool {
    &&& a.mode == b.mode
    &&& a.platform == b.platform
    &&& a.tasks@ == b.tasks@
    &&& a.timers@ == b.timers@
    &&& a.timers.next_id() == b.timers.next_id()
    &&& a.windows@ == b.windows@
    &&& a.frames@ == b.frames@
    &&& a.regs@ == b.regs@
    &&& a.released@ == b.released@
}

impl EventLoop {
    pub open spec fn wf(&self) -> bool {
        &&& self.control.wf()
        &&& self.timers.wf()
        &&& release_log_ok(self.regs@, self.released@)
        &&& forall|i: int| 0 <= i < self.windows@.len() ==> (#[trigger] self.windows@[i]).inner.wf()
    }

    pub fn new() -> (r: Result<EventLoop, Error>)
        ensures
            r matches Ok(l) && l.wf() && l.mode == EventLoopMode::Owner && l.control.state
                == RunState::Stopped && l.control.panic.is_none() && l.tasks@.len() == 0
                && l.timers@.len() == 0 && l.windows@.len() == 0 && l.regs@.len() == 0
                && l.frames@.len() == 0 && l.released@.len() == 0,
    {
        EventLoopOptions::new().build()
    }

    /// Records a native registration of the loop itself (a window class, a
    /// message window, a refresh thread) and returns its index.
    pub fn register(&mut self) -> (r: usize)
        requires
            old(self).wf(),
            old(self).regs@.len() < usize::MAX,
        ensures
            final(self).wf(),
            r == old(self).regs@.len(),
            final(self).regs@ == old(self).regs@.push(true),
            final(self).released@ == old(self).released@,
            final(self).windows@ == old(self).windows@,
            final(self).tasks@ == old(self).tasks@,
            final(self).timers@ == old(self).timers@,
            final(self).frames@ == old(self).frames@,
            final(self).control == old(self).control,
            final(self).platform == old(self).platform,
            final(self).mode == old(self).mode,
    {
        let r = self.regs.len();
        self.regs.push(true);
        proof {
            let regs = self.regs@;
            let rel = self.released@;
            assert forall|i: int| 0 <= i < regs.len() implies (!regs[i] <==> rel.contains(
                i as usize,
            )) by {
                if i == r {
                    assert(!rel.contains(r)) by {
                        if rel.contains(r) {
                            let k = choose|k: int| 0 <= k < rel.len() && rel[k] == r;
                        }
                    }
                }
            }
        }
        r
    }

    /// Entry of `run`: the reentrancy guard. While it is held the caller
    /// pumps native events, checking `is_pumping` before each, and ends with
    /// `finish`. A run starts with an empty panic cell.
    pub fn run(&mut self) -> (r: Result<(), Error>)
        requires
            old(self).wf(),
        ensures
            final(self).wf(),
            same_resources(*final(self), *old(self)),
            old(self).control.state == RunState::Stopped ==> r.is_ok() && final(self).control.state
                == RunState::Running && final(self).control.panic.is_none(),
            old(self).control.state != RunState::Stopped ==> r == Err::<(), Error>(
                Error::AlreadyRunning,
            ) && final(self).control == old(self).control,
    {
        self.control.begin()
    }

    /// Entry of `poll`: the same guard as `run`; the caller drains what is
    /// queued without blocking, then calls `finish`.
    pub fn poll(&mut self) -> (r: Result<(), Error>)
        requires
            old(self).wf(),
        ensures
            final(self).wf(),
            same_resources(*final(self), *old(self)),
            old(self).control.state == RunState::Stopped ==> r.is_ok() && final(self).control.state
                == RunState::Running && final(self).control.panic.is_none(),
            old(self).control.state != RunState::Stopped ==> r == Err::<(), Error>(
                Error::AlreadyRunning,
            ) && final(self).control == old(self).control,
    {
        self.control.begin()
    }

    /// Asks the running loop to return before it takes another native event;
    /// moot when the loop is not running.
    pub fn exit(&mut self)
        requires
            old(self).wf(),
        ensures
            final(self).wf(),
            same_resources(*final(self), *old(self)),
            final(self).control.state == crate::control::exit_spec(old(self).control.state),
            final(self).control.panic == old(self).control.panic,
    {
        self.control.exit();
    }

    pub fn is_pumping(&self) -> (r: bool)
        ensures
            r == (self.control.state == RunState::Running),
    {
        self.control.is_pumping()
    }

    /// A callback failed with the given failure token: while a driving call
    /// owns the loop the failure replaces whatever the panic cell held and
    /// the loop stops; otherwise the process must abort.
    pub fn capture_failure(&mut self, failure: u64) -> (r: FailureAction)
        requires
            old(self).wf(),
        ensures
            final(self).wf(),
            same_resources(*final(self), *old(self)),
            old(self).control.state == RunState::Stopped ==> r == FailureAction::Abort
                && final(self).control == old(self).control,
            old(self).control.state != RunState::Stopped ==> r == FailureAction::Propagate
                && final(self).control.state == RunState::Exiting && final(self).control.panic
                == Some(failure),
    {
        self.control.capture_failure(failure)
    }

    /// Leaves `run` or `poll`: the guard is released whatever happened, and a
    /// captured failure comes back to be re-raised.
    pub fn finish(&mut self) -> (r: Result<(), u64>)
        requires
            old(self).wf(),
        ensures
            final(self).wf(),
            same_resources(*final(self), *old(self)),
            final(self).control.state == RunState::Stopped,
            final(self).control.panic.is_none(),
            r == (match old(self).control.panic {
                Some(p) => Err(p),
                None => Ok(()),
            }),
    {
        self.control.finish()
    }

    /// Whether the platform must be told that this process handles display
    /// scaling itself: only a loop that owns the process's event pump does so.
    pub fn wants_dpi_awareness(&self) -> (r: bool)
        ensures
            r == (self.mode == EventLoopMode::Owner),
    {
        match self.mode {
            EventLoopMode::Owner => true,
            EventLoopMode::Guest => false,
        }
    }

    /// Spawns a task and hands back its sole strong handle.
    pub fn spawn(&mut self) -> (r: TaskHandle)
        requires
            old(self).wf(),
            old(self).tasks@.len() < usize::MAX,
        ensures
            final(self).wf(),
            r.id.0 == old(self).tasks@.len(),
            final(self).tasks@ == old(self).tasks@.push(TaskSlot::Idle),
            final(self).regs@ == old(self).regs@,
            final(self).released@ == old(self).released@,
            final(self).windows@ == old(self).windows@,
            final(self).frames@ == old(self).frames@,
            final(self).platform == old(self).platform,
    {
        TaskHandle::spawn(&mut self.tasks)
    }

    /// Opens the bookkeeping of a native window of logical size `width` by
    /// `height` at `dpi`, routed to `task` under `key`, embedded in `parent`
    /// if one is given; its surface is allocated at the physical size.
    /// Returns the window's index, or `InvalidWindowHandle`, with nothing
    /// changed, when the parent belongs to another platform.
    pub fn open_window(
        &mut self,
        native: u64,
        parent: Option<RawWindow>,
        task: TaskId,
        key: Key,
        width: u32,
        height: u32,
        dpi: u32,
    ) -> (r: Result<usize, Error>)
        requires
            old(self).wf(),
            old(self).regs@.len() < usize::MAX,
            physical_extent_spec(width, dpi) <= usize::MAX,
            physical_extent_spec(height, dpi) <= usize::MAX,
            physical_extent_spec(width, dpi) * physical_extent_spec(height, dpi) <= usize::MAX,
        ensures
            final(self).wf(),
            r.is_err() == parent_handle_spec(old(self).platform, parent).is_err(),
            r.is_err() ==> r == Err::<usize, Error>(Error::InvalidWindowHandle) && same_resources(
                *final(self),
                *old(self),
            ) && final(self).control == old(self).control,
            r matches Ok(w) ==> {
                let e = final(self).windows@[w as int].inner;
                &&& w == old(self).windows@.len()
                &&& final(self).windows@.len() == old(self).windows@.len() + 1
                &&& forall|i: int| 0 <= i < w ==> final(self).windows@[i] == old(self).windows@[i]
                &&& final(self).windows@[w as int].reg == old(self).regs@.len()
                &&& e.platform == old(self).platform
                &&& e.native == Some(native)
                &&& parent_handle_spec(old(self).platform, parent) == Ok::<Option<u64>, Error>(
                    e.parent,
                )
                &&& e.task == task
                &&& e.key == key
                &&& e.surface.spec_width() == physical_extent_spec(width, dpi)
                &&& e.surface.spec_height() == physical_extent_spec(height, dpi)
                &&& final(self).regs@ == old(self).regs@.push(true)
                &&& final(self).released@ == old(self).released@
                &&& final(self).tasks@ == old(self).tasks@
                &&& final(self).frames@ == old(self).frames@
                &&& final(self).control == old(self).control
            },
    {
        let parent_native = match parent_handle(self.platform, parent) {
            Ok(p) => p,
            Err(e) => {
                return Err(e);
            },
        };
        let pw = physical_extent(width, dpi);
        let ph = physical_extent(height, dpi);
        let reg = self.register();
        let inner = WindowInner::open(
            self.platform,
            native,
            parent_native,
            task,
            key,
            pw as usize,
            ph as usize,
        );
        let r = self.windows.len();
        self.windows.push(WindowEntry { inner, reg });
        Ok(r)
    }

    /// Whether window `w` is still open.
    pub fn window_is_open(&self, w: usize) -> (r: bool)
        ensures
            r == (w < self.windows@.len() && self.windows@[w as int].inner.native.is_some()),
    {
        w < self.windows.len() && self.windows[w].inner.native.is_some()
    }

    /// Closes window `w`: its native registration is released and the native
    /// handle handed back to be destroyed, the first time only. Delivery to
    /// the window stops at once.
    pub fn close_window(&mut self, w: usize) -> (r: Option<u64>)
        requires
            old(self).wf(),
        ensures
            final(self).wf(),
            w >= old(self).windows@.len() ==> r.is_none() && final(self).regs@ == old(self).regs@
                && final(self).released@ == old(self).released@,
            w < old(self).windows@.len() ==> {
                let e = old(self).windows@[w as int];
                &&& r == e.inner.native
                &&& final(self).windows@[w as int].inner.native.is_none()
                &&& final(self).windows@[w as int].reg == e.reg
                &&& (final(self).regs@, final(self).released@) == release_once(
                    old(self).regs@,
                    old(self).released@,
                    e.reg,
                )
            },
            final(self).windows@.len() == old(self).windows@.len(),
            forall|i: int|
                0 <= i < old(self).windows@.len() && i != w ==> final(self).windows@[i]
                    == old(self).windows@[i],
            final(self).tasks@ == old(self).tasks@,
            final(self).control == old(self).control,
    {
        if w >= self.windows.len() {
            return None;
        }
        let reg = self.windows[w].reg;
        self.release_registration(reg);
        let r = self.windows[w].inner.close();
        r
    }

    /// Marks a registration released, once.
    fn release_registration(&mut self, reg: usize)
        requires
            old(self).wf(),
        ensures
            final(self).wf(),
            (final(self).regs@, final(self).released@) == release_once(
                old(self).regs@,
                old(self).released@,
                reg,
            ),
            final(self).windows@ == old(self).windows@,
            final(self).tasks@ == old(self).tasks@,
            final(self).control == old(self).control,
            final(self).timers@ == old(self).timers@,
            final(self).frames@ == old(self).frames@,
    {
        if reg < self.regs.len() && self.regs[reg] {
            let ghost old_rel = self.released@;
            self.regs.set(reg, false);
            self.released = Ghost(self.released@.push(reg));
            proof {
                let regs = self.regs@;
                let rel = self.released@;
                assert(!old_rel.contains(reg));
                assert forall|a: int, b: int| 0 <= a < b < rel.len() implies rel[a] != rel[b] by {
                    if b == rel.len() - 1 {
                        assert(old_rel[a] == rel[a]);
                    } else {
                        assert(old_rel[a] == rel[a] && old_rel[b] == rel[b]);
                    }
                }
                assert forall|i: int| 0 <= i < regs.len() implies (!regs[i] <==> rel.contains(
                    i as usize,
                )) by {
                    if i != reg {
                        if rel.contains(i as usize) {
                            let k = choose|k: int| 0 <= k < rel.len() && rel[k] == i as usize;
                            assert(k < old_rel.len());
                            assert(old_rel[k] == i as usize);
                        }
                        if old_rel.contains(i as usize) {
                            let k = choose|k: int| 0 <= k < old_rel.len() && old_rel[k] == i as usize;
                            assert(rel[k] == i as usize);
                        }
                    } else {
                        assert(rel[rel.len() - 1] == reg);
                    }
                }
            }
        }
    }


    /// The pointer moved over window `w`; returns whether it just entered,
    /// so that `MouseEnter` precedes the move.
    pub fn pointer_moved(&mut self, w: usize) -> (r: bool)
        requires
            old(self).wf(),
        ensures
            final(self).wf(),
            w < old(self).windows@.len() ==> r == !old(self).windows@[w as int].inner.mouse_in_window
                && final(self).windows@[w as int].inner.mouse_in_window,
            w >= old(self).windows@.len() ==> !r,
            final(self).windows@.len() == old(self).windows@.len(),
            forall|i: int|
                0 <= i < old(self).windows@.len() && i != w ==> final(self).windows@[i]
                    == old(self).windows@[i],
            final(self).regs@ == old(self).regs@,
            final(self).tasks@ == old(self).tasks@,
    {
        if w >= self.windows.len() {
            return false;
        }
        let entered = !self.windows[w].inner.mouse_in_window;
        self.windows[w].inner.mouse_in_window = true;
        entered
    }

    /// The pointer left window `w`.
    pub fn pointer_left(&mut self, w: usize)
        requires
            old(self).wf(),
        ensures
            final(self).wf(),
            w < old(self).windows@.len() ==> !final(self).windows@[w as int].inner.mouse_in_window,
            final(self).windows@.len() == old(self).windows@.len(),
            forall|i: int|
                0 <= i < old(self).windows@.len() && i != w ==> final(self).windows@[i]
                    == old(self).windows@[i],
            final(self).regs@ == old(self).regs@,
            final(self).tasks@ == old(self).tasks@,
    {
        if w < self.windows.len() {
            self.windows[w].inner.mouse_in_window = false;
        }
    }

    /// A button went down or up over window `w`; returns whether native
    /// pointer capture must be taken (first press) or given back (last
    /// release).
    pub fn button(&mut self, w: usize, action: ButtonAction) -> (r: bool)
        requires
            old(self).wf(),
        ensures
            final(self).wf(),
            w < old(self).windows@.len() && action == ButtonAction::Down ==> r == (
            old(self).windows@[w as int].inner.capture.pressed == 0),
            w < old(self).windows@.len() && action == ButtonAction::Up ==> r == (
            old(self).windows@[w as int].inner.capture.pressed == 1),
            w < old(self).windows@.len() ==> final(self).windows@[w as int].inner.capture.pressed
                == pressed_after(old(self).windows@[w as int].inner.capture.pressed, action),
            w >= old(self).windows@.len() ==> !r,
            final(self).windows@.len() == old(self).windows@.len(),
            forall|i: int|
                0 <= i < old(self).windows@.len() && i != w ==> final(self).windows@[i]
                    == old(self).windows@[i],
            final(self).regs@ == old(self).regs@,
            final(self).tasks@ == old(self).tasks@,
    {
        if w >= self.windows.len() {
            return false;
        }
        match action {
            ButtonAction::Down => self.windows[w].inner.capture.press(),
            ButtonAction::Up => self.windows[w].inner.capture.release(),
        }
    }

    /// A damage notification for window `w`; hands back the whole batch when
    /// this one closes it, for a single `Expose`.
    pub fn damage(&mut self, w: usize, rect: DamageRect, last: bool) -> (r: Option<
        Vec<DamageRect>,
    >)
        requires
            old(self).wf(),
        ensures
            final(self).wf(),
            w < old(self).windows@.len() ==> {
                let step = expose_step(old(self).windows@[w as int].inner.expose@, rect, last);
                &&& final(self).windows@[w as int].inner.expose@ == step.1
                &&& r.is_some() == step.0.is_some()
                &&& r matches Some(v) ==> step.0 == Some(v@)
            },
            w >= old(self).windows@.len() ==> r.is_none(),
            final(self).windows@.len() == old(self).windows@.len(),
            forall|i: int|
                0 <= i < old(self).windows@.len() && i != w ==> final(self).windows@[i]
                    == old(self).windows@[i],
            final(self).regs@ == old(self).regs@,
            final(self).tasks@ == old(self).tasks@,
    {
        if w >= self.windows.len() {
            return None;
        }
        self.windows[w].inner.expose.push(rect, last)
    }

    /// A paint request for window `w` with its whole update region: the
    /// region goes to the task as one `Expose` carrying every rectangle, and
    /// the region is to be validated exactly when that delivery happens, so
    /// an undelivered paint comes again.
    pub fn paint(&mut self, w: usize, region: Vec<DamageRect>) -> (r: PaintRequest)
        requires
            old(self).wf(),
        ensures
            final(self).wf(),
            r.delivery.is_some() == (w < old(self).windows@.len()
                && old(self).windows@[w as int].inner.native.is_some()
                && slot_of(old(self).tasks@, old(self).windows@[w as int].inner.task)
                == TaskSlot::Idle),
            r.delivery matches Some(d) ==> d == (Delivery {
                task: old(self).windows@[w as int].inner.task,
                key: old(self).windows@[w as int].inner.key,
            }) && final(self).tasks@ == old(self).tasks@.update(d.task.0 as int, TaskSlot::Borrowed),
            r.delivery.is_none() ==> final(self).tasks@ == old(self).tasks@,
            r.rects@ == region@,
            r.validate == r.delivery.is_some(),
            final(self).windows@ == old(self).windows@,
            final(self).regs@ == old(self).regs@,
            final(self).released@ == old(self).released@,
            final(self).timers@ == old(self).timers@,
            final(self).control == old(self).control,
    {
        let delivery = self.route_window(w);
        let validate = delivery.is_some();
        PaintRequest { delivery, rects: region, validate }
    }

    /// Routes an event of window `w` to its task: the window must still be
    /// open and its task alive and not borrowed; otherwise the event is
    /// dropped for this one occurrence. On success the task is borrowed
    /// until `complete`.
    pub fn route_window(&mut self, w: usize) -> (r: Option<Delivery>)
        requires
            old(self).wf(),
        ensures
            final(self).wf(),
            r.is_some() == (w < old(self).windows@.len()
                && old(self).windows@[w as int].inner.native.is_some()
                && slot_of(old(self).tasks@, old(self).windows@[w as int].inner.task)
                == TaskSlot::Idle),
            r matches Some(d) ==> d == (Delivery {
                task: old(self).windows@[w as int].inner.task,
                key: old(self).windows@[w as int].inner.key,
            }) && final(self).tasks@ == old(self).tasks@.update(d.task.0 as int, TaskSlot::Borrowed),
            r.is_none() ==> final(self).tasks@ == old(self).tasks@,
            final(self).windows@ == old(self).windows@,
            final(self).regs@ == old(self).regs@,
            final(self).released@ == old(self).released@,
            final(self).timers@ == old(self).timers@,
            final(self).control == old(self).control,
    {
        if w >= self.windows.len() || self.windows[w].inner.native.is_none() {
            return None;
        }
        let task = self.windows[w].inner.task;
        let key = self.windows[w].inner.key;
        match self.tasks.try_acquire(task) {
            Ok(()) => Some(Delivery { task, key }),
            Err(_) => None,
        }
    }

    /// Routes a timer firing to its task: the timer must not have been
    /// canceled meanwhile and the task must be alive and not borrowed.
    pub fn route_timer(&mut self, fired: Fired) -> (r: Option<Delivery>)
        requires
            old(self).wf(),
        ensures
            final(self).wf(),
            r.is_some() == ((exists|i: int|
                0 <= i < old(self).timers@.len() && old(self).timers@[i].id == fired.id)
                && slot_of(old(self).tasks@, fired.task) == TaskSlot::Idle),
            r matches Some(d) ==> d == (Delivery { task: fired.task, key: fired.key })
                && final(self).tasks@ == old(self).tasks@.update(d.task.0 as int, TaskSlot::Borrowed),
            r.is_none() ==> final(self).tasks@ == old(self).tasks@,
            final(self).windows@ == old(self).windows@,
            final(self).regs@ == old(self).regs@,
            final(self).timers@ == old(self).timers@,
            final(self).control == old(self).control,
    {
        if !self.timers.is_active(fired.id) {
            return None;
        }
        match self.tasks.try_acquire(fired.task) {
            Ok(()) => Some(Delivery { task: fired.task, key: fired.key }),
            Err(_) => None,
        }
    }

    /// The task's callback for a delivery has returned: its borrow ends.
    pub fn complete(&mut self, d: Delivery)
        requires
            old(self).wf(),
        ensures
            final(self).wf(),
            d.task.0 < old(self).tasks@.len() ==> final(self).tasks@ == old(self).tasks@.update(
                d.task.0 as int,
                release_spec(old(self).tasks@[d.task.0 as int]),
            ),
            d.task.0 >= old(self).tasks@.len() ==> final(self).tasks@ == old(self).tasks@,
            final(self).windows@ == old(self).windows@,
            final(self).regs@ == old(self).regs@,
            final(self).timers@ == old(self).timers@,
            final(self).control == old(self).control,
    {
        self.tasks.release(d.task);
    }

    /// Drops a task's handle: windows and timers routed to it stay, and every
    /// later delivery to it is silently dropped.
    pub fn drop_task(&mut self, handle: TaskHandle)
        requires
            old(self).wf(),
        ensures
            final(self).wf(),
            handle.id.0 < old(self).tasks@.len() ==> final(self).tasks@ == old(self).tasks@.update(
                handle.id.0 as int,
                drop_spec(old(self).tasks@[handle.id.0 as int]),
            ),
            handle.id.0 >= old(self).tasks@.len() ==> final(self).tasks@ == old(self).tasks@,
            final(self).windows@ == old(self).windows@,
            final(self).regs@ == old(self).regs@,
            final(self).released@ == old(self).released@,
            final(self).frames@ == old(self).frames@,
            final(self).timers@ == old(self).timers@,
            final(self).control == old(self).control,
    {
        handle.drop_handle(&mut self.tasks);
    }

    /// Schedules a repeating timer routed to `task` under `key`.
    pub fn repeat_timer(&mut self, now: u64, period: u64, task: TaskId, key: Key) -> (r: TimerId)
        requires
            old(self).wf(),
            old(self).timers.next_id() < usize::MAX,
        ensures
            final(self).wf(),
            r == TimerId(old(self).timers.next_id()),
            final(self).timers@ == old(self).timers@.push(
                TimerEntry { id: r, due: next_due(now, period, 0), period, task, key },
            ),
            final(self).windows@ == old(self).windows@,
            final(self).regs@ == old(self).regs@,
            final(self).tasks@ == old(self).tasks@,
            final(self).control == old(self).control,
    {
        self.timers.repeat(now, period, task, key)
    }

    /// Cancels a timer; harmless when already canceled, also from inside the
    /// timer's own callback.
    pub fn cancel_timer(&mut self, id: TimerId)
        requires
            old(self).wf(),
        ensures
            final(self).wf(),
            forall|i: int|
                0 <= i < old(self).timers@.len() && old(self).timers@[i].id == id ==> final(self).timers@
                    == old(self).timers@.remove(i),
            (forall|i: int| 0 <= i < old(self).timers@.len() ==> old(self).timers@[i].id != id)
                ==> final(self).timers@ == old(self).timers@,
            final(self).windows@ == old(self).windows@,
            final(self).regs@ == old(self).regs@,
            final(self).tasks@ == old(self).tasks@,
            final(self).control == old(self).control,
    {
        self.timers.cancel(id);
    }

    /// One timer pass at `now`: the firings to route, once each.
    pub fn poll_timers(&mut self, now: u64) -> (r: Vec<Fired>)
        requires
            old(self).wf(),
        ensures
            final(self).wf(),
            final(self).timers@ == poll_spec(old(self).timers@, now),
            r@ == due_fired(old(self).timers@, now),
            final(self).windows@ == old(self).windows@,
            final(self).regs@ == old(self).regs@,
            final(self).tasks@ == old(self).tasks@,
            final(self).control == old(self).control,
    {
        self.timers.poll(now)
    }

    /// Starts the refresh signal of a display; its thread or link is a native
    /// registration of the loop. Returns the signal's index.
    pub fn add_display(&mut self, display: u64) -> (r: usize)
        requires
            old(self).wf(),
            old(self).regs@.len() < usize::MAX,
        ensures
            final(self).wf(),
            r == old(self).frames@.len(),
            final(self).frames@ == old(self).frames@.push(
                FrameSignal { display, reg: old(self).regs@.len() as usize, pending: false },
            ),
            final(self).regs@ == old(self).regs@.push(true),
            final(self).windows@ == old(self).windows@,
            final(self).tasks@ == old(self).tasks@,
    {
        let reg = self.register();
        let r = self.frames.len();
        self.frames.push(FrameSignal::new(display, reg));
        r
    }

    /// A native refresh tick of signal `f`: whether it is handed on to the
    /// dispatch thread or dropped because the previous one is outstanding.
    pub fn frame_tick(&mut self, f: usize) -> (r: bool)
        requires
            old(self).wf(),
        ensures
            final(self).wf(),
            f < old(self).frames@.len() ==> r == !old(self).frames@[f as int].pending
                && final(self).frames@ == old(self).frames@.update(
                f as int,
                FrameSignal { pending: true, ..old(self).frames@[f as int] },
            ),
            f >= old(self).frames@.len() ==> !r && final(self).frames@ == old(self).frames@,
            final(self).windows@ == old(self).windows@,
            final(self).regs@ == old(self).regs@,
            final(self).tasks@ == old(self).tasks@,
    {
        if f >= self.frames.len() {
            return false;
        }
        let mut s = self.frames[f];
        let r = s.tick();
        self.frames.set(f, s);
        r
    }

    /// The dispatch thread has delivered the tick of signal `f`.
    pub fn frame_ack(&mut self, f: usize)
        requires
            old(self).wf(),
        ensures
            final(self).wf(),
            f < old(self).frames@.len() ==> final(self).frames@ == old(self).frames@.update(
                f as int,
                FrameSignal { pending: false, ..old(self).frames@[f as int] },
            ),
            f >= old(self).frames@.len() ==> final(self).frames@ == old(self).frames@,
            final(self).windows@ == old(self).windows@,
            final(self).regs@ == old(self).regs@,
            final(self).tasks@ == old(self).tasks@,
    {
        if f < self.frames.len() {
            let mut s = self.frames[f];
            s.acknowledge();
            self.frames.set(f, s);
        }
    }

    /// The open windows that a refresh tick of `display` goes to, given the
    /// display each window is on now (`current[i]` for window `i`), in window
    /// order.
    pub fn frame_targets(&self, current: &Vec<u64>, display: u64) -> (r: Vec<usize>)
        requires
            current@.len() == self.windows@.len(),
        ensures
            r@ == frame_targets_spec(self.windows@, current@, display, self.windows@.len() as int),
    {
        let mut r: Vec<usize> = Vec::new();
        let mut i: usize = 0;
        while i < self.windows.len()
            invariant
                i <= self.windows@.len(),
                current@.len() == self.windows@.len(),
                r@ == frame_targets_spec(self.windows@, current@, display, i as int),
            decreases self.windows@.len() - i,
        {
            if self.windows[i].inner.native.is_some() && current[i] == display {
                r.push(i);
            }
            i = i + 1;
        }
        r
    }

    /// Tears the loop down unless a driving call still owns it (teardown
    /// from inside an event handler): then the loop comes back unchanged with
    /// `InsideEventHandler`.
    pub fn try_teardown(self) -> (r: Result<Vec<usize>, (Error, EventLoop)>)
        requires
            self.wf(),
        ensures
            r.is_ok() == (self.control.state == RunState::Stopped),
            r matches Ok(v) ==> teardown_spec(self, v@),
            r matches Err((e, l)) ==> e == Error::InsideEventHandler && l == self,
    {
        if self.control.state != RunState::Stopped {
            return Err((Error::InsideEventHandler, self));
        }
        Ok(self.teardown())
    }

    /// The registrations still live, newest first.
    fn live_registrations(&self) -> (r: Vec<usize>)
        ensures
            r@ == live_desc(self.regs@),
    {
        let mut r: Vec<usize> = Vec::new();
        let mut i: usize = self.regs.len();
        assert(self.regs@.subrange(0, i as int) == self.regs@);
        assert(r@ + live_desc(self.regs@) == live_desc(self.regs@));
        while i > 0
            invariant
                i <= self.regs@.len(),
                live_desc(self.regs@) == r@ + live_desc(self.regs@.subrange(0, i as int)),
            decreases i,
        {
            let ghost pre = self.regs@.subrange(0, i as int);
            assert(pre.drop_last() == self.regs@.subrange(0, i - 1));
            if self.regs[i - 1] {
                r.push(i - 1);
                assert(live_desc(pre) == seq![(i - 1) as usize] + live_desc(pre.drop_last()));
            }
            i = i - 1;
        }
        assert(live_desc(self.regs@.subrange(0, 0)) == Seq::<usize>::empty());
        r
    }

    /// Tears the loop down: the refresh signals are stopped first, then every
    /// other registration still live is released, newest first; all come
    /// back to be undone natively, in that order. The loop is consumed, so no
    /// handler can be reached through it afterwards.
    pub fn teardown(self) -> (r: Vec<usize>)
        requires
            self.wf(),
        ensures
            teardown_spec(self, r@),
    {
        let ghost old_self = self;
        let mut l = self;
        let mut r: Vec<usize> = Vec::new();
        let mut f: usize = 0;
        while f < l.frames.len()
            invariant
                l.wf(),
                f <= l.frames@.len(),
                l.frames@ == old_self.frames@,
                l.regs@.len() == old_self.regs@.len(),
                l.released@ == old_self.released@ + r@,
                forall|k: int| 0 <= k < r@.len() ==> is_signal_reg(old_self.frames@, r@[k]),
                forall|g: int|
                    0 <= g < f ==> !(old_self.frames@[g].reg < l.regs@.len() && l.regs@[
                        old_self.frames@[g].reg as int
                    ]),
            decreases l.frames@.len() - f,
        {
            let reg = l.frames[f].reg;
            let ghost before = l.regs@;
            if reg < l.regs.len() && l.regs[reg] {
                l.release_registration(reg);
                r.push(reg);
                assert(is_signal_reg(old_self.frames@, reg)) by {
                    assert(old_self.frames@[f as int].reg == reg);
                }
            } else {
                l.release_registration(reg);
            }
            assert forall|g: int|
                0 <= g <= f implies !(old_self.frames@[g].reg < l.regs@.len() && l.regs@[
                old_self.frames@[g].reg as int
            ]) by {
                if g < f {
                    let x = old_self.frames@[g].reg;
                    if x < l.regs@.len() && x != reg {
                        assert(l.regs@[x as int] == before[x as int]);
                    }
                }
            }
            f = f + 1;
        }
        let ghost n = r@.len();
        let ghost signals = r@;
        let total = l.regs.len();
        let rest = l.live_registrations();
        let mut j: usize = 0;
        while j < rest.len()
            invariant
                j <= rest@.len(),
                r@ == signals + rest@.subrange(0, j as int),
            decreases rest@.len() - j,
        {
            r.push(rest[j]);
            assert(rest@.subrange(0, j + 1) == rest@.subrange(0, j as int).push(rest@[j as int]));
            j = j + 1;
        }
        proof {
            assert(rest@.subrange(0, rest@.len() as int) == rest@);
            lemma_teardown_releases_each_once(l.regs@, l.released@);
            lemma_live_desc(l.regs@);
            assert(old_self.released@ + r@ =~= l.released@ + rest@);
            assert forall|a: int, b: int|
                0 <= a < b < r@.len() && is_signal_reg(old_self.frames@, #[trigger] r@[b])
                    implies is_signal_reg(old_self.frames@, #[trigger] r@[a]) by {
                if b >= n {
                    let x = r@[b];
                    assert(x == rest@[b - n]);
                    let g = choose|g: int| 0 <= g < old_self.frames@.len() && old_self.frames@[g].reg == x;
                }
            }
            assert forall|k: int| 0 <= k < r@.len() implies r@[k] < old_self.regs@.len() by {
                assert((old_self.released@ + r@)[old_self.released@.len() + k] == r@[k]);
            }
        }
        r
    }
}

/// Every entry of `live_desc` names a live registration, and the entries
/// strictly decrease.
pub proof fn lemma_live_desc(regs: Seq<bool>)
    requires
        regs.len() <= usize::MAX,
    ensures
        forall|a: int|
            0 <= a < live_desc(regs).len() ==> live_desc(regs)[a] < regs.len()
                && regs[live_desc(regs)[a] as int],
        forall|a: int, b: int|
            0 <= a < b < live_desc(regs).len() ==> live_desc(regs)[a] > live_desc(regs)[b],
        forall|i: int| 0 <= i < regs.len() && regs[i] ==> live_desc(regs).contains(i as usize),
    decreases regs.len(),
{
    if regs.len() > 0 {
        let t = regs.drop_last();
        lemma_live_desc(t);
        let rest = live_desc(t);
        let n = regs.len() - 1;
        assert forall|i: int| 0 <= i < regs.len() && regs[i] implies live_desc(regs).contains(
            i as usize,
        ) by {
            if i < n {
                assert(t[i] == regs[i]);
                let k = choose|k: int| 0 <= k < rest.len() && rest[k] == i as usize;
                if regs.last() {
                    assert(live_desc(regs)[k + 1] == i as usize);
                } else {
                    assert(live_desc(regs)[k] == i as usize);
                }
            } else {
                assert(live_desc(regs)[0] == i as usize);
            }
        }
        assert forall|a: int| 0 <= a < rest.len() implies regs[rest[a] as int] by {
            assert(t[rest[a] as int] == regs[rest[a] as int]);
        }
        let ld = live_desc(regs);
        if regs.last() {
            assert(ld == seq![n as usize] + rest);
            assert(ld[0] == n);
            assert forall|a: int| 0 <= a < ld.len() implies ld[a] < regs.len() && regs[ld[a] as int] by {
                if a > 0 {
                    assert(ld[a] == rest[a - 1]);
                }
            }
            assert forall|a: int, b: int| 0 <= a < b < ld.len() implies ld[a] > ld[b] by {
                assert(ld[b] == rest[b - 1]);
                if a > 0 {
                    assert(ld[a] == rest[a - 1]);
                }
            }
        } else {
            assert(ld == rest);
        }
    }
}

/// Tearing the loop down releases every native registration exactly once:
/// together with those released before (closed windows), what teardown
/// releases holds every registration ever made, and none twice.
pub proof fn lemma_teardown_releases_each_once(regs: Seq<bool>, released: Seq<usize>)
    requires
        regs.len() <= usize::MAX,
        release_log_ok(regs, released),
    ensures
        (released + live_desc(regs)).no_duplicates(),
        forall|x: usize| x < regs.len() ==> #[trigger] (released + live_desc(regs)).contains(x),
        forall|k: int|
            0 <= k < (released + live_desc(regs)).len() ==> (released + live_desc(regs))[k]
                < regs.len(),
{
    lemma_live_desc(regs);
    let ld = live_desc(regs);
    let all = released + ld;
    assert forall|a: int, b: int| 0 <= a < b < all.len() implies all[a] != all[b] by {
        if b < released.len() {
        } else if a >= released.len() {
            assert(ld[a - released.len()] > ld[b - released.len()]);
        } else {
            let x = ld[b - released.len()];
            assert(regs[x as int]);
            assert(released[a] == all[a]);
            if all[a] == x {
                assert(released.contains(x));
            }
        }
    }
    assert forall|x: usize| x < regs.len() implies #[trigger] all.contains(x) by {
        let i = x as int;
        if regs[i] {
            let k = choose|k: int| 0 <= k < ld.len() && ld[k] == i as usize;
            assert(all[released.len() + k] == i as usize);
        } else {
            let k = choose|k: int| 0 <= k < released.len() && released[k] == i as usize;
            assert(all[k] == i as usize);
        }
    }
    assert forall|k: int| 0 <= k < all.len() implies all[k] < regs.len() by {
        if k >= released.len() {
            assert(all[k] == ld[k - released.len()]);
        }
    }
}

/// Once a task's handle is dropped, whatever windows and timers still route
/// to it, every delivery attempt fails quietly as `Gone`, and neither a later
/// borrow's end nor a second drop brings it back.
pub proof fn lemma_dropped_task_is_unreachable(slots: Seq<TaskSlot>, id: TaskId)
    requires
        id.0 < slots.len(),
    ensures
        ({
            let dropped = slots.update(id.0 as int, drop_spec(slots[id.0 as int]));
            &&& resolve_spec(slot_of(dropped, id)) == Err::<(), DispatchError>(DispatchError::Gone)
            &&& resolve_spec(release_spec(slot_of(dropped, id))) == Err::<(), DispatchError>(
                DispatchError::Gone,
            )
            &&& resolve_spec(drop_spec(slot_of(dropped, id))) == Err::<(), DispatchError>(
                DispatchError::Gone,
            )
        }),
{
}

} // verus!
