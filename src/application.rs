use vstd::prelude::*;

use crate::event_loop::{live_desc, EventLoop};
use crate::task::Key;
use crate::window::RawWindow;

verus! {

/// Errors of creating an application: a native failure with its code.
/// Creating the application token itself never fails.
#[derive(Clone, Copy, Debug, PartialEq, Eq, Structural)]
pub enum ApplicationError {
    Platform(u32),
}

/// Errors of creating a native window.
#[derive(Clone, Copy, Debug, PartialEq, Eq, Structural)]
pub enum WindowError {
    ClassCreation(u32),
    WindowCreation(u32),
    InvalidWindowHandle,
}

/// The error code a class registration reports when the class is already
/// registered.
pub const ERROR_CLASS_ALREADY_EXISTS: u32 = 1410;

/// The outcome of registering a window class, from the atom the platform
/// returned (zero on failure) and its last-error code: a class that already
/// exists is fine; any other failure is `ClassCreation` with the code.
pub fn class_registration(atom: u16, last_error: u32) -> (r: Result<(), WindowError>)
    ensures
        atom != 0 ==> r == Ok::<(), WindowError>(()),
        atom == 0 && last_error == ERROR_CLASS_ALREADY_EXISTS ==> r == Ok::<(), WindowError>(()),
        atom == 0 && last_error != ERROR_CLASS_ALREADY_EXISTS ==> r == Err::<(), WindowError>(
            WindowError::ClassCreation(last_error),
        ),
{
    if atom == 0 && last_error != ERROR_CLASS_ALREADY_EXISTS {
        Err(WindowError::ClassCreation(last_error))
    } else {
        Ok(())
    }
}

/// The outcome of creating a native window, from the handle the platform
/// returned (zero on failure) and its last-error code.
pub fn window_creation(handle: usize, last_error: u32) -> (r: Result<usize, WindowError>)
    ensures
        handle != 0 ==> r == Ok::<usize, WindowError>(handle),
        handle == 0 ==> r == Err::<usize, WindowError>(WindowError::WindowCreation(last_error)),
{
    if handle == 0 {
        Err(WindowError::WindowCreation(last_error))
    } else {
        Ok(handle)
    }
}

/// The parent a window is created under, from an embedding handle: none for
/// a top-level window, and only a handle of the message-queue platform.
pub fn window_parent(parent: Option<RawWindow>) -> (r: Result<usize, WindowError>)
    ensures
        r == (match parent {
            None => Ok::<usize, WindowError>(0),
            Some(RawWindow::Win32(h)) => Ok(h),
            Some(_) => Err(WindowError::InvalidWindowHandle),
        }),
{
    match parent {
        None => Ok(0),
        Some(RawWindow::Win32(h)) => Ok(h),
        Some(_) => Err(WindowError::InvalidWindowHandle),
    }
}

/// A process-level application token.
#[derive(Clone, Copy, Debug)]
pub struct Application;

impl Application {
    pub fn new() -> (r: Result<Application, ApplicationError>)
        ensures
            r.is_ok(),
    {
        Ok(Application)
    }
}

/// A loop with a task that holds a window, torn down with the task's handle
/// dropped first: the loop's registrations all come back, once each.
pub fn leak() -> (r: Vec<usize>)
    ensures
        r@ == seq![0usize],
{
    let mut event_loop = match EventLoop::new() {
        Ok(l) => l,
        Err(_) => {
            return vec![0];
        },
    };
    let task = event_loop.spawn();
    assert(crate::window::physical_extent_spec(1, 96) == 1);
    let opened = event_loop.open_window(1, None, task.id, Key(0), 1, 1, 96);
    assert(opened.is_ok());
    event_loop.drop_task(task);
    assert(event_loop.regs@ =~= seq![true]);
    assert(event_loop.released@ =~= Seq::<usize>::empty());
    let r = event_loop.teardown();
    proof {
        let all = Seq::<usize>::empty() + r@;
        assert(all =~= r@);
        assert(r@.contains(0usize));
        assert(forall|k: int| 0 <= k < r@.len() ==> r@[k] == 0usize);
        if r@.len() >= 2 {
            assert(r@[0] == r@[1]);
        }
        assert(r@ =~= seq![0usize]);
    }
    r
}

} // verus!
