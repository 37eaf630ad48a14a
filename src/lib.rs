//! Event-loop and resource-lifecycle core of a desktop windowing layer.
//!
//! Every decision the loop makes (run state, captured failures, which task an
//! event goes to, which timers are due, which windows receive a refresh tick,
//! what is released on teardown) is a verified state transition here; the
//! native pumps that produce events and perform actions live outside.
use vstd::prelude::*;

pub mod application;
pub mod control;
pub mod error;
pub mod event_loop;
pub mod frame;
pub mod input;
pub mod message;
pub mod naming;
pub mod surface;
pub mod task;
pub mod timer;
pub mod window;

pub use application::{leak, Application, ApplicationError, WindowError};
pub use control::{FailureAction, LoopControl, RunState};
pub use error::{BorrowMutError, Error};
pub use event_loop::{
    Delivery, EventLoop, EventLoopMode, EventLoopOptions, PaintRequest, WindowEntry,
};
pub use frame::FrameSignal;
pub use input::{ButtonAction, MouseButton, PointerCapture, ScrollDelta};
pub use surface::{Bitmap, Surface};
pub use task::{DispatchError, Key, Response, TaskHandle, TaskId, TaskRegistry, TaskSlot};
pub use timer::{Fired, Timer, TimerEntry, TimerId, Timers};
pub use window::{Cursor, DamageRect, Edges, ExposeBatch, Platform, RawWindow, WindowInner};
