use vstd::prelude::*;

use crate::input::{
    button_from_message, button_message_spec, ButtonAction, MouseButton, GET_WHEEL_DELTA_WPARAM,
    GET_X_LPARAM, GET_Y_LPARAM, LOWORD,
};
use crate::task::Response;

verus! {

pub const WM_DESTROY: u32 = 0x0002;
pub const WM_PAINT: u32 = 0x000F;
pub const WM_CLOSE: u32 = 0x0010;
pub const WM_ERASEBKGND: u32 = 0x0014;
pub const WM_SETCURSOR: u32 = 0x0020;
pub const WM_MOUSEMOVE: u32 = 0x0200;
pub const WM_MOUSEWHEEL: u32 = 0x020A;
pub const WM_MOUSEHWHEEL: u32 = 0x020E;
pub const WM_MOUSELEAVE: u32 = 0x02A3;
pub const HTCLIENT: u16 = 1;

/// A window-procedure message, decoded.
#[derive(Clone, Copy, Debug, PartialEq, Eq, Structural)]
pub enum WindowMessage {
    /// The cursor is over the client area and must be set.
    SetCursor,
    EraseBackground,
    Paint,
    /// The pointer moved, at physical client coordinates.
    MouseMove { x: i16, y: i16 },
    MouseLeave,
    Button { button: MouseButton, action: ButtonAction },
    /// Wheel rotation in 1/120 notch, horizontal or vertical.
    Wheel { horizontal: bool, delta: i16 },
    Close,
    Destroy,
    /// Anything else, including a cursor request outside the client area.
    Other,
}

pub open spec fn decode_spec(msg: u32, wp: usize, lp: isize) -> WindowMessage {
    if msg == WM_SETCURSOR {
        if (lp as u32) % 65536 == HTCLIENT {
            WindowMessage::SetCursor
        } else {
            WindowMessage::Other
        }
    } else if msg == WM_ERASEBKGND {
        WindowMessage::EraseBackground
    } else if msg == WM_PAINT {
        WindowMessage::Paint
    } else if msg == WM_MOUSEMOVE {
        WindowMessage::MouseMove { x: lp as i16, y: (lp >> 16) as i16 }
    } else if msg == WM_MOUSELEAVE {
        WindowMessage::MouseLeave
    } else if msg == WM_MOUSEWHEEL || msg == WM_MOUSEHWHEEL {
        WindowMessage::Wheel { horizontal: msg == WM_MOUSEHWHEEL, delta: (wp >> 16) as i16 }
    } else if msg == WM_CLOSE {
        WindowMessage::Close
    } else if msg == WM_DESTROY {
        WindowMessage::Destroy
    } else {
        match button_message_spec(msg, wp) {
            Some((button, action)) => WindowMessage::Button { button, action },
            None => WindowMessage::Other,
        }
    }
}

/// Decodes a message sent to a window's procedure.
pub fn decode_window_message(msg: u32, wp: usize, lp: isize) -> (r: WindowMessage)
    ensures
        r == decode_spec(msg, wp, lp),
{
    if msg == WM_SETCURSOR {
        if LOWORD(lp as u32) == HTCLIENT {
            WindowMessage::SetCursor
        } else {
            WindowMessage::Other
        }
    } else if msg == WM_ERASEBKGND {
        WindowMessage::EraseBackground
    } else if msg == WM_PAINT {
        WindowMessage::Paint
    } else if msg == WM_MOUSEMOVE {
        WindowMessage::MouseMove { x: GET_X_LPARAM(lp), y: GET_Y_LPARAM(lp) }
    } else if msg == WM_MOUSELEAVE {
        WindowMessage::MouseLeave
    } else if msg == WM_MOUSEWHEEL || msg == WM_MOUSEHWHEEL {
        WindowMessage::Wheel { horizontal: msg == WM_MOUSEHWHEEL, delta: GET_WHEEL_DELTA_WPARAM(wp) }
    } else if msg == WM_CLOSE {
        WindowMessage::Close
    } else if msg == WM_DESTROY {
        WindowMessage::Destroy
    } else {
        match button_from_message(msg, wp) {
            Some((button, action)) => WindowMessage::Button { button, action },
            None => WindowMessage::Other,
        }
    }
}

/// What the window procedure returns for a handled message, or `None` when
/// the platform's default procedure must run. `response` is what the task
/// answered, `None` when the delivery was dropped.
///
/// Painting, moves, cursor and background requests are fully handled. A
/// button or wheel event skips the default only when the task captured it.
/// A close request never reaches the default procedure, so the window is
/// never destroyed behind the application's back.
pub open spec fn proc_result_spec(m: WindowMessage, response: Option<Response>) -> Option<isize> {
    match m {
        WindowMessage::SetCursor => Some(1),
        WindowMessage::EraseBackground => Some(1),
        WindowMessage::Paint => Some(0),
        WindowMessage::MouseMove { .. } => Some(0),
        WindowMessage::Close => Some(0),
        WindowMessage::Button { .. } => if response == Some(Response::Capture) {
            Some(0)
        } else {
            None
        },
        WindowMessage::Wheel { .. } => if response == Some(Response::Capture) {
            Some(0)
        } else {
            None
        },
        _ => None,
    }
}

pub fn window_proc_result(m: WindowMessage, response: Option<Response>) -> (r: Option<isize>)
    ensures
        r == proc_result_spec(m, response),
{
    let captured = match response {
        Some(Response::Capture) => true,
        _ => false,
    };
    match m {
        WindowMessage::SetCursor => Some(1),
        WindowMessage::EraseBackground => Some(1),
        WindowMessage::Paint => Some(0),
        WindowMessage::MouseMove { .. } => Some(0),
        WindowMessage::Close => Some(0),
        WindowMessage::Button { .. } => if captured {
            Some(0)
        } else {
            None
        },
        WindowMessage::Wheel { .. } => if captured {
            Some(0)
        } else {
            None
        },
        _ => None,
    }
}

} // verus!
