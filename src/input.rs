use vstd::prelude::*;

verus! {

#[derive(Clone, Copy, Debug, PartialEq, Eq, Structural, Hash)]
pub enum MouseButton {
    Left,
    Middle,
    Right,
    Back,
    Forward,
}

/// Whether a button message reports a press or a release.
#[derive(Clone, Copy, Debug, PartialEq, Eq, Structural)]
pub enum ButtonAction {
    Down,
    Up,
}

/// One step of wheel movement, in notches along each axis.
#[derive(Clone, Copy, Debug, PartialEq, Eq, Structural)]
pub struct ScrollDelta {
    pub dx: i32,
    pub dy: i32,
}

/// The low 16 bits of a message parameter.
#[allow(non_snake_case)]
pub fn LOWORD(l: u32) -> (r: u16)
    ensures
        r == l % 65536,
{
    let r = (l & 0xffff) as u16;
    assert((l & 0xffff) == l % 65536) by (bit_vector);
    r
}

/// Bits 16 to 31 of a message parameter.
#[allow(non_snake_case)]
pub fn HIWORD(l: u32) -> (r: u16)
    ensures
        r == l / 65536,
{
    let r = ((l >> 16) & 0xffff) as u16;
    assert(((l >> 16) & 0xffff) == l / 65536) by (bit_vector);
    r
}

/// The signed x coordinate packed in the low word of a pointer message.
#[allow(non_snake_case)]
pub fn GET_X_LPARAM(lp: isize) -> (r: i16)
    ensures
        r == lp as i16,
{
    let w = LOWORD(lp as u32);
    let r = w as i16;
    assert(((lp as u32) % 65536) as u16 as i16 == lp as i16) by (bit_vector);
    r
}

/// The signed y coordinate packed in the high word of a pointer message.
#[allow(non_snake_case)]
pub fn GET_Y_LPARAM(lp: isize) -> (r: i16)
    ensures
        r == (lp >> 16) as i16,
{
    let w = HIWORD(lp as u32);
    let r = w as i16;
    assert(((lp as u32) / 65536) as u16 as i16 == (lp >> 16) as i16) by (bit_vector);
    r
}

/// Which extra button an extra-button message is about.
#[allow(non_snake_case)]
pub fn GET_XBUTTON_WPARAM(wp: usize) -> (r: u16)
    ensures
        r == (wp >> 16) as u16,
{
    let w = HIWORD(wp as u32);
    assert(((wp as u32) / 65536) as u16 == (wp >> 16) as u16) by (bit_vector);
    w
}

/// The signed wheel rotation of a wheel message, in units of 1/120 notch.
#[allow(non_snake_case)]
pub fn GET_WHEEL_DELTA_WPARAM(wp: usize) -> (r: i16)
    ensures
        r == (wp >> 16) as i16,
{
    let w = HIWORD(wp as u32);
    let r = w as i16;
    assert(((wp as u32) / 65536) as u16 as i16 == (wp >> 16) as i16) by (bit_vector);
    r
}

pub const WM_LBUTTONDOWN: u32 = 0x0201;
pub const WM_LBUTTONUP: u32 = 0x0202;
pub const WM_RBUTTONDOWN: u32 = 0x0204;
pub const WM_RBUTTONUP: u32 = 0x0205;
pub const WM_MBUTTONDOWN: u32 = 0x0207;
pub const WM_MBUTTONUP: u32 = 0x0208;
pub const WM_XBUTTONDOWN: u32 = 0x020B;
pub const WM_XBUTTONUP: u32 = 0x020C;
pub const XBUTTON1: u16 = 0x0001;
pub const XBUTTON2: u16 = 0x0002;

/// The button and action of a button message, or `None` for any other
/// message or an unknown extra button.
pub open spec fn button_message_spec(msg: u32, wp: usize) -> Option<(MouseButton, ButtonAction)> {
    let x = (wp >> 16) as u16;
    if msg == WM_LBUTTONDOWN {
        Some((MouseButton::Left, ButtonAction::Down))
    } else if msg == WM_LBUTTONUP {
        Some((MouseButton::Left, ButtonAction::Up))
    } else if msg == WM_MBUTTONDOWN {
        Some((MouseButton::Middle, ButtonAction::Down))
    } else if msg == WM_MBUTTONUP {
        Some((MouseButton::Middle, ButtonAction::Up))
    } else if msg == WM_RBUTTONDOWN {
        Some((MouseButton::Right, ButtonAction::Down))
    } else if msg == WM_RBUTTONUP {
        Some((MouseButton::Right, ButtonAction::Up))
    } else if msg == WM_XBUTTONDOWN || msg == WM_XBUTTONUP {
        let action = if msg == WM_XBUTTONDOWN {
            ButtonAction::Down
        } else {
            ButtonAction::Up
        };
        if x == XBUTTON1 {
            Some((MouseButton::Back, action))
        } else if x == XBUTTON2 {
            Some((MouseButton::Forward, action))
        } else {
            None
        }
    } else {
        None
    }
}

/// Decodes a window-procedure button message.
pub fn button_from_message(msg: u32, wp: usize) -> (r: Option<(MouseButton, ButtonAction)>)
    ensures
        r == button_message_spec(msg, wp),
{
    if msg == WM_LBUTTONDOWN {
        Some((MouseButton::Left, ButtonAction::Down))
    } else if msg == WM_LBUTTONUP {
        Some((MouseButton::Left, ButtonAction::Up))
    } else if msg == WM_MBUTTONDOWN {
        Some((MouseButton::Middle, ButtonAction::Down))
    } else if msg == WM_MBUTTONUP {
        Some((MouseButton::Middle, ButtonAction::Up))
    } else if msg == WM_RBUTTONDOWN {
        Some((MouseButton::Right, ButtonAction::Down))
    } else if msg == WM_RBUTTONUP {
        Some((MouseButton::Right, ButtonAction::Up))
    } else if msg == WM_XBUTTONDOWN || msg == WM_XBUTTONUP {
        let action = if msg == WM_XBUTTONDOWN {
            ButtonAction::Down
        } else {
            ButtonAction::Up
        };
        let x = GET_XBUTTON_WPARAM(wp);
        if x == XBUTTON1 {
            Some((MouseButton::Back, action))
        } else if x == XBUTTON2 {
            Some((MouseButton::Forward, action))
        } else {
            None
        }
    } else {
        None
    }
}

/// The button of a socket-protocol button code (1 to 3, 8 and 9).
pub open spec fn button_code_spec(code: u8) -> Option<MouseButton> {
    if code == 1 {
        Some(MouseButton::Left)
    } else if code == 2 {
        Some(MouseButton::Middle)
    } else if code == 3 {
        Some(MouseButton::Right)
    } else if code == 8 {
        Some(MouseButton::Back)
    } else if code == 9 {
        Some(MouseButton::Forward)
    } else {
        None
    }
}

pub fn mouse_button_from_code(code: u8) -> (r: Option<MouseButton>)
    ensures
        r == button_code_spec(code),
{
    match code {
        1 => Some(MouseButton::Left),
        2 => Some(MouseButton::Middle),
        3 => Some(MouseButton::Right),
        8 => Some(MouseButton::Back),
        9 => Some(MouseButton::Forward),
        _ => None,
    }
}

/// The button of a run-loop platform's button number (0 to 4).
pub fn mouse_button_from_number(number: isize) -> (r: Option<MouseButton>)
    ensures
        number == 0 ==> r == Some(MouseButton::Left),
        number == 1 ==> r == Some(MouseButton::Right),
        number == 2 ==> r == Some(MouseButton::Middle),
        number == 3 ==> r == Some(MouseButton::Back),
        number == 4 ==> r == Some(MouseButton::Forward),
        (number < 0 || number > 4) ==> r.is_none(),
{
    match number {
        0 => Some(MouseButton::Left),
        1 => Some(MouseButton::Right),
        2 => Some(MouseButton::Middle),
        3 => Some(MouseButton::Back),
        4 => Some(MouseButton::Forward),
        _ => None,
    }
}

/// Whether the platform's default handling of an input event still runs:
/// only an event the task captured suppresses it. A dropped delivery
/// (`None`) leaves it to the platform.
pub fn forwards_to_default(response: Option<crate::task::Response>) -> (r: bool)
    ensures
        r == (response != Some(crate::task::Response::Capture)),
{
    match response {
        Some(crate::task::Response::Capture) => false,
        _ => true,
    }
}

/// The wheel step of a socket-protocol button code: 4 up, 5 down, 6 left,
/// 7 right.
pub fn scroll_delta_from_code(code: u8) -> (r: Option<ScrollDelta>)
    ensures
        code == 4 ==> r == Some(ScrollDelta { dx: 0, dy: 1 }),
        code == 5 ==> r == Some(ScrollDelta { dx: 0, dy: -1i32 }),
        code == 6 ==> r == Some(ScrollDelta { dx: -1i32, dy: 0 }),
        code == 7 ==> r == Some(ScrollDelta { dx: 1, dy: 0 }),
        (code < 4 || code > 7) ==> r.is_none(),
{
    match code {
        4 => Some(ScrollDelta { dx: 0, dy: 1 }),
        5 => Some(ScrollDelta { dx: 0, dy: -1 }),
        6 => Some(ScrollDelta { dx: -1, dy: 0 }),
        7 => Some(ScrollDelta { dx: 1, dy: 0 }),
        _ => None,
    }
}

/// How many buttons are held after a press or a release; a release with
/// none held changes nothing, and the count saturates.
pub open spec fn pressed_after(pressed: usize, action: ButtonAction) -> usize {
    match action {
        ButtonAction::Down => if pressed == usize::MAX {
            pressed
        } else {
            (pressed + 1) as usize
        },
        ButtonAction::Up => if pressed == 0 {
            0
        } else {
            (pressed - 1) as usize
        },
    }
}

/// How many buttons are held over a window. Native pointer capture is taken
/// when the first goes down and given back when the last comes up, whichever
/// buttons they are.
#[derive(Clone, Copy, Debug, PartialEq, Eq, Structural)]
pub struct PointerCapture {
    pub pressed: usize,
}

impl PointerCapture {
    pub fn new() -> (r: PointerCapture)
        ensures
            r.pressed == 0,
    {
        PointerCapture { pressed: 0 }
    }

    /// A button went down; returns whether capture must be acquired.
    pub fn press(&mut self) -> (r: bool)
        ensures
            final(self).pressed == if old(self).pressed == usize::MAX {
                usize::MAX as int
            } else {
                old(self).pressed + 1
            },
            r == (old(self).pressed == 0),
    {
        let first = self.pressed == 0;
        self.pressed = self.pressed.saturating_add(1);
        first
    }

    /// A button came up; returns whether capture must be released. A release
    /// with no button held changes nothing.
    pub fn release(&mut self) -> (r: bool)
        ensures
            old(self).pressed > 0 ==> final(self).pressed == old(self).pressed - 1,
            old(self).pressed == 0 ==> final(self).pressed == 0,
            r == (old(self).pressed == 1),
    {
        if self.pressed == 0 {
            return false;
        }
        self.pressed = self.pressed - 1;
        self.pressed == 0
    }
}

} // verus!
