use portlight::message::{
    decode_window_message, window_proc_result, WindowMessage, WM_CLOSE, WM_DESTROY,
    WM_ERASEBKGND, WM_MOUSEHWHEEL, WM_MOUSELEAVE, WM_MOUSEMOVE, WM_MOUSEWHEEL, WM_PAINT,
    WM_SETCURSOR,
};
use portlight::window::{parent_handle, region_bounds, window_style};
use portlight::application::{class_registration, window_creation, window_parent};
use portlight::{
    ButtonAction, Edges, Error, MouseButton, Platform, RawWindow, Response, WindowError,
};

#[test]
fn decodes_messages() {
    assert_eq!(decode_window_message(WM_SETCURSOR, 0, 0x0200_0001), WindowMessage::SetCursor);
    assert_eq!(decode_window_message(WM_SETCURSOR, 0, 0x0200_0002), WindowMessage::Other);
    assert_eq!(decode_window_message(WM_ERASEBKGND, 0, 0), WindowMessage::EraseBackground);
    assert_eq!(decode_window_message(WM_PAINT, 0, 0), WindowMessage::Paint);
    assert_eq!(
        decode_window_message(WM_MOUSEMOVE, 0, 0xfffe_0010),
        WindowMessage::MouseMove { x: 16, y: -2 }
    );
    assert_eq!(decode_window_message(WM_MOUSELEAVE, 0, 0), WindowMessage::MouseLeave);
    assert_eq!(
        decode_window_message(WM_MOUSEWHEEL, 0x0078_0000, 0),
        WindowMessage::Wheel { horizontal: false, delta: 120 }
    );
    assert_eq!(
        decode_window_message(WM_MOUSEHWHEEL, 0xff88_0000, 0),
        WindowMessage::Wheel { horizontal: true, delta: -120 }
    );
    assert_eq!(decode_window_message(WM_CLOSE, 0, 0), WindowMessage::Close);
    assert_eq!(decode_window_message(WM_DESTROY, 0, 0), WindowMessage::Destroy);
    assert_eq!(
        decode_window_message(0x0207, 0, 0),
        WindowMessage::Button { button: MouseButton::Middle, action: ButtonAction::Down }
    );
    assert_eq!(decode_window_message(0x0113, 0, 0), WindowMessage::Other);
}

#[test]
fn proc_results() {
    let down = WindowMessage::Button { button: MouseButton::Left, action: ButtonAction::Down };
    assert_eq!(window_proc_result(down, Some(Response::Capture)), Some(0));
    assert_eq!(window_proc_result(down, Some(Response::Ignore)), None);
    assert_eq!(window_proc_result(down, None), None);
    let wheel = WindowMessage::Wheel { horizontal: false, delta: 120 };
    assert_eq!(window_proc_result(wheel, Some(Response::Capture)), Some(0));
    assert_eq!(window_proc_result(wheel, Some(Response::Ignore)), None);
    assert_eq!(window_proc_result(WindowMessage::Close, None), Some(0));
    assert_eq!(window_proc_result(WindowMessage::Close, Some(Response::Ignore)), Some(0));
    assert_eq!(window_proc_result(WindowMessage::SetCursor, None), Some(1));
    assert_eq!(window_proc_result(WindowMessage::EraseBackground, None), Some(1));
    assert_eq!(window_proc_result(WindowMessage::Paint, None), Some(0));
    assert_eq!(window_proc_result(WindowMessage::Destroy, None), None);
    assert_eq!(window_proc_result(WindowMessage::MouseLeave, None), None);
}

#[test]
fn parent_handles() {
    assert_eq!(parent_handle(Platform::Win32, None), Ok(None));
    assert_eq!(parent_handle(Platform::Win32, Some(RawWindow::Win32(77))), Ok(Some(77)));
    assert_eq!(parent_handle(Platform::X11, Some(RawWindow::X11(5))), Ok(Some(5)));
    assert_eq!(parent_handle(Platform::AppKit, Some(RawWindow::AppKit(3))), Ok(Some(3)));
    assert_eq!(
        parent_handle(Platform::Win32, Some(RawWindow::X11(77))),
        Err(Error::InvalidWindowHandle)
    );
    assert_eq!(
        parent_handle(Platform::X11, Some(RawWindow::AppKit(1))),
        Err(Error::InvalidWindowHandle)
    );
}

#[test]
fn styles() {
    assert_eq!(window_style(true), 0x4600_0000);
    assert_eq!(window_style(false), 0x06CF_0000);
}

#[test]
fn bounds_of_region() {
    assert_eq!(region_bounds(&vec![]), Edges { left: 0, top: 0, right: 0, bottom: 0 });
    let rects = vec![
        Edges { left: 5, top: 5, right: 10, bottom: 10 },
        Edges { left: -3, top: 7, right: 4, bottom: 20 },
        Edges { left: 0, top: 1, right: 30, bottom: 2 },
    ];
    assert_eq!(region_bounds(&rects), Edges { left: -3, top: 1, right: 30, bottom: 20 });
}

#[test]
fn window_errors() {
    assert_eq!(class_registration(5, 0), Ok(()));
    assert_eq!(class_registration(0, 1410), Ok(()));
    assert_eq!(class_registration(0, 5), Err(WindowError::ClassCreation(5)));
    assert_eq!(window_creation(0x40, 0), Ok(0x40));
    assert_eq!(window_creation(0, 87), Err(WindowError::WindowCreation(87)));
    assert_eq!(window_parent(None), Ok(0));
    assert_eq!(window_parent(Some(RawWindow::Win32(9))), Ok(9));
    assert_eq!(window_parent(Some(RawWindow::X11(9))), Err(WindowError::InvalidWindowHandle));
}
