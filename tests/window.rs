use portlight::input::{
    button_from_message, mouse_button_from_code, scroll_delta_from_code, GET_WHEEL_DELTA_WPARAM,
    GET_XBUTTON_WPARAM, GET_X_LPARAM, GET_Y_LPARAM, HIWORD, LOWORD, WM_LBUTTONDOWN, WM_RBUTTONUP,
    WM_XBUTTONDOWN,
};
use portlight::input::{forwards_to_default, mouse_button_from_number};
use portlight::window::{effective_dpi, physical_extent};
use portlight::Response;
use portlight::{
    Bitmap, ButtonAction, Cursor, DamageRect, Edges, EventLoop, EventLoopOptions, ExposeBatch, Key,
    MouseButton, Platform, PointerCapture, RawWindow, ScrollDelta, Surface, WindowInner,
};

#[test]
fn scale_two_window_surface_and_present() {
    let mut event_loop = EventLoop::new().unwrap();
    let task = event_loop.spawn();
    // Logical 200 x 100 at 192 DPI (scale 2.0).
    let w = event_loop.open_window(1, None, task.id, Key(0), 200, 100, 192).unwrap();
    let window = &mut event_loop.windows[w].inner;
    assert_eq!(window.surface.width(), 400);
    assert_eq!(window.surface.height(), 200);

    let full: Vec<u32> = (0..400 * 200).map(|i| i as u32).collect();
    assert!(!window.surface.ensure_size(400, 200));
    window.present(&full, 400, 200);
    assert_eq!(window.surface.width(), 400);
    assert_eq!(window.surface.pixels(), &full);

    let small: Vec<u32> = vec![7; 100 * 100];
    window.present(&small, 100, 100);
    let px = window.surface.pixels();
    assert_eq!(px.len(), 400 * 200);
    assert_eq!(px[0], 7);
    assert_eq!(px[99], 7);
    assert_eq!(px[100], 100);
    assert_eq!(px[99 * 400 + 99], 7);
    assert_eq!(px[100 * 400], full[100 * 400]);
}

#[test]
fn present_larger_bitmap_is_clipped() {
    let mut surface = Surface::allocate(2, 2);
    let data: Vec<u32> = vec![1, 2, 3, 4, 5, 6, 7, 8, 9];
    surface.present(&Bitmap::new(&data, 3, 3));
    assert_eq!(surface.pixels(), &vec![1, 2, 4, 5]);
}

#[test]
fn ensure_size_reallocates_on_change() {
    let mut surface = Surface::allocate(2, 2);
    assert!(surface.ensure_size(3, 1));
    assert_eq!(surface.pixels(), &vec![0, 0, 0]);
}

#[test]
fn bitmap_accessors() {
    let data = [1u32, 2, 3, 4, 5, 6];
    let bitmap = Bitmap::new(&data, 3, 2);
    assert_eq!(bitmap.width(), 3);
    assert_eq!(bitmap.height(), 2);
    assert_eq!(bitmap.data(), &data[..]);
}

#[test]
fn physical_extent_rounds() {
    assert_eq!(physical_extent(200, 192), 400);
    assert_eq!(physical_extent(100, 96), 100);
    assert_eq!(physical_extent(3, 144), 5);
    assert_eq!(physical_extent(0, 144), 0);
}

#[test]
fn expose_once_per_batch() {
    let mut batch = ExposeBatch::new();
    let r1 = DamageRect { x: 0, y: 0, width: 10, height: 10 };
    let r2 = DamageRect { x: 10, y: 0, width: 5, height: 5 };
    let r3 = DamageRect { x: -2, y: 3, width: 1, height: 1 };
    assert_eq!(batch.push(r1, false), None);
    assert_eq!(batch.push(r2, false), None);
    assert_eq!(batch.push(r3, true), Some(vec![r1, r2, r3]));
    assert_eq!(batch.push(r2, true), Some(vec![r2]));
}

#[test]
fn window_damage_batches() {
    let mut event_loop = EventLoop::new().unwrap();
    let task = event_loop.spawn();
    let w = event_loop.open_window(1, None, task.id, Key(0), 10, 10, 96).unwrap();
    let r = DamageRect { x: 1, y: 2, width: 3, height: 4 };
    assert_eq!(event_loop.damage(w, r, false), None);
    assert_eq!(event_loop.damage(w, r, true), Some(vec![r, r]));
}

#[test]
fn capture_follows_press_count() {
    let mut capture = PointerCapture::new();
    assert!(capture.press());
    assert!(!capture.press());
    assert!(!capture.release());
    assert!(capture.release());
    assert!(!capture.release());
    assert_eq!(capture.pressed, 0);
}

#[test]
fn window_buttons_and_pointer() {
    let mut event_loop = EventLoop::new().unwrap();
    let task = event_loop.spawn();
    let w = event_loop.open_window(1, None, task.id, Key(0), 10, 10, 96).unwrap();
    assert!(event_loop.button(w, ButtonAction::Down));
    assert!(!event_loop.button(w, ButtonAction::Down));
    assert!(!event_loop.button(w, ButtonAction::Up));
    assert!(event_loop.button(w, ButtonAction::Up));
    assert!(event_loop.pointer_moved(w));
    assert!(!event_loop.pointer_moved(w));
    event_loop.pointer_left(w);
    assert!(event_loop.pointer_moved(w));
}

#[test]
fn window_show_hide_cursor_close() {
    let mut window = WindowInner::open(Platform::X11, 42, None, portlight::TaskId(0), Key(0), 4, 4);
    window.show();
    assert!(window.visible);
    window.hide_window();
    assert!(!window.visible);
    window.set_cursor(Cursor::Hand);
    assert_eq!(window.cursor, Cursor::Hand);
    assert_eq!(window.close(), Some(42));
    assert_eq!(window.close(), None);
    window.show();
    assert!(!window.visible);
    let before = window.surface.pixels().clone();
    window.present(&vec![9; 16], 4, 4);
    assert_eq!(window.surface.pixels(), &before);
}

#[test]
fn words() {
    assert_eq!(LOWORD(0x1234_5678), 0x5678);
    assert_eq!(HIWORD(0x1234_5678), 0x1234);
    assert_eq!(GET_X_LPARAM(0x0005_fffe), -2);
    assert_eq!(GET_Y_LPARAM(0xfff0_0003), -16);
    assert_eq!(GET_XBUTTON_WPARAM(0x0002_0000), 2);
    assert_eq!(GET_WHEEL_DELTA_WPARAM(0xff88_0000), -120);
}

#[test]
fn button_messages() {
    assert_eq!(button_from_message(WM_LBUTTONDOWN, 0), Some((MouseButton::Left, ButtonAction::Down)));
    assert_eq!(button_from_message(WM_RBUTTONUP, 0), Some((MouseButton::Right, ButtonAction::Up)));
    assert_eq!(button_from_message(WM_XBUTTONDOWN, 0x0001_0000), Some((MouseButton::Back, ButtonAction::Down)));
    assert_eq!(button_from_message(WM_XBUTTONDOWN, 0x0002_0000), Some((MouseButton::Forward, ButtonAction::Down)));
    assert_eq!(button_from_message(WM_XBUTTONDOWN, 0x0003_0000), None);
    assert_eq!(button_from_message(0x0200, 0), None);
}

#[test]
fn button_codes() {
    assert_eq!(mouse_button_from_code(1), Some(MouseButton::Left));
    assert_eq!(mouse_button_from_code(9), Some(MouseButton::Forward));
    assert_eq!(mouse_button_from_code(4), None);
    assert_eq!(scroll_delta_from_code(4), Some(ScrollDelta { dx: 0, dy: 1 }));
    assert_eq!(scroll_delta_from_code(6), Some(ScrollDelta { dx: -1, dy: 0 }));
    assert_eq!(scroll_delta_from_code(1), None);
}

#[test]
fn button_numbers() {
    assert_eq!(mouse_button_from_number(0), Some(MouseButton::Left));
    assert_eq!(mouse_button_from_number(1), Some(MouseButton::Right));
    assert_eq!(mouse_button_from_number(2), Some(MouseButton::Middle));
    assert_eq!(mouse_button_from_number(4), Some(MouseButton::Forward));
    assert_eq!(mouse_button_from_number(5), None);
    assert_eq!(mouse_button_from_number(-1), None);
}

#[test]
fn captured_events_suppress_default_handling() {
    assert!(!forwards_to_default(Some(Response::Capture)));
    assert!(forwards_to_default(Some(Response::Ignore)));
    assert!(forwards_to_default(None));
}

#[test]
fn dpi_falls_back_to_default() {
    assert_eq!(effective_dpi(Some(144)), 144);
    assert_eq!(effective_dpi(Some(0)), 96);
    assert_eq!(effective_dpi(None), 96);
}

#[test]
fn present_partial_only_inside_rects() {
    let mut window = WindowInner::open(Platform::X11, 1, None, portlight::TaskId(0), Key(0), 3, 2);
    let data: Vec<u32> = vec![1, 2, 3, 4, 5, 6];
    let rects = vec![
        Edges { left: 0, top: 0, right: 1, bottom: 1 },
        Edges { left: 2, top: 1, right: 9, bottom: 9 },
    ];
    window.present_partial(&data, 3, 2, &rects);
    assert_eq!(window.surface.pixels(), &vec![1, 0, 0, 0, 0, 6]);
    window.present_partial(&data, 3, 2, &vec![]);
    assert_eq!(window.surface.pixels(), &vec![1, 0, 0, 0, 0, 6]);
}

#[test]
fn close_frees_surface() {
    let mut window = WindowInner::open(Platform::X11, 1, None, portlight::TaskId(0), Key(0), 3, 2);
    assert_eq!(window.close(), Some(1));
    assert_eq!(window.surface.width(), 0);
    assert!(window.surface.pixels().is_empty());
}

#[test]
fn foreign_parent_is_refused() {
    let mut options = EventLoopOptions::new();
    options.platform(Platform::Win32);
    let mut event_loop = options.build().unwrap();
    let task = event_loop.spawn();
    let refused = event_loop.open_window(5, Some(RawWindow::X11(3)), task.id, Key(0), 10, 10, 96);
    assert_eq!(refused, Err(portlight::Error::InvalidWindowHandle));
    assert!(event_loop.windows.is_empty());
    assert!(event_loop.regs.is_empty());
    let w = event_loop
        .open_window(5, Some(RawWindow::Win32(3)), task.id, Key(0), 10, 10, 96)
        .unwrap();
    assert_eq!(event_loop.windows[w].inner.parent, Some(3));
    assert_eq!(event_loop.windows[w].inner.as_raw(), Ok(RawWindow::Win32(5)));
}

#[test]
fn paint_is_one_expose_validated_when_delivered() {
    let mut event_loop = EventLoop::new().unwrap();
    let task = event_loop.spawn();
    let w = event_loop.open_window(1, None, task.id, Key(4), 10, 10, 96).unwrap();
    let region = vec![
        DamageRect { x: 0, y: 0, width: 2, height: 2 },
        DamageRect { x: 5, y: 5, width: 1, height: 1 },
    ];
    let paint = event_loop.paint(w, region.clone());
    assert_eq!(paint.delivery.map(|d| d.key), Some(Key(4)));
    assert_eq!(paint.rects, region);
    assert!(paint.validate);
    // The task is still inside that delivery: a second paint is not delivered
    // and the region stays invalid.
    let again = event_loop.paint(w, region.clone());
    assert!(again.delivery.is_none());
    assert!(!again.validate);
    event_loop.complete(paint.delivery.unwrap());
}
