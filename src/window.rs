use vstd::prelude::*;

use crate::error::Error;
use crate::input::PointerCapture;
use crate::surface::{partial_pixel, presented_pixel, row_major, Bitmap, Surface};
use crate::task::{Key, TaskId};

verus! {

#[derive(Clone, Copy, Debug, PartialEq, Eq, Structural, Hash)]
pub enum Cursor {
    Arrow,
    Crosshair,
    Hand,
    IBeam,
    No,
    SizeNs,
    SizeWe,
    SizeNesw,
    SizeNwse,
    Wait,
    Hidden,
}

/// A damaged rectangle in physical pixels, as the platform reports it.
#[derive(Clone, Copy, Debug, PartialEq, Eq, Structural)]
pub struct DamageRect {
    pub x: i32,
    pub y: i32,
    pub width: u32,
    pub height: u32,
}

/// Pending state and deliveries after one damage notification.
pub open spec fn expose_step(pending: Seq<DamageRect>, rect: DamageRect, last: bool) -> (
    Option<Seq<DamageRect>>,
    Seq<DamageRect>,
) {
    if last {
        (Some(pending.push(rect)), Seq::empty())
    } else {
        (None, pending.push(rect))
    }
}

/// The `Expose` deliveries and the pending rectangles after a run of damage
/// notifications, each flagged with whether it closes its batch.
pub open spec fn expose_run(pending: Seq<DamageRect>, notes: Seq<(DamageRect, bool)>) -> (
    Seq<Seq<DamageRect>>,
    Seq<DamageRect>,
)
    decreases notes.len(),
{
    if notes.len() == 0 {
        (Seq::empty(), pending)
    } else {
        let (delivered, rest) = expose_run(pending, notes.drop_last());
        let (out, next) = expose_step(rest, notes.last().0, notes.last().1);
        match out {
            Some(batch) => (delivered.push(batch), next),
            None => (delivered, next),
        }
    }
}

/// The notifications of one batch: every rectangle, the last one flagged.
pub open spec fn one_batch(rects: Seq<DamageRect>) -> Seq<(DamageRect, bool)> {
    Seq::new(rects.len(), |i: int| (rects[i], i == rects.len() - 1))
}

/// Collects the rectangles of a damage batch so that a window sees one
/// `Expose` per batch.
pub struct ExposeBatch {
    rects: Vec<DamageRect>,
}

impl ExposeBatch {
    pub closed spec fn view(&self) -> Seq<DamageRect> {
        self.rects@
    }

    pub fn new() -> (r: ExposeBatch)
        ensures
            r@ == Seq::<DamageRect>::empty(),
    {
        ExposeBatch { rects: Vec::new() }
    }

    /// Adds one notification; when it closes the batch, hands back every
    /// rectangle of the batch in arrival order.
    pub fn push(&mut self, rect: DamageRect, last: bool) -> (r: Option<Vec<DamageRect>>)
        ensures
            final(self)@ == expose_step(old(self)@, rect, last).1,
            r.is_some() == expose_step(old(self)@, rect, last).0.is_some(),
            r matches Some(v) ==> expose_step(old(self)@, rect, last).0 == Some(v@),
    {
        self.rects.push(rect);
        if last {
            let mut batch: Vec<DamageRect> = Vec::new();
            std::mem::swap(&mut batch, &mut self.rects);
            Some(batch)
        } else {
            None
        }
    }
}

/// A batch of damage notifications, fed from nothing pending, gives exactly
/// one `Expose`, whose rectangles are all those of the batch, and leaves
/// nothing pending.
pub proof fn lemma_expose_once_per_batch(rects: Seq<DamageRect>)
    requires
        rects.len() > 0,
    ensures
        expose_run(Seq::empty(), one_batch(rects)) == (seq![rects], Seq::<DamageRect>::empty()),
{
    let n = rects.len() as int;
    let notes = one_batch(rects);
    assert forall|k: int| 0 <= k < n implies expose_run(Seq::empty(), notes.subrange(0, k))
        == (Seq::<Seq<DamageRect>>::empty(), rects.subrange(0, k)) by {
        lemma_expose_prefix(rects, k);
    }
    lemma_expose_prefix(rects, n - 1);
    assert(notes.subrange(0, n) == notes);
    assert(notes.subrange(0, n).drop_last() == notes.subrange(0, n - 1));
    assert(rects.subrange(0, n - 1).push(rects[n - 1]) == rects);
    assert(seq![rects] == Seq::<Seq<DamageRect>>::empty().push(rects));
}

proof fn lemma_expose_prefix(rects: Seq<DamageRect>, k: int)
    requires
        0 <= k < rects.len(),
    ensures
        expose_run(Seq::empty(), one_batch(rects).subrange(0, k)) == (
            Seq::<Seq<DamageRect>>::empty(),
            rects.subrange(0, k),
        ),
    decreases k,
{
    let notes = one_batch(rects).subrange(0, k);
    if k == 0 {
        assert(rects.subrange(0, 0) == Seq::<DamageRect>::empty());
    } else {
        lemma_expose_prefix(rects, k - 1);
        assert(notes.drop_last() == one_batch(rects).subrange(0, k - 1));
        assert(notes.last() == (rects[k - 1], false));
        assert(rects.subrange(0, k - 1).push(rects[k - 1]) == rects.subrange(0, k));
    }
}

/// The physical extent of a logical extent at a given DPI (96 is scale 1),
/// rounded to the nearest pixel.
pub open spec fn physical_extent_spec(logical: u32, dpi: u32) -> int {
    (logical * dpi + 48) / 96
}

pub fn physical_extent(logical: u32, dpi: u32) -> (r: u64)
    ensures
        r == physical_extent_spec(logical, dpi),
{
    let a: u64 = logical as u64;
    let b: u64 = dpi as u64;
    assert(a * b <= 0xffff_ffff * 0xffff_ffffu64) by (nonlinear_arith)
        requires
            a <= 0xffff_ffff,
            b <= 0xffff_ffff,
    ;
    let product: u64 = a * b;
    (product + 48) / 96
}

/// A native window handle of one platform, for embedding child windows.
#[derive(Clone, Copy, Debug, PartialEq, Eq, Structural)]
pub enum RawWindow {
    Win32(usize),
    AppKit(usize),
    X11(u64),
}

/// The native platform a loop runs on.
#[derive(Clone, Copy, Debug, PartialEq, Eq, Structural)]
pub enum Platform {
    Win32,
    AppKit,
    X11,
}

/// The handle of an embedding parent on `platform`: none for a top-level
/// window; a parent handle of another platform is refused.
pub open spec fn parent_handle_spec(platform: Platform, parent: Option<RawWindow>) -> Result<
    Option<u64>,
    Error,
> {
    match parent {
        None => Ok(None),
        Some(RawWindow::Win32(h)) => if platform == Platform::Win32 {
            Ok(Some(h as u64))
        } else {
            Err(Error::InvalidWindowHandle)
        },
        Some(RawWindow::AppKit(h)) => if platform == Platform::AppKit {
            Ok(Some(h as u64))
        } else {
            Err(Error::InvalidWindowHandle)
        },
        Some(RawWindow::X11(h)) => if platform == Platform::X11 {
            Ok(Some(h))
        } else {
            Err(Error::InvalidWindowHandle)
        },
    }
}

pub fn parent_handle(platform: Platform, parent: Option<RawWindow>) -> (r: Result<Option<u64>, Error>)
    ensures
        r == parent_handle_spec(platform, parent),
{
    match parent {
        None => Ok(None),
        Some(RawWindow::Win32(h)) => if platform == Platform::Win32 {
            Ok(Some(h as u64))
        } else {
            Err(Error::InvalidWindowHandle)
        },
        Some(RawWindow::AppKit(h)) => if platform == Platform::AppKit {
            Ok(Some(h as u64))
        } else {
            Err(Error::InvalidWindowHandle)
        },
        Some(RawWindow::X11(h)) => if platform == Platform::X11 {
            Ok(Some(h))
        } else {
            Err(Error::InvalidWindowHandle)
        },
    }
}

/// A native handle tagged with its platform.
pub open spec fn raw_of_spec(platform: Platform, handle: u64) -> RawWindow {
    match platform {
        Platform::Win32 => RawWindow::Win32(handle as usize),
        Platform::AppKit => RawWindow::AppKit(handle as usize),
        Platform::X11 => RawWindow::X11(handle),
    }
}

pub fn raw_of(platform: Platform, handle: u64) -> (r: RawWindow)
    ensures
        r == raw_of_spec(platform, handle),
{
    match platform {
        Platform::Win32 => RawWindow::Win32(handle as usize),
        Platform::AppKit => RawWindow::AppKit(handle as usize),
        Platform::X11 => RawWindow::X11(handle),
    }
}

pub const WS_CLIPCHILDREN: u32 = 0x0200_0000;
pub const WS_CLIPSIBLINGS: u32 = 0x0400_0000;
pub const WS_CHILD: u32 = 0x4000_0000;
pub const WS_CAPTION: u32 = 0x00C0_0000;
pub const WS_SIZEBOX: u32 = 0x0004_0000;
pub const WS_SYSMENU: u32 = 0x0008_0000;
pub const WS_MINIMIZEBOX: u32 = 0x0002_0000;
pub const WS_MAXIMIZEBOX: u32 = 0x0001_0000;

/// The style of a new window: a child window has no frame of its own; a
/// top-level one has a caption, a sizing border and the system buttons.
pub fn window_style(child: bool) -> (r: u32)
    ensures
        child ==> r == 0x4600_0000,
        !child ==> r == 0x06CF_0000,
{
    let clip = WS_CLIPCHILDREN | WS_CLIPSIBLINGS;
    let r = if child {
        clip | WS_CHILD
    } else {
        clip | WS_CAPTION | WS_SIZEBOX | WS_SYSMENU | WS_MINIMIZEBOX | WS_MAXIMIZEBOX
    };
    assert(0x0200_0000u32 | 0x0400_0000u32 | 0x4000_0000u32 == 0x4600_0000u32) by (bit_vector);
    assert(0x0200_0000u32 | 0x0400_0000u32 | 0x00C0_0000u32 | 0x0004_0000u32 | 0x0008_0000u32
        | 0x0002_0000u32 | 0x0001_0000u32 == 0x06CF_0000u32) by (bit_vector);
    r
}

/// A rectangle by its edges, in physical pixels.
#[derive(Clone, Copy, Debug, PartialEq, Eq, Structural)]
pub struct Edges {
    pub left: i32,
    pub top: i32,
    pub right: i32,
    pub bottom: i32,
}

/// The bounds of a region made of `rects`: the smallest left and top and
/// the largest right and bottom edges, or all zero for an empty region.
pub fn region_bounds(rects: &Vec<Edges>) -> (r: Edges)
    ensures
        rects@.len() == 0 ==> r == (Edges { left: 0, top: 0, right: 0, bottom: 0 }),
        rects@.len() > 0 ==> {
            &&& forall|i: int| 0 <= i < rects@.len() ==> r.left <= rects@[i].left && r.top
                <= rects@[i].top && rects@[i].right <= r.right && rects@[i].bottom <= r.bottom
            &&& exists|i: int| 0 <= i < rects@.len() && r.left == rects@[i].left
            &&& exists|i: int| 0 <= i < rects@.len() && r.top == rects@[i].top
            &&& exists|i: int| 0 <= i < rects@.len() && r.right == rects@[i].right
            &&& exists|i: int| 0 <= i < rects@.len() && r.bottom == rects@[i].bottom
        },
{
    if rects.len() == 0 {
        return Edges { left: 0, top: 0, right: 0, bottom: 0 };
    }
    let mut b = rects[0];
    let mut i: usize = 1;
    assert(b.left == rects@[0].left && b.top == rects@[0].top);
    assert(b.right == rects@[0].right && b.bottom == rects@[0].bottom);
    while i < rects.len()
        invariant
            1 <= i <= rects@.len(),
            forall|k: int| 0 <= k < i ==> b.left <= rects@[k].left && b.top <= rects@[k].top
                && rects@[k].right <= b.right && rects@[k].bottom <= b.bottom,
            exists|k: int| 0 <= k < i && b.left == rects@[k].left,
            exists|k: int| 0 <= k < i && b.top == rects@[k].top,
            exists|k: int| 0 <= k < i && b.right == rects@[k].right,
            exists|k: int| 0 <= k < i && b.bottom == rects@[k].bottom,
        decreases rects@.len() - i,
    {
        let e = rects[i];
        if e.left < b.left {
            b.left = e.left;
        }
        if e.top < b.top {
            b.top = e.top;
        }
        if e.right > b.right {
            b.right = e.right;
        }
        if e.bottom > b.bottom {
            b.bottom = e.bottom;
        }
        i = i + 1;
    }
    b
}

/// The DPI of the default scale.
pub const DEFAULT_DPI: u32 = 96;

/// The DPI to use for a window given what the platform query reported:
/// a failed query, or a zero, falls back to the default.
pub fn effective_dpi(reported: Option<u32>) -> (r: u32)
    ensures
        r == (match reported {
            Some(d) if d > 0 => d,
            _ => DEFAULT_DPI,
        }),
{
    match reported {
        Some(d) => if d > 0 {
            d
        } else {
            DEFAULT_DPI
        },
        None => DEFAULT_DPI,
    }
}

/// The bookkeeping of one native window: whether it is still open, what
/// its task and key are, and the state its input and paint handling keep.
pub struct WindowInner {
    pub platform: Platform,
    /// The native handle, `None` once the window has been torn down.
    pub native: Option<u64>,
    /// The native handle of the embedding parent, if any.
    pub parent: Option<u64>,
    pub visible: bool,
    pub cursor: Cursor,
    pub task: TaskId,
    pub key: Key,
    pub capture: PointerCapture,
    pub mouse_in_window: bool,
    pub expose: ExposeBatch,
    pub surface: Surface,
}

impl WindowInner {
    pub open spec fn wf(&self) -> bool {
        self.surface.wf()
    }

    /// Bookkeeping for a freshly created native window whose surface is
    /// `width` by `height` physical pixels.
    pub fn open(
        platform: Platform,
        native: u64,
        parent: Option<u64>,
        task: TaskId,
        key: Key,
        width: usize,
        height: usize,
    ) -> (r: WindowInner)
        requires
            width * height <= usize::MAX,
        ensures
            r.wf(),
            r.platform == platform,
            r.native == Some(native),
            r.parent == parent,
            !r.visible,
            r.cursor == Cursor::Arrow,
            r.task == task,
            r.key == key,
            r.capture.pressed == 0,
            !r.mouse_in_window,
            r.expose@ == Seq::<DamageRect>::empty(),
            r.surface.spec_width() == width,
            r.surface.spec_height() == height,
    {
        WindowInner {
            platform,
            native: Some(native),
            parent,
            visible: false,
            cursor: Cursor::Arrow,
            task,
            key,
            capture: PointerCapture::new(),
            mouse_in_window: false,
            expose: ExposeBatch::new(),
            surface: Surface::allocate(width, height),
        }
    }

    /// Everything that routes events and input state: unchanged by display
    /// requests.
    pub open spec fn same_routing(a: WindowInner, b: WindowInner) -> bool {
        &&& a.platform == b.platform
        &&& a.native == b.native
        &&& a.parent == b.parent
        &&& a.task == b.task
        &&& a.key == b.key
        &&& a.capture == b.capture
        &&& a.mouse_in_window == b.mouse_in_window
        &&& a.expose@ == b.expose@
    }

    pub open spec fn is_open(&self) -> bool {
        self.native.is_some()
    }

    /// Shows the window; a closed window stays as it is.
    pub fn show(&mut self)
        ensures
            final(self).visible == (old(self).visible || old(self).is_open()),
            Self::same_routing(*final(self), *old(self)),
            final(self).surface == old(self).surface,
            final(self).cursor == old(self).cursor,
    {
        if self.native.is_some() {
            self.visible = true;
        }
    }

    /// Hides the window; a closed window stays as it is.
    pub fn hide_window(&mut self)
        ensures
            final(self).visible == (old(self).visible && !old(self).is_open()),
            Self::same_routing(*final(self), *old(self)),
            final(self).surface == old(self).surface,
            final(self).cursor == old(self).cursor,
    {
        if self.native.is_some() {
            self.visible = false;
        }
    }

    /// Copies a framebuffer of `width` by `height` pixels into the window's
    /// surface, clipped to the overlap; the surface is never reallocated
    /// here. A closed window ignores it.
    pub fn present(&mut self, framebuffer: &[u32], width: usize, height: usize)
        requires
            old(self).wf(),
            width * height == framebuffer@.len(),
        ensures
            final(self).wf(),
            Self::same_routing(*final(self), *old(self)),
            final(self).visible == old(self).visible,
            final(self).cursor == old(self).cursor,
            final(self).surface.spec_width() == old(self).surface.spec_width(),
            final(self).surface.spec_height() == old(self).surface.spec_height(),
            !old(self).is_open() ==> final(self).surface == old(self).surface,
            old(self).is_open() ==> forall|y: int, x: int|
                0 <= y < old(self).surface.spec_height() && 0 <= x
                    < old(self).surface.spec_width() ==> final(self).surface@[#[trigger] row_major(
                    y,
                    x,
                    old(self).surface.spec_width() as int,
                )] == presented_pixel(
                    old(self).surface@,
                    old(self).surface.spec_width() as int,
                    framebuffer@,
                    width as int,
                    height as int,
                    y,
                    x,
                ),
    {
        if self.native.is_some() {
            let bitmap = Bitmap::new(framebuffer, width, height);
            self.surface.present(&bitmap);
        }
    }

    /// Like `present`, but only the pixels inside one of `rects` change.
    pub fn present_partial(
        &mut self,
        framebuffer: &[u32],
        width: usize,
        height: usize,
        rects: &Vec<Edges>,
    )
        requires
            old(self).wf(),
            width * height == framebuffer@.len(),
        ensures
            final(self).wf(),
            Self::same_routing(*final(self), *old(self)),
            final(self).visible == old(self).visible,
            final(self).cursor == old(self).cursor,
            final(self).surface.spec_width() == old(self).surface.spec_width(),
            final(self).surface.spec_height() == old(self).surface.spec_height(),
            !old(self).is_open() ==> final(self).surface == old(self).surface,
            old(self).is_open() ==> forall|y: int, x: int|
                0 <= y < old(self).surface.spec_height() && 0 <= x
                    < old(self).surface.spec_width() ==> final(self).surface@[#[trigger] row_major(
                    y,
                    x,
                    old(self).surface.spec_width() as int,
                )] == partial_pixel(
                    old(self).surface@,
                    old(self).surface.spec_width() as int,
                    framebuffer@,
                    width as int,
                    height as int,
                    rects@,
                    y,
                    x,
                ),
    {
        if self.native.is_some() {
            let bitmap = Bitmap::new(framebuffer, width, height);
            self.surface.present_partial(&bitmap, rects);
        }
    }

    /// Changes the cursor shown over the window.
    pub fn set_cursor(&mut self, cursor: Cursor)
        ensures
            final(self).cursor == cursor,
            Self::same_routing(*final(self), *old(self)),
            final(self).visible == old(self).visible,
            final(self).surface == old(self).surface,
    {
        self.cursor = cursor;
    }

    /// Tears the window down; returns the native handle to destroy the first
    /// time, and `None` on every later call. The surface's pixels are freed.
    pub fn close(&mut self) -> (r: Option<u64>)
        ensures
            r == old(self).native,
            final(self).native.is_none(),
            final(self).wf(),
            final(self).surface.spec_width() == 0,
            final(self).surface.spec_height() == 0,
            final(self).task == old(self).task,
            final(self).key == old(self).key,
            final(self).platform == old(self).platform,
            final(self).parent == old(self).parent,
    {
        let r = self.native;
        self.native = None;
        self.surface = Surface::allocate(0, 0);
        r
    }

    /// The native handle tagged with its platform, for embedding a child
    /// window; a torn-down window has none.
    pub fn as_raw(&self) -> (r: Result<RawWindow, Error>)
        ensures
            r == (match self.native {
                Some(h) => Ok::<RawWindow, Error>(raw_of_spec(self.platform, h)),
                None => Err(Error::WindowClosed),
            }),
    {
        match self.native {
            Some(h) => Ok(raw_of(self.platform, h)),
            None => Err(Error::WindowClosed),
        }
    }
}

} // verus!
