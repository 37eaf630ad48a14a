use vstd::prelude::*;

use crate::window::{region_bounds, Edges};

verus! {

/// Position of pixel `(x, y)` in a row-major buffer of rows `w` wide.
pub open spec fn row_major(y: int, x: int, w: int) -> int {
    y * w + x
}

proof fn lemma_row_major_bound(y: int, x: int, w: int, h: int)
    requires
        0 <= y < h,
        0 <= x < w,
    ensures
        0 <= row_major(y, x, w) < h * w,
        row_major(y, x, w) < w * h,
{
    assert(w * h == h * w) by (nonlinear_arith);
    assert(y * w + x < h * w) by (nonlinear_arith)
        requires
            0 <= y < h,
            0 <= x < w,
    ;
    assert(0 <= y * w) by (nonlinear_arith)
        requires
            0 <= y,
            0 <= w,
    ;
}

proof fn lemma_row_major_injective(y1: int, x1: int, y2: int, x2: int, w: int)
    requires
        0 <= y1,
        0 <= y2,
        0 <= x1 < w,
        0 <= x2 < w,
        y1 != y2 || x1 != x2,
    ensures
        row_major(y1, x1, w) != row_major(y2, x2, w),
{
    if y1 < y2 {
        assert(y1 * w + x1 < y2 * w + x2) by (nonlinear_arith)
            requires
                y1 < y2,
                0 <= x1 < w,
                0 <= x2,
        ;
    } else if y2 < y1 {
        assert(y2 * w + x2 < y1 * w + x1) by (nonlinear_arith)
            requires
                y2 < y1,
                0 <= x2 < w,
                0 <= x1,
        ;
    }
}

/// Whether pixel `(x, y)` lies inside one of `rects` (right and bottom edges
/// excluded).
pub open spec fn covered(rects: Seq<Edges>, x: int, y: int) -> bool {
    exists|i: int|
        0 <= i < rects.len() && (#[trigger] rects[i]).left <= x < rects[i].right && rects[i].top
            <= y < rects[i].bottom
}

/// Pixel `(x, y)` after presenting a bitmap clipped to `rects` as well as to
/// the overlap.
pub open spec fn partial_pixel(
    old: Seq<u32>,
    sw: int,
    data: Seq<u32>,
    bw: int,
    bh: int,
    rects: Seq<Edges>,
    y: int,
    x: int,
) -> u32 {
    if y < bh && x < bw && covered(rects, x, y) {
        data[row_major(y, x, bw)]
    } else {
        old[row_major(y, x, sw)]
    }
}

fn covers(rects: &Vec<Edges>, x: usize, y: usize) -> (r: bool)
    ensures
        r == covered(rects@, x as int, y as int),
{
    if x > 0x7fff_ffff || y > 0x7fff_ffff {
        return false;
    }
    let xi = x as i64;
    let yi = y as i64;
    let mut i: usize = 0;
    while i < rects.len()
        invariant
            i <= rects@.len(),
            x <= 0x7fff_ffff,
            y <= 0x7fff_ffff,
            xi == x,
            yi == y,
            forall|k: int|
                0 <= k < i ==> !((#[trigger] rects@[k]).left <= x < rects@[k].right
                    && rects@[k].top <= y < rects@[k].bottom),
        decreases rects@.len() - i,
    {
        let e = rects[i];
        if (e.left as i64) <= xi && xi < (e.right as i64) && (e.top as i64) <= yi && yi < (
        e.bottom as i64) {
            return true;
        }
        i = i + 1;
    }
    false
}

/// A caller-supplied block of pixels, `width` by `height`, row-major.
pub struct Bitmap<'a> {
    data: &'a [u32],
    width: usize,
    height: usize,
}

impl<'a> Bitmap<'a> {
    pub closed spec fn spec_data(&self) -> Seq<u32> {
        self.data@
    }

    pub closed spec fn spec_width(&self) -> usize {
        self.width
    }

    pub closed spec fn spec_height(&self) -> usize {
        self.height
    }

    /// The dimensions must describe the data exactly.
    pub fn new(data: &'a [u32], width: usize, height: usize) -> (r: Bitmap<'a>)
        requires
            width * height == data@.len(),
        ensures
            r.spec_data() == data@,
            r.spec_width() == width,
            r.spec_height() == height,
    {
        Bitmap { data, width, height }
    }

    pub fn data(&self) -> (r: &'a [u32])
        ensures
            r@ == self.spec_data(),
    {
        self.data
    }

    pub fn width(&self) -> (r: usize)
        ensures
            r == self.spec_width(),
    {
        self.width
    }

    pub fn height(&self) -> (r: usize)
        ensures
            r == self.spec_height(),
    {
        self.height
    }

    pub open spec fn wf(&self) -> bool {
        self.spec_width() * self.spec_height() == self.spec_data().len()
    }
}

/// The presentation surface of a window: a pixel buffer at physical size.
pub struct Surface {
    width: usize,
    height: usize,
    pixels: Vec<u32>,
}

/// Pixel `(x, y)` of a surface after copying a bitmap into it, clipped to the
/// overlap of the two.
pub open spec fn presented_pixel(
    old: Seq<u32>,
    sw: int,
    data: Seq<u32>,
    bw: int,
    bh: int,
    y: int,
    x: int,
) -> u32 {
    if y < bh && x < bw {
        data[row_major(y, x, bw)]
    } else {
        old[row_major(y, x, sw)]
    }
}

impl Surface {
    pub closed spec fn spec_width(&self) -> usize {
        self.width
    }

    pub closed spec fn spec_height(&self) -> usize {
        self.height
    }

    pub closed spec fn view(&self) -> Seq<u32> {
        self.pixels@
    }

    pub open spec fn wf(&self) -> bool {
        self@.len() == self.spec_width() * self.spec_height()
    }

    /// Allocates a cleared surface of the given physical size.
    pub fn allocate(width: usize, height: usize) -> (r: Surface)
        requires
            width * height <= usize::MAX,
        ensures
            r.wf(),
            r.spec_width() == width,
            r.spec_height() == height,
            forall|k: int| 0 <= k < r@.len() ==> r@[k] == 0,
    {
        let n: usize = width * height;
        let mut pixels: Vec<u32> = Vec::new();
        let mut i: usize = 0;
        while i < n
            invariant
                i <= n,
                pixels@.len() == i,
                forall|k: int| 0 <= k < i ==> pixels@[k] == 0,
            decreases n - i,
        {
            pixels.push(0);
            i = i + 1;
        }
        Surface { width, height, pixels }
    }

    pub fn width(&self) -> (r: usize)
        ensures
            r == self.spec_width(),
    {
        self.width
    }

    pub fn height(&self) -> (r: usize)
        ensures
            r == self.spec_height(),
    {
        self.height
    }

    pub fn pixels(&self) -> (r: &Vec<u32>)
        ensures
            r@ == self@,
    {
        &self.pixels
    }

    /// Brings the surface to the given size, reallocating only when the size
    /// differs. Returns whether it reallocated.
    pub fn ensure_size(&mut self, width: usize, height: usize) -> (r: bool)
        requires
            old(self).wf(),
            width * height <= usize::MAX,
        ensures
            final(self).wf(),
            final(self).spec_width() == width,
            final(self).spec_height() == height,
            r == (old(self).spec_width() != width || old(self).spec_height() != height),
            !r ==> final(self)@ == old(self)@,
    {
        if self.width == width && self.height == height {
            false
        } else {
            *self = Surface::allocate(width, height);
            true
        }
    }

    /// Copies a bitmap into the surface row by row, clipped to the smaller
    /// width and the smaller height of the two; the surface keeps its size.
    pub fn present(&mut self, bitmap: &Bitmap)
        requires
            old(self).wf(),
            bitmap.wf(),
        ensures
            final(self).wf(),
            final(self).spec_width() == old(self).spec_width(),
            final(self).spec_height() == old(self).spec_height(),
            forall|y: int, x: int|
                0 <= y < old(self).spec_height() && 0 <= x < old(self).spec_width()
                    ==> final(self)@[#[trigger] row_major(y, x, old(self).spec_width() as int)]
                    == presented_pixel(
                    old(self)@,
                    old(self).spec_width() as int,
                    bitmap.spec_data(),
                    bitmap.spec_width() as int,
                    bitmap.spec_height() as int,
                    y,
                    x,
                ),
    {
        let sw = self.width;
        let sh = self.height;
        let bw = bitmap.width();
        let bh = bitmap.height();
        let data = bitmap.data();
        let cw = if bw < sw {
            bw
        } else {
            sw
        };
        let ch = if bh < sh {
            bh
        } else {
            sh
        };
        let ghost old_px = self.pixels@;
        let n: usize = self.pixels.len();
        let m: usize = data.len();
        let mut y: usize = 0;
        while y < ch
            invariant
                y <= ch,
                cw <= sw,
                cw <= bw,
                ch <= sh,
                ch <= bh,
                sw == self.width,
                sh == self.height,
                sw == old(self).spec_width(),
                sh == old(self).spec_height(),
                old_px == old(self)@,
                data@ == bitmap.spec_data(),
                bw == bitmap.spec_width(),
                bh == bitmap.spec_height(),
                bw * bh == data@.len(),
                self.pixels@.len() == sw * sh,
                n == sw * sh,
                m == bw * bh,
                forall|yy: int, xx: int|
                    0 <= yy < sh && 0 <= xx < sw ==> self.pixels@[#[trigger] row_major(
                        yy,
                        xx,
                        sw as int,
                    )] == if yy < y && xx < cw {
                        data@[row_major(yy, xx, bw as int)]
                    } else {
                        old_px[row_major(yy, xx, sw as int)]
                    },
            decreases ch - y,
        {
            let mut x: usize = 0;
            while x < cw
                invariant
                    y < ch,
                    x <= cw,
                    cw <= sw,
                    cw <= bw,
                    ch <= sh,
                    ch <= bh,
                    sw == self.width,
                    sh == self.height,
                    data@ == bitmap.spec_data(),
                    bw * bh == data@.len(),
                    self.pixels@.len() == sw * sh,
                    n == sw * sh,
                    m == bw * bh,
                    forall|yy: int, xx: int|
                        0 <= yy < sh && 0 <= xx < sw ==> self.pixels@[#[trigger] row_major(
                            yy,
                            xx,
                            sw as int,
                        )] == if (yy < y || (yy == y && xx < x)) && xx < cw {
                            data@[row_major(yy, xx, bw as int)]
                        } else {
                            old_px[row_major(yy, xx, sw as int)]
                        },
                decreases cw - x,
            {
                proof {
                    lemma_row_major_bound(y as int, x as int, sw as int, sh as int);
                    lemma_row_major_bound(y as int, x as int, bw as int, bh as int);
                }
                let d = y * sw + x;
                let s = y * bw + x;
                let v = data[s];
                self.pixels.set(d, v);
                proof {
                    assert forall|yy: int, xx: int|
                        0 <= yy < sh && 0 <= xx < sw implies self.pixels@[#[trigger] row_major(
                            yy,
                            xx,
                            sw as int,
                        )] == if (yy < y || (yy == y && xx < x + 1)) && xx < cw {
                            data@[row_major(yy, xx, bw as int)]
                        } else {
                            old_px[row_major(yy, xx, sw as int)]
                        } by {
                        lemma_row_major_bound(yy, xx, sw as int, sh as int);
                        if yy != y || xx != x {
                            lemma_row_major_injective(yy, xx, y as int, x as int, sw as int);
                        }
                    }
                }
                x = x + 1;
            }
            y = y + 1;
        }
    }
    /// Copies a bitmap into the surface like `present`, but only the pixels
    /// inside one of `rects`; everything else keeps its value.
    pub fn present_partial(&mut self, bitmap: &Bitmap, rects: &Vec<Edges>)
        requires
            old(self).wf(),
            bitmap.wf(),
        ensures
            final(self).wf(),
            final(self).spec_width() == old(self).spec_width(),
            final(self).spec_height() == old(self).spec_height(),
            forall|y: int, x: int|
                0 <= y < old(self).spec_height() && 0 <= x < old(self).spec_width()
                    ==> final(self)@[#[trigger] row_major(y, x, old(self).spec_width() as int)]
                    == partial_pixel(
                    old(self)@,
                    old(self).spec_width() as int,
                    bitmap.spec_data(),
                    bitmap.spec_width() as int,
                    bitmap.spec_height() as int,
                    rects@,
                    y,
                    x,
                ),
    {
        let sw = self.width;
        let sh = self.height;
        let bw = bitmap.width();
        let bh = bitmap.height();
        let data = bitmap.data();
        let bounds = region_bounds(rects);
        let cw = if bw < sw {
            bw
        } else {
            sw
        };
        let ch = if bh < sh {
            bh
        } else {
            sh
        };
        let ghost old_px = self.pixels@;
        let n: usize = self.pixels.len();
        let m: usize = data.len();
        let mut y: usize = 0;
        while y < ch
            invariant
                y <= ch,
                cw <= sw,
                cw <= bw,
                ch <= sh,
                ch <= bh,
                sw == self.width,
                sh == self.height,
                sw == old(self).spec_width(),
                sh == old(self).spec_height(),
                old_px == old(self)@,
                data@ == bitmap.spec_data(),
                bw == bitmap.spec_width(),
                bh == bitmap.spec_height(),
                bw * bh == data@.len(),
                self.pixels@.len() == sw * sh,
                n == sw * sh,
                m == bw * bh,
                forall|i: int|
                    0 <= i < rects@.len() ==> bounds.top <= (#[trigger] rects@[i]).top
                        && rects@[i].bottom <= bounds.bottom,
                forall|yy: int, xx: int|
                    0 <= yy < sh && 0 <= xx < sw ==> self.pixels@[#[trigger] row_major(
                        yy,
                        xx,
                        sw as int,
                    )] == if yy < y && xx < cw && covered(rects@, xx, yy) {
                        data@[row_major(yy, xx, bw as int)]
                    } else {
                        old_px[row_major(yy, xx, sw as int)]
                    },
            decreases ch - y,
        {
            let in_bounds = rects.len() > 0 && y <= 0x7fff_ffff && bounds.top as i64 <= y as i64
                && (y as i64) < bounds.bottom as i64;
            if !in_bounds {
                assert forall|xx: int| !covered(rects@, xx, y as int) by {
                    if covered(rects@, xx, y as int) {
                        let i = choose|i: int|
                            0 <= i < rects@.len() && (#[trigger] rects@[i]).left <= xx
                                < rects@[i].right && rects@[i].top <= y < rects@[i].bottom;
                        assert(bounds.top <= rects@[i].top && rects@[i].bottom <= bounds.bottom);
                        assert(rects@.len() > 0);
                    }
                }
            } else {
                let mut x: usize = 0;
                while x < cw
                    invariant
                        y < ch,
                        x <= cw,
                        cw <= sw,
                        cw <= bw,
                        ch <= sh,
                        ch <= bh,
                        sw == self.width,
                        sh == self.height,
                        data@ == bitmap.spec_data(),
                        bw * bh == data@.len(),
                        self.pixels@.len() == sw * sh,
                        n == sw * sh,
                        m == bw * bh,
                        forall|yy: int, xx: int|
                            0 <= yy < sh && 0 <= xx < sw ==> self.pixels@[#[trigger] row_major(
                                yy,
                                xx,
                                sw as int,
                            )] == if (yy < y || (yy == y && xx < x)) && xx < cw && covered(
                                rects@,
                                xx,
                                yy,
                            ) {
                                data@[row_major(yy, xx, bw as int)]
                            } else {
                                old_px[row_major(yy, xx, sw as int)]
                            },
                    decreases cw - x,
                {
                    if covers(rects, x, y) {
                        proof {
                            lemma_row_major_bound(y as int, x as int, sw as int, sh as int);
                            lemma_row_major_bound(y as int, x as int, bw as int, bh as int);
                        }
                        let d = y * sw + x;
                        let s = y * bw + x;
                        let v = data[s];
                        self.pixels.set(d, v);
                        proof {
                            assert forall|yy: int, xx: int|
                                0 <= yy < sh && 0 <= xx < sw implies self.pixels@[#[trigger] row_major(
                                    yy,
                                    xx,
                                    sw as int,
                                )] == if (yy < y || (yy == y && xx < x + 1)) && xx < cw && covered(
                                    rects@,
                                    xx,
                                    yy,
                                ) {
                                    data@[row_major(yy, xx, bw as int)]
                                } else {
                                    old_px[row_major(yy, xx, sw as int)]
                                } by {
                                lemma_row_major_bound(yy, xx, sw as int, sh as int);
                                if yy != y || xx != x {
                                    lemma_row_major_injective(yy, xx, y as int, x as int, sw as int);
                                }
                            }
                        }
                    }
                    x = x + 1;
                }
            }
            y = y + 1;
        }
    }
}

} // verus!
