use crate::math::eclipse::Eclipse;
use crate::math::fixed::{ceil_cells, floor_cells, Fixed};
use crate::math::point::Point;
use crate::math::rect::Rect;
use crate::math::rgba::RGBA;
use crate::math::size::Size;
use crate::simulation::snapshot::SimSnapshot;
use vstd::prelude::*;

verus! {

/// Whole cells needed to span an extent of `raw` steps: none for an empty
/// extent, at most `u32::MAX`.
pub open spec fn cells_spanned(raw: int) -> int {
    let c = ceil_cells(raw);
    if c <= 0 {
        0
    } else if c > u32::MAX {
        u32::MAX as int
    } else {
        c
    }
}

/// Pixel width of a frame that shows `rect`: the cells it spans plus a margin of one.
pub open spec fn frame_width(rect: Rect<Fixed>) -> int {
    frame_span_plus_one(rect.max.x.raw - rect.min.x.raw)
}

/// Pixel height of a frame that shows `rect`.
pub open spec fn frame_height(rect: Rect<Fixed>) -> int {
    frame_span_plus_one(rect.max.y.raw - rect.min.y.raw)
}

/// The cells spanned by an extent of `raw` steps, plus one.
pub open spec fn frame_span_plus_one(raw: int) -> int {
    cells_spanned(raw) + 1
}

/// A frame for `rect` has at most `u32::MAX` bytes of pixels.
pub open spec fn frame_fits(rect: Rect<Fixed>) -> bool {
    rect.wf() && frame_width(rect) * frame_height(rect) * 4 <= u32::MAX
}

/// `buf` with the four bytes of the pixel of cell `p` set to `color`, where
/// that cell lies in the `w` by `h` frame whose first pixel is cell `(ox, oy)`.
pub open spec fn paint_cell(
    buf: Seq<u8>,
    w: int,
    h: int,
    ox: int,
    oy: int,
    p: Point<i64>,
    color: RGBA,
) -> Seq<u8> {
    let bx = p.x - ox;
    let by = p.y - oy;
    if 0 <= bx < w && 0 <= by < h {
        let idx = (by * w + bx) * 4;
        buf.update(idx, color.0@[0]).update(idx + 1, color.0@[1]).update(idx + 2, color.0@[2]).update(
            idx + 3,
            color.0@[3],
        )
    } else {
        buf
    }
}

/// `buf` with the cells painted in order.
pub open spec fn paint_cells(
    buf: Seq<u8>,
    w: int,
    h: int,
    ox: int,
    oy: int,
    cells: Seq<Point<i64>>,
    color: RGBA,
) -> Seq<u8>
    decreases cells.len(),
{
    if cells.len() == 0 {
        buf
    } else {
        paint_cell(paint_cells(buf, w, h, ox, oy, cells.drop_last(), color), w, h, ox, oy, cells.last(), color)
    }
}

/// A pixel buffer, four bytes (R, G, B, A) per cell, covering the visible
/// rectangle of the world, with the metrics published alongside it.
#[derive(Clone, Debug)]
pub struct SimFrame {
    rgba: Vec<u8>,
    size: Size<u32>,
    visible_rect: Rect<Fixed>,
    snapshot: SimSnapshot,
}

impl SimFrame {
    pub closed spec fn spec_pixels(&self) -> Seq<u8> {
        self.rgba@
    }

    /// The metrics published with this frame.
    pub closed spec fn spec_snapshot(&self) -> SimSnapshot {
        self.snapshot
    }

    pub closed spec fn spec_size(&self) -> Size<u32> {
        self.size
    }

    pub closed spec fn spec_visible_rect(&self) -> Rect<Fixed> {
        self.visible_rect
    }

    pub closed spec fn wf(&self) -> bool {
        &&& self.rgba@.len() == self.size.width * self.size.height * 4
        &&& self.size.width * self.size.height * 4 <= u32::MAX
        &&& self.visible_rect.wf()
    }

    /// A well-formed frame holds four bytes for each of its pixels.
    pub proof fn lemma_pixels_len(&self)
        requires
            self.wf(),
        ensures
            self.spec_pixels().len() == self.spec_size().width * self.spec_size().height * 4,
    {
    }

    /// Cell coordinates of the first pixel: the cell holding the visible rectangle's `min`.
    pub open spec fn origin_x(&self) -> int {
        floor_cells(self.spec_visible_rect().min.x.raw as int)
    }

    pub open spec fn origin_y(&self) -> int {
        floor_cells(self.spec_visible_rect().min.y.raw as int)
    }

    /// The pixels after painting `cells` in `color` onto `buf` within this frame.
    pub open spec fn painted(&self, buf: Seq<u8>, cells: Seq<Point<i64>>, color: RGBA) -> Seq<u8> {
        paint_cells(
            buf,
            self.spec_size().width as int,
            self.spec_size().height as int,
            self.origin_x(),
            self.origin_y(),
            cells,
            color,
        )
    }

    /// A zeroed frame of `width` by `height` pixels showing the empty rectangle at the origin.
    pub fn new(width: u32, height: u32) -> (r: SimFrame)
        requires
            width * height * 4 <= u32::MAX,
        ensures
            r.wf(),
            r.spec_size().width == width,
            r.spec_size().height == height,
            r.spec_pixels().len() == width * height * 4,
            forall|k: int| 0 <= k < r.spec_pixels().len() ==> r.spec_pixels()[k] == 0,
            r.spec_visible_rect().min.x.raw == 0 && r.spec_visible_rect().min.y.raw == 0,
            r.spec_visible_rect().max.x.raw == 0 && r.spec_visible_rect().max.y.raw == 0,
    {
        let len = width * height * 4;
        let mut rgba: Vec<u8> = Vec::new();
        let mut i: u32 = 0;
        while i < len
            invariant
                i <= len,
                rgba@.len() == i,
                forall|k: int| 0 <= k < i ==> rgba@[k] == 0,
            decreases len - i,
        {
            rgba.push(0);
            i = i + 1;
        }
        let origin = Point::new(Fixed::from_raw(0), Fixed::from_raw(0));
        SimFrame {
            rgba,
            size: Size::new(width, height),
            visible_rect: Rect::new(origin, origin),
            snapshot: SimSnapshot::default(),
        }
    }

    pub fn snapshot(&self) -> (r: &SimSnapshot)
        ensures
            *r == self.spec_snapshot(),
    {
        &self.snapshot
    }

    /// Attaches `snapshot` to the frame.
    pub fn set_snapshot(&mut self, snapshot: SimSnapshot)
        requires
            old(self).wf(),
        ensures
            final(self).wf(),
            final(self).spec_snapshot() == snapshot,
            final(self).spec_pixels() == old(self).spec_pixels(),
            final(self).spec_size() == old(self).spec_size(),
            final(self).spec_visible_rect() == old(self).spec_visible_rect(),
    {
        self.snapshot = snapshot;
    }

    pub fn size(&self) -> (r: Size<u32>)
        ensures
            r == self.spec_size(),
    {
        self.size
    }

    pub fn visible_rect(&self) -> (r: Rect<Fixed>)
        ensures
            r == self.spec_visible_rect(),
    {
        self.visible_rect
    }

    /// The pixels, row by row.
    pub fn pixels(&self) -> (r: &[u8])
        ensures
            r@ == self.spec_pixels(),
    {
        self.rgba.as_slice()
    }

    /// Shows `rect` from now on; the buffer keeps its size until resized.
    pub fn set_visible_rect(&mut self, rect: Rect<Fixed>)
        requires
            old(self).wf(),
            rect.wf(),
        ensures
            final(self).wf(),
            final(self).spec_visible_rect() == rect,
            final(self).spec_size() == old(self).spec_size(),
            final(self).spec_pixels() == old(self).spec_pixels(),
            final(self).spec_snapshot() == old(self).spec_snapshot(),
    {
        self.visible_rect = rect;
    }

    /// Sizes the buffer to the visible rectangle: the cells it spans plus
    /// one in each direction, at least one pixel each way. The buffer is
    /// reallocated, zeroed, only where that size changes.
    pub fn resize_to_visible_rect(&mut self)
        requires
            old(self).wf(),
            frame_fits(old(self).spec_visible_rect()),
        ensures
            final(self).wf(),
            final(self).spec_size().width == frame_width(old(self).spec_visible_rect()),
            final(self).spec_size().height == frame_height(old(self).spec_visible_rect()),
            final(self).spec_visible_rect() == old(self).spec_visible_rect(),
            final(self).spec_size() == old(self).spec_size() ==> final(self).spec_pixels() == old(self).spec_pixels(),
            final(self).spec_size() != old(self).spec_size() ==> forall|k: int|
                0 <= k < final(self).spec_pixels().len() ==> final(self).spec_pixels()[k] == 0,
            final(self).spec_snapshot() == old(self).spec_snapshot(),
    {
        proof {
            let w = frame_width(self.visible_rect) as int;
            let h = frame_height(self.visible_rect) as int;
            assert(1 <= w && 1 <= h);
            assert(w <= w * h * 4 && h <= w * h * 4) by (nonlinear_arith) requires 1 <= w, 1 <= h;
        }
        let width = self.visible_rect.width().ceil_int();
        let height = self.visible_rect.height().ceil_int();
        let width: u32 = if width <= 0 { 1 } else if width >= u32::MAX as i64 { u32::MAX } else { (width + 1) as u32 };
        let height: u32 = if height <= 0 { 1 } else if height >= u32::MAX as i64 { u32::MAX } else { (height + 1) as u32 };
        if self.size.width != width || self.size.height != height {
            let len = width * height * 4;
            let mut rgba: Vec<u8> = Vec::new();
            let mut i: u32 = 0;
            while i < len
                invariant
                    i <= len,
                    rgba@.len() == i,
                    forall|k: int| 0 <= k < i ==> rgba@[k] == 0,
                decreases len - i,
            {
                rgba.push(0);
                i = i + 1;
            }
            self.size = Size::new(width, height);
            self.rgba = rgba;
        }
    }

    /// Copies the pixels into `dest`, as many as both hold.
    pub fn write_rgba(&self, dest: &mut [u8])
        ensures
            ({
                let n = if self.spec_pixels().len() < old(dest)@.len() {
                    self.spec_pixels().len()
                } else {
                    old(dest)@.len()
                };
                final(dest)@ == self.spec_pixels().take(n as int) + old(dest)@.skip(n as int)
            }),
    {
        let n = if self.rgba.len() < dest.len() { self.rgba.len() } else { dest.len() };
        let mut i: usize = 0;
        while i < n
            invariant
                n <= self.rgba@.len(),
                n <= old(dest)@.len(),
                i <= n,
                dest@.len() == old(dest)@.len(),
                forall|k: int| 0 <= k < i ==> dest@[k] == self.rgba@[k],
                forall|k: int| n <= k < dest@.len() ==> dest@[k] == old(dest)@[k],
            decreases n - i,
        {
            dest[i] = self.rgba[i];
            i = i + 1;
        }
        assert(dest@ =~= self.rgba@.take(n as int) + old(dest)@.skip(n as int));
    }

    /// Paints the pixel of cell `p` where it lies in the frame.
    fn paint(&mut self, p: Point<i64>, color: RGBA)
        requires
            old(self).wf(),
            p.wf(),
        ensures
            final(self).wf(),
            final(self).spec_pixels() == paint_cell(
                old(self).spec_pixels(),
                old(self).spec_size().width as int,
                old(self).spec_size().height as int,
                old(self).origin_x(),
                old(self).origin_y(),
                p,
                color,
            ),
            final(self).spec_size() == old(self).spec_size(),
            final(self).spec_visible_rect() == old(self).spec_visible_rect(),
            final(self).spec_snapshot() == old(self).spec_snapshot(),
    {
        let ox = self.visible_rect.min.x.floor_int();
        let oy = self.visible_rect.min.y.floor_int();
        proof {
            crate::math::fixed::lemma_floor_bounds(self.visible_rect.min.x.raw as int);
            crate::math::fixed::lemma_floor_bounds(self.visible_rect.min.y.raw as int);
        }
        let bx = p.x - ox;
        let by = p.y - oy;
        let w = self.size.width as i64;
        let h = self.size.height as i64;
        if bx >= 0 && bx < w && by >= 0 && by < h {
            proof {
                assert(0 <= by * w + bx < w * h) by (nonlinear_arith)
                    requires 0 <= bx < w, 0 <= by < h;
                assert((by * w + bx) * 4 + 3 < w * h * 4) by (nonlinear_arith)
                    requires 0 <= by * w + bx < w * h;
            }
            let idx = ((by * w + bx) * 4) as usize;
            self.rgba.set(idx, color.0[0]);
            self.rgba.set(idx + 1, color.0[1]);
            self.rgba.set(idx + 2, color.0[2]);
            self.rgba.set(idx + 3, color.0[3]);
        }
    }

    /// Paints `cells` in order.
    fn paint_all(&mut self, cells: &Vec<Point<i64>>, color: RGBA)
        requires
            old(self).wf(),
            forall|i: int| 0 <= i < cells@.len() ==> (#[trigger] cells@[i]).wf(),
        ensures
            final(self).wf(),
            final(self).spec_pixels() == old(self).painted(old(self).spec_pixels(), cells@, color),
            final(self).spec_size() == old(self).spec_size(),
            final(self).spec_visible_rect() == old(self).spec_visible_rect(),
            final(self).spec_snapshot() == old(self).spec_snapshot(),
    {
        let mut i: usize = 0;
        while i < cells.len()
            invariant
                self.wf(),
                i <= cells@.len(),
                forall|k: int| 0 <= k < cells@.len() ==> (#[trigger] cells@[k]).wf(),
                self.spec_pixels() == old(self).painted(old(self).spec_pixels(), cells@.take(i as int), color),
                self.spec_size() == old(self).spec_size(),
                self.spec_visible_rect() == old(self).spec_visible_rect(),
                self.snapshot == old(self).snapshot,
            decreases cells@.len() - i,
        {
            let p = cells[i];
            assert(cells@.take(i + 1).drop_last() =~= cells@.take(i as int));
            self.paint(p, color);
            i = i + 1;
        }
        assert(cells@.take(cells@.len() as int) =~= cells@);
    }

    /// Paints the cell that holds `world_pos`.
    pub fn fill_cell(&mut self, world_pos: Point<Fixed>, color: RGBA)
        requires
            old(self).wf(),
            world_pos.wf(),
        ensures
            final(self).wf(),
            final(self).spec_pixels() == paint_cell(
                old(self).spec_pixels(),
                old(self).spec_size().width as int,
                old(self).spec_size().height as int,
                old(self).origin_x(),
                old(self).origin_y(),
                world_pos.spec_to_i64(),
                color,
            ),
            final(self).spec_size() == old(self).spec_size(),
            final(self).spec_visible_rect() == old(self).spec_visible_rect(),
            final(self).spec_snapshot() == old(self).spec_snapshot(),
    {
        let p = world_pos.to_i64();
        proof {
            crate::math::fixed::lemma_floor_bounds(world_pos.x.raw as int);
            crate::math::fixed::lemma_floor_bounds(world_pos.y.raw as int);
        }
        self.paint(p, color);
    }

    /// Paints the pixel of every cell whose centre lies inside the ellipse
    /// (see `Eclipse::covers_cell_centre`); the ellipse keeps its exact
    /// center and radii.
    pub fn fill_ellipse(&mut self, eclipse: Eclipse<Fixed>, color: RGBA)
        requires
            old(self).wf(),
            eclipse.samplable(),
        ensures
            final(self).wf(),
            final(self).spec_pixels() == old(self).painted(old(self).spec_pixels(), eclipse.sampled_cells(), color),
            final(self).spec_size() == old(self).spec_size(),
            final(self).spec_visible_rect() == old(self).spec_visible_rect(),
            final(self).spec_snapshot() == old(self).spec_snapshot(),
    {
        let cells = eclipse.sample_cells();
        self.paint_all(&cells, color);
    }

    /// Paints every cell of the part of `rect` that is visible, both of its
    /// corner cells included.
    pub fn fill_rect(&mut self, rect: Rect<Fixed>, color: RGBA)
        requires
            old(self).wf(),
            rect.wf(),
        ensures
            final(self).wf(),
            final(self).spec_pixels() == (match old(self).spec_visible_rect().spec_intersect(rect) {
                Some(part) => old(self).painted(old(self).spec_pixels(), part.spec_to_i64().cells(), color),
                None => old(self).spec_pixels(),
            }),
            final(self).spec_size() == old(self).spec_size(),
            final(self).spec_visible_rect() == old(self).spec_visible_rect(),
            final(self).spec_snapshot() == old(self).spec_snapshot(),
    {
        if let Some(part) = self.visible_rect.intersect(&rect) {
            proof {
                crate::math::fixed::lemma_floor_bounds(part.min.x.raw as int);
                crate::math::fixed::lemma_floor_bounds(part.min.y.raw as int);
                crate::math::fixed::lemma_floor_bounds(part.max.x.raw as int);
                crate::math::fixed::lemma_floor_bounds(part.max.y.raw as int);
            }
            let cells = part.to_i64().iter();
            self.paint_all(&cells, color);
        }
    }

    /// Sets every byte to zero.
    pub fn clear(&mut self)
        requires
            old(self).wf(),
        ensures
            final(self).wf(),
            final(self).spec_pixels().len() == old(self).spec_pixels().len(),
            forall|k: int| 0 <= k < final(self).spec_pixels().len() ==> final(self).spec_pixels()[k] == 0,
            final(self).spec_size() == old(self).spec_size(),
            final(self).spec_visible_rect() == old(self).spec_visible_rect(),
            final(self).spec_snapshot() == old(self).spec_snapshot(),
    {
        let mut i: usize = 0;
        while i < self.rgba.len()
            invariant
                self.rgba@.len() == old(self).rgba@.len(),
                self.size == old(self).size,
                self.visible_rect == old(self).visible_rect,
                self.snapshot == old(self).snapshot,
                old(self).wf(),
                forall|k: int| 0 <= k < i ==> self.rgba@[k] == 0,
            decreases self.rgba@.len() - i,
        {
            self.rgba.set(i, 0);
            i = i + 1;
        }
    }
}

impl Default for SimFrame {
    fn default() -> (r: SimFrame)
        ensures
            r.wf(),
            r.spec_size().width == 1 && r.spec_size().height == 1,
    {
        SimFrame::new(1, 1)
    }
}

} // verus!
