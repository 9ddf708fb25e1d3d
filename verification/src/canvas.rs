//! The canvas and the icon compositor: an RGB pixel buffer, an RGBA icon,
//! and the alpha blend that places an icon onto the canvas in place.

use vstd::prelude::*;
use vstd::pervasive::VecAdditionalExecFns;

verus! {

/// A mutable rectangular buffer of opaque RGB pixels, stored row-major,
/// three bytes per pixel.
pub struct Canvas {
    pub width: u32,
    pub height: u32,
    pub data: Vec<u8>,
}

/// A decoded icon already resized to a square footprint: RGBA pixels,
/// stored row-major, four bytes per pixel.
pub struct Icon {
    pub size: u32,
    pub data: Vec<u8>,
}

/// Index in a row-major buffer with `chans` bytes per pixel and `width`
/// pixels per row of channel `ch` of pixel `(x, y)`.
pub open spec fn buf_idx(chans: int, width: int, x: int, y: int, ch: int) -> int {
    chans * (y * width + x) + ch
}

impl Canvas {
    /// The byte buffer holds exactly three bytes for each pixel.
    pub open spec fn wf(&self) -> bool {
        self.data@.len() == 3 * (self.width as int) * (self.height as int)
    }

    /// True when `(x, y)` is a pixel of this canvas.
    pub open spec fn valid_xy(&self, x: int, y: int) -> bool {
        0 <= x < self.width && 0 <= y < self.height
    }

    /// Channel `ch` (0 red, 1 green, 2 blue) of pixel `(x, y)`.
    pub open spec fn px(&self, x: int, y: int, ch: int) -> u8 {
        self.data@[buf_idx(3, self.width as int, x, y, ch)]
    }
}

impl Icon {
    /// The byte buffer holds exactly four bytes for each pixel.
    pub open spec fn wf(&self) -> bool {
        self.data@.len() == 4 * (self.size as int) * (self.size as int)
    }

    /// Channel `ch` (0 red, 1 green, 2 blue, 3 alpha) of pixel `(ix, iy)`.
    pub open spec fn ch(&self, ix: int, iy: int, ch: int) -> u8 {
        self.data@[buf_idx(4, self.size as int, ix, iy, ch)]
    }

    /// The alpha channel of pixel `(ix, iy)`.
    pub open spec fn alpha(&self, ix: int, iy: int) -> u8 {
        self.ch(ix, iy, 3)
    }
}

/// Channel indexes of a pixel lie inside the buffer.
proof fn lemma_buf_idx_bound(chans: int, w: int, h: int, x: int, y: int, ch: int)
    requires
        chans > 0,
        0 <= x < w,
        0 <= y < h,
        0 <= ch < chans,
    ensures
        0 <= y * w,
        y * w + x < w * h,
        0 <= buf_idx(chans, w, x, y, ch) < chans * w * h,
{
    assert(0 <= y * w && y * w + x < w * h) by (nonlinear_arith)
        requires 0 <= x < w && 0 <= y < h;
    assert(0 <= chans * (y * w + x) + ch < chans * w * h) by (nonlinear_arith)
        requires chans > 0 && 0 <= ch < chans && 0 <= y * w + x && y * w + x < w * h;
}

/// Distinct channel positions have distinct buffer indexes.
proof fn lemma_buf_idx_injective(
    chans: int,
    w: int,
    x: int,
    y: int,
    ch: int,
    x2: int,
    y2: int,
    ch2: int,
)
    requires
        chans > 0,
        0 <= x < w,
        0 <= x2 < w,
        0 <= y,
        0 <= y2,
        0 <= ch < chans,
        0 <= ch2 < chans,
        !(x == x2 && y == y2 && ch == ch2),
    ensures
        buf_idx(chans, w, x, y, ch) != buf_idx(chans, w, x2, y2, ch2),
{
    assert(chans * (y * w + x) + ch != chans * (y2 * w + x2) + ch2) by (nonlinear_arith)
        requires
            chans > 0 && 0 <= x < w && 0 <= x2 < w && 0 <= y && 0 <= y2 && 0 <= ch < chans && 0
                <= ch2 < chans && !(x == x2 && y == y2 && ch == ch2);
}

/// Standard "over" blending of one channel: the source channel weighted by
/// its alpha over the opaque destination channel, with truncating division.
pub open spec fn blend_channel(dst: u8, src: u8, alpha: u8) -> u8 {
    ((((src as int) * (alpha as int)) + ((dst as int) * (255 - (alpha as int)))) / 255) as u8
}

/// A fully opaque source channel replaces the destination channel.
pub proof fn lemma_blend_opaque(dst: u8, src: u8)
    ensures
        blend_channel(dst, src, 255) == src,
{
    assert(((src as int) * 255 + (dst as int) * 0) / 255 == src as int) by (nonlinear_arith);
}

/// A fully transparent source channel leaves the destination channel as it
/// was.
pub proof fn lemma_blend_transparent(dst: u8, src: u8)
    ensures
        blend_channel(dst, src, 0) == dst,
{
    assert(((src as int) * 0 + (dst as int) * 255) / 255 == dst as int) by (nonlinear_arith);
}

/// Blends one source channel with alpha over one opaque destination
/// channel.
pub fn blend_channel_exec(dst: u8, src: u8, alpha: u8) -> (r: u8)
    ensures
        r == blend_channel(dst, src, alpha),
{
    proof {
        assert(0 <= (src as int) * (alpha as int) && 0 <= (dst as int) * (255 - (alpha as int))
            && (src as int) * (alpha as int) + (dst as int) * (255 - (alpha as int)) <= 255 * 255)
            by (nonlinear_arith)
            requires 0 <= src <= 255 && 0 <= dst <= 255 && 0 <= alpha <= 255;
    }
    let num: u32 = (src as u32) * (alpha as u32) + (dst as u32) * (255 - (alpha as u32));
    let q: u32 = num / 255;
    q as u8
}

impl Canvas {
    /// Builds a canvas from raw RGB bytes; `None` when the buffer does not
    /// hold exactly three bytes per pixel, or a dimension exceeds the
    /// 16-bit range the animation container can address.
    pub fn from_raw(width: u32, height: u32, data: Vec<u8>) -> (r: Option<Canvas>)
        ensures
            match r {
                Some(c) => c.wf() && c.width == width && c.height == height && c.data@ == data@,
                None => width > 0xFFFF || height > 0xFFFF || data@.len() != 3 * (width as int) * (
                height as int),
            },
    {
        if width > 0xFFFF || height > 0xFFFF {
            return None;
        }
        proof {
            assert(0 <= 3 * (width as int) * (height as int) <= 3 * 0xFFFF * 0xFFFF)
                by (nonlinear_arith)
                requires 0 <= width <= 0xFFFF && 0 <= height <= 0xFFFF;
        }
        let need: u64 = 3u64 * (width as u64) * (height as u64);
        if (data.len() as u64) != need {
            return None;
        }
        Some(Canvas { width, height, data })
    }

    /// Reads pixel `(x, y)` as an RGB triple.
    pub fn get_px(&self, x: u32, y: u32) -> (r: (u8, u8, u8))
        requires
            self.wf(),
            x < self.width,
            y < self.height,
        ensures
            r.0 == self.px(x as int, y as int, 0),
            r.1 == self.px(x as int, y as int, 1),
            r.2 == self.px(x as int, y as int, 2),
    {
        let n: usize = self.data.len();
        proof {
            assert(n <= usize::MAX);
            lemma_buf_idx_bound(3, self.width as int, self.height as int, x as int, y as int, 2);
        }
        let base: usize = 3 * ((y as usize) * (self.width as usize) + (x as usize));
        (self.data[base], self.data[base + 1], self.data[base + 2])
    }

    /// Writes pixel `(x, y)` as an RGB triple; every other pixel keeps its
    /// value.
    pub fn set_px(&mut self, x: u32, y: u32, p: (u8, u8, u8))
        requires
            old(self).wf(),
            x < old(self).width,
            y < old(self).height,
        ensures
            final(self).wf(),
            final(self).width == old(self).width,
            final(self).height == old(self).height,
            final(self).px(x as int, y as int, 0) == p.0,
            final(self).px(x as int, y as int, 1) == p.1,
            final(self).px(x as int, y as int, 2) == p.2,
            forall|x2: int, y2: int, ch: int|
                old(self).valid_xy(x2, y2) && 0 <= ch < 3 && !(x2 == x && y2 == y)
                    ==> final(self).px(x2, y2, ch) == old(self).px(x2, y2, ch),
    {
        let n: usize = self.data.len();
        proof {
            lemma_buf_idx_bound(3, self.width as int, self.height as int, x as int, y as int, 2);
        }
        let base: usize = 3 * ((y as usize) * (self.width as usize) + (x as usize));
        self.data.set(base, p.0);
        self.data.set(base + 1, p.1);
        self.data.set(base + 2, p.2);
        proof {
            let w = self.width as int;
            assert(base == buf_idx(3, w, x as int, y as int, 0));
            assert(base + 1 == buf_idx(3, w, x as int, y as int, 1));
            assert(base + 2 == buf_idx(3, w, x as int, y as int, 2));
            assert forall|x2: int, y2: int, ch: int|
                old(self).valid_xy(x2, y2) && 0 <= ch < 3 && !(x2 == x as int && y2
                    == y as int) implies self.px(x2, y2, ch) == old(self).px(x2, y2, ch) by {
                lemma_buf_idx_bound(3, w, self.height as int, x2, y2, ch);
                lemma_buf_idx_injective(3, w, x2, y2, ch, x as int, y as int, 0);
                lemma_buf_idx_injective(3, w, x2, y2, ch, x as int, y as int, 1);
                lemma_buf_idx_injective(3, w, x2, y2, ch, x as int, y as int, 2);
            }
        }
    }

    /// Returns an independent copy of this canvas.
    pub fn duplicate(&self) -> (r: Canvas)
        ensures
            r.width == self.width,
            r.height == self.height,
            r.data@ == self.data@,
    {
        let mut data: Vec<u8> = Vec::new();
        let n: usize = self.data.len();
        let mut i: usize = 0;
        while i < n
            invariant
                i <= n,
                n == self.data@.len(),
                data@ == self.data@.subrange(0, i as int),
            decreases n - i,
        {
            data.push(self.data[i]);
            proof {
                assert(data@ =~= self.data@.subrange(0, i as int + 1));
            }
            i = i + 1;
        }
        proof {
            assert(data@ =~= self.data@);
        }
        Canvas { width: self.width, height: self.height, data }
    }
}

impl Icon {
    /// Builds an icon from raw RGBA bytes; `None` when the buffer does not
    /// hold exactly four bytes per pixel, or the footprint exceeds the
    /// 16-bit range.
    pub fn from_raw(size: u32, data: Vec<u8>) -> (r: Option<Icon>)
        ensures
            match r {
                Some(ic) => ic.wf() && ic.size == size && ic.data@ == data@,
                None => size > 0xFFFF || data@.len() != 4 * (size as int) * (size as int),
            },
    {
        if size > 0xFFFF {
            return None;
        }
        proof {
            assert(0 <= 4 * (size as int) * (size as int) <= 4 * 0xFFFF * 0xFFFF)
                by (nonlinear_arith)
                requires 0 <= size <= 0xFFFF;
        }
        let need: u64 = 4u64 * (size as u64) * (size as u64);
        if (data.len() as u64) != need {
            return None;
        }
        Some(Icon { size, data })
    }
}

/// An icon whose every pixel is fully opaque.
pub open spec fn fully_opaque(icon: Icon) -> bool {
    forall|ix: int, iy: int|
        0 <= ix < icon.size && 0 <= iy < icon.size ==> icon.alpha(ix, iy) == 255
}

/// An icon whose every pixel is fully transparent.
pub open spec fn fully_transparent(icon: Icon) -> bool {
    forall|ix: int, iy: int|
        0 <= ix < icon.size && 0 <= iy < icon.size ==> icon.alpha(ix, iy) == 0
}

/// True when canvas pixel `(x, y)` lies under `icon` anchored at
/// `(x0, y0)`.
pub open spec fn in_footprint(icon: Icon, x0: int, y0: int, x: int, y: int) -> bool {
    x0 <= x < x0 + icon.size && y0 <= y < y0 + icon.size
}

/// Channel `ch` of pixel `(x, y)` after `icon`, anchored at `(x0, y0)`, is
/// blended over canvas `c0`.
pub open spec fn blended_px(c0: Canvas, icon: Icon, x0: int, y0: int, x: int, y: int, ch: int) -> u8 {
    blend_channel(c0.px(x, y, ch), icon.ch(x - x0, y - y0, ch), icon.alpha(x - x0, y - y0))
}

/// Relation between a canvas before and after `icon` is placed with its
/// top-left corner at `(x0, y0)`: footprint pixels are blended, every
/// other pixel keeps its value.
pub open spec fn places_to(c0: Canvas, c1: Canvas, icon: Icon, x0: int, y0: int) -> bool {
    &&& c1.width == c0.width
    &&& c1.height == c0.height
    &&& c1.data@.len() == c0.data@.len()
    &&& forall|x: int, y: int, ch: int|
        c0.valid_xy(x, y) && 0 <= ch < 3 ==> c1.px(x, y, ch) == (if in_footprint(
            icon,
            x0,
            y0,
            x,
            y,
        ) {
            blended_px(c0, icon, x0, y0, x, y, ch)
        } else {
            c0.px(x, y, ch)
        })
}

impl Canvas {
    /// Alpha-blends `icon` onto this canvas in place, with the icon's
    /// top-left corner at `(x0, y0)`. Canvas pixels outside the icon's
    /// footprint are untouched.
    pub fn place_icon(&mut self, icon: &Icon, x0: u32, y0: u32)
        requires
            old(self).wf(),
            icon.wf(),
            x0 + icon.size <= old(self).width,
            y0 + icon.size <= old(self).height,
        ensures
            final(self).wf(),
            places_to(*old(self), *final(self), *icon, x0 as int, y0 as int),
    {
        let size: u32 = icon.size;
        let mut iy: u32 = 0;
        while iy < size
            invariant
                iy <= size,
                icon.wf(),
                size == icon.size,
                x0 + size <= old(self).width,
                y0 + size <= old(self).height,
                self.wf(),
                self.width == old(self).width,
                self.height == old(self).height,
                forall|x: int, y: int, ch: int|
                    old(self).valid_xy(x, y) && 0 <= ch < 3 ==> self.px(x, y, ch) == (
                    if in_footprint(*icon, x0 as int, y0 as int, x, y) && y < y0 + iy {
                        blended_px(*old(self), *icon, x0 as int, y0 as int, x, y, ch)
                    } else {
                        old(self).px(x, y, ch)
                    }),
            decreases size - iy,
        {
            let mut ix: u32 = 0;
            while ix < size
                invariant
                    ix <= size,
                    iy < size,
                    icon.wf(),
                    size == icon.size,
                    x0 + size <= old(self).width,
                    y0 + size <= old(self).height,
                    self.wf(),
                    self.width == old(self).width,
                    self.height == old(self).height,
                    forall|x: int, y: int, ch: int|
                        old(self).valid_xy(x, y) && 0 <= ch < 3 ==> self.px(x, y, ch) == (
                        if in_footprint(*icon, x0 as int, y0 as int, x, y) && (y < y0 + iy || (y
                            == y0 + iy && x < x0 + ix)) {
                            blended_px(*old(self), *icon, x0 as int, y0 as int, x, y, ch)
                        } else {
                            old(self).px(x, y, ch)
                        }),
                decreases size - ix,
            {
                let x: u32 = x0 + ix;
                let y: u32 = y0 + iy;
                let s = icon.px4(ix, iy);
                let d = self.get_px(x, y);
                let r0 = blend_channel_exec(d.0, s.0, s.3);
                let r1 = blend_channel_exec(d.1, s.1, s.3);
                let r2 = blend_channel_exec(d.2, s.2, s.3);
                self.set_px(x, y, (r0, r1, r2));
                ix = ix + 1;
            }
            iy = iy + 1;
        }
    }
}

/// Every buffer index is the index of some channel of some pixel.
proof fn lemma_buf_idx_decode(chans: int, w: int, h: int, k: int)
    requires
        chans > 0,
        w > 0,
        h > 0,
        0 <= k < chans * w * h,
    ensures
        exists|x: int, y: int, ch: int|
            0 <= x < w && 0 <= y < h && 0 <= ch < chans && k == buf_idx(chans, w, x, y, ch),
{
    let p = k / chans;
    let ch = k % chans;
    let x = p % w;
    let y = p / w;
    assert(0 <= x < w && 0 <= y < h && 0 <= ch < chans && k == chans * (y * w + x) + ch)
        by (nonlinear_arith)
        requires
            chans > 0 && w > 0 && h > 0 && 0 <= k < chans * w * h && p == k / chans && ch == k
                % chans && x == p % w && y == p / w;
    assert(k == buf_idx(chans, w, x, y, ch));
}

/// Two well-formed canvases with the same dimensions and the same pixels
/// everywhere have equal byte buffers.
pub proof fn lemma_px_equal_canvases(a: Canvas, b: Canvas)
    requires
        a.wf(),
        b.wf(),
        a.width == b.width,
        a.height == b.height,
        forall|x: int, y: int, ch: int|
            a.valid_xy(x, y) && 0 <= ch < 3 ==> a.px(x, y, ch) == b.px(x, y, ch),
    ensures
        a.data@ == b.data@,
{
    let w = a.width as int;
    let h = a.height as int;
    assert forall|k: int| 0 <= k < a.data@.len() implies a.data@[k] == b.data@[k] by {
        assert(w > 0 && h > 0) by (nonlinear_arith)
            requires 0 <= w && 0 <= h && 3 * w * h > 0;
        lemma_buf_idx_decode(3, w, h, k);
        let (x, y, ch) = choose|x: int, y: int, ch: int|
            0 <= x < w && 0 <= y < h && 0 <= ch < 3 && k == buf_idx(3, w, x, y, ch);
        assert(a.px(x, y, ch) == b.px(x, y, ch));
    }
    assert(a.data@ =~= b.data@);
}

/// Compositing is idempotent for a fully opaque icon: placing it a second
/// time at the same spot leaves the canvas exactly as after the first
/// placement.
pub proof fn lemma_opaque_idempotent(c0: Canvas, c1: Canvas, c2: Canvas, icon: Icon, x0: int, y0: int)
    requires
        c0.wf(),
        icon.wf(),
        fully_opaque(icon),
        places_to(c0, c1, icon, x0, y0),
        places_to(c1, c2, icon, x0, y0),
    ensures
        c2.width == c1.width,
        c2.height == c1.height,
        c2.data@ == c1.data@,
{
    assert forall|x: int, y: int, ch: int|
        c1.valid_xy(x, y) && 0 <= ch < 3 implies c2.px(x, y, ch) == c1.px(x, y, ch) by {
        if in_footprint(icon, x0, y0, x, y) {
            lemma_blend_opaque(c0.px(x, y, ch), icon.ch(x - x0, y - y0, ch));
            lemma_blend_opaque(c1.px(x, y, ch), icon.ch(x - x0, y - y0, ch));
        }
    }
    lemma_px_equal_canvases(c2, c1);
}

/// Compositing with a fully transparent icon leaves every canvas pixel
/// unchanged.
pub proof fn lemma_transparent_no_op(c0: Canvas, c1: Canvas, icon: Icon, x0: int, y0: int)
    requires
        c0.wf(),
        icon.wf(),
        fully_transparent(icon),
        places_to(c0, c1, icon, x0, y0),
    ensures
        c1.width == c0.width,
        c1.height == c0.height,
        c1.data@ == c0.data@,
{
    assert forall|x: int, y: int, ch: int|
        c0.valid_xy(x, y) && 0 <= ch < 3 implies c1.px(x, y, ch) == c0.px(x, y, ch) by {
        if in_footprint(icon, x0, y0, x, y) {
            lemma_blend_transparent(c0.px(x, y, ch), icon.ch(x - x0, y - y0, ch));
        }
    }
    lemma_px_equal_canvases(c1, c0);
}

impl Icon {
    /// Reads icon pixel `(ix, iy)` as an RGBA quadruple.
    pub fn px4(&self, ix: u32, iy: u32) -> (r: (u8, u8, u8, u8))
        requires
            self.wf(),
            ix < self.size,
            iy < self.size,
        ensures
            r.0 == self.ch(ix as int, iy as int, 0),
            r.1 == self.ch(ix as int, iy as int, 1),
            r.2 == self.ch(ix as int, iy as int, 2),
            r.3 == self.alpha(ix as int, iy as int),
    {
        let n: usize = self.data.len();
        proof {
            lemma_buf_idx_bound(4, self.size as int, self.size as int, ix as int, iy as int, 3);
        }
        let base: usize = 4 * ((iy as usize) * (self.size as usize) + (ix as usize));
        (self.data[base], self.data[base + 1], self.data[base + 2], self.data[base + 3])
    }
}

} // verus!
