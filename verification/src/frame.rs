//! The frame builder: turns the base canvas, one icon per occupied slot,
//! and the result icon into one finished animation frame. Decoded images
//! come in through the image crate and are resized here to the fixed
//! footprint.

use vstd::prelude::*;
use crate::canvas::{blended_px, places_to, Canvas, Icon};
use crate::geometry::{
    grid_position, in_rect, lemma_cells_disjoint, lemma_slots_in_bounds, position_spec, ICON_SIZE,
    MIN_CANVAS_HEIGHT, MIN_CANVAS_WIDTH, RATIO,
};

verus! {

#[verifier::external_type_specification]
#[verifier::external_body]
pub struct ExDynamicImage(image::DynamicImage);

/// The width, in pixels, of a decoded image.
pub uninterp spec fn image_width_of(img: image::DynamicImage) -> u32;

/// The height, in pixels, of a decoded image.
pub uninterp spec fn image_height_of(img: image::DynamicImage) -> u32;

/// The raw RGBA bytes of a decoded image resized to `w` by `h` with the
/// nearest-neighbor filter: a function of the image and the dimensions
/// alone.
pub uninterp spec fn resized_rgba_of(img: image::DynamicImage, w: u32, h: u32) -> Seq<u8>;

/// The raw RGB bytes of a decoded image resized to `w` by `h` with the
/// nearest-neighbor filter: a function of the image and the dimensions
/// alone.
pub uninterp spec fn resized_rgb_of(img: image::DynamicImage, w: u32, h: u32) -> Seq<u8>;

/// Relies on image::DynamicImage::resize_exact with the nearest-neighbor
/// filter, then to_rgba8 and into_raw: the result depends on the image
/// and the dimensions alone, and is a `w` by `h` RGBA buffer, four bytes
/// per pixel.
#[verifier::external_body]
fn resized_rgba(img: &image::DynamicImage, w: u32, h: u32) -> (r: Vec<u8>)
    requires
        0 < w <= 0xFFFF,
        0 < h <= 0xFFFF,
    ensures
        r@ == resized_rgba_of(*img, w, h),
        r@.len() == 4 * (w as int) * (h as int),
{
    img.resize_exact(w, h, image::imageops::FilterType::Nearest).to_rgba8().into_raw()
}

/// Relies on image::DynamicImage::resize_exact with the nearest-neighbor
/// filter, then to_rgb8 and into_raw: the result depends on the image and
/// the dimensions alone, and is a `w` by `h` RGB buffer, three bytes per
/// pixel.
#[verifier::external_body]
fn resized_rgb(img: &image::DynamicImage, w: u32, h: u32) -> (r: Vec<u8>)
    requires
        0 < w <= 0xFFFF,
        0 < h <= 0xFFFF,
    ensures
        r@ == resized_rgb_of(*img, w, h),
        r@.len() == 3 * (w as int) * (h as int),
{
    img.resize_exact(w, h, image::imageops::FilterType::Nearest).to_rgb8().into_raw()
}

/// Relies on image::DynamicImage::width, a function of the image alone.
#[verifier::external_body]
fn image_width(img: &image::DynamicImage) -> (r: u32)
    ensures
        r == image_width_of(*img),
{
    img.width()
}

/// Relies on image::DynamicImage::height, a function of the image alone.
#[verifier::external_body]
fn image_height(img: &image::DynamicImage) -> (r: u32)
    ensures
        r == image_height_of(*img),
{
    img.height()
}

/// Upscales a decoded base image by `RATIO` into the run's canvas: the
/// canvas is the image's dimensions times the ratio and holds exactly the
/// resized RGB bytes. `None` exactly when the image has a zero dimension
/// or the upscaled dimensions leave the 16-bit range the animation
/// container can address.
pub fn prepare_base(img: &image::DynamicImage) -> (r: Option<Canvas>)
    ensures
        match r {
            Some(c) => c.wf() && c.width == image_width_of(*img) * RATIO && c.height
                == image_height_of(*img) * RATIO && c.data@ == resized_rgb_of(
                *img,
                c.width,
                c.height,
            ),
            None => image_width_of(*img) == 0 || image_height_of(*img) == 0
                || image_width_of(*img) > 0xFFFFu32 / RATIO
                || image_height_of(*img) > 0xFFFFu32 / RATIO,
        },
{
    let w0 = image_width(img);
    let h0 = image_height(img);
    if w0 == 0 || h0 == 0 {
        return None;
    }
    if w0 > 0xFFFF / RATIO || h0 > 0xFFFF / RATIO {
        return None;
    }
    let w = w0 * RATIO;
    let h = h0 * RATIO;
    let data = resized_rgb(img, w, h);
    Some(Canvas { width: w, height: h, data })
}

/// Resizes a decoded icon image to the fixed footprint: the icon holds
/// exactly the resized RGBA bytes.
pub fn load_icon(img: &image::DynamicImage) -> (r: Icon)
    ensures
        r.wf(),
        r.size == ICON_SIZE,
        r.data@ == resized_rgba_of(*img, ICON_SIZE, ICON_SIZE),
{
    let data = resized_rgba(img, ICON_SIZE, ICON_SIZE);
    Icon { size: ICON_SIZE, data }
}

/// Resizes a decoded icon and alpha-blends it onto the canvas at grid
/// cell `pos`: only the cell's rectangle changes, and it changes by the
/// blend of exactly the icon's resized RGBA pixels.
pub fn place_item(img: &mut Canvas, pos: u32, icon_src: &image::DynamicImage)
    requires
        old(img).wf(),
        pos < 10,
        old(img).width >= MIN_CANVAS_WIDTH,
        old(img).height >= MIN_CANVAS_HEIGHT,
    ensures
        final(img).wf(),
        final(img).width == old(img).width,
        final(img).height == old(img).height,
        exists|ic: Icon|
            ic.wf() && ic.size == ICON_SIZE && ic.data@ == resized_rgba_of(
                *icon_src,
                ICON_SIZE,
                ICON_SIZE,
            ) && places_to(
                *old(img),
                *final(img),
                ic,
                position_spec(pos as int).0,
                position_spec(pos as int).1,
            ),
{
    let icon = load_icon(icon_src);
    let (x, y) = grid_position(pos);
    proof {
        lemma_slots_in_bounds(pos as int);
    }
    img.place_icon(&icon, x, y);
}

/// One finished animation frame: the composited canvas, its display
/// duration in the container's tick units, and its ordinal in the output
/// sequence.
pub struct FrameRecord {
    pub canvas: Canvas,
    pub duration: u16,
    pub index: u32,
}

/// Channel `ch` of pixel `(x, y)` after the first `k` input slots are
/// composited over `base`: under an occupied slot's rectangle the slot's
/// icon is blended, elsewhere the base shows through. Slot rectangles are
/// disjoint, so the order of placement does not matter.
pub open spec fn partial_px(
    base: Canvas,
    slots: Seq<Option<Icon>>,
    k: int,
    x: int,
    y: int,
    ch: int,
) -> u8
    decreases k,
{
    if k <= 0 {
        base.px(x, y, ch)
    } else if in_rect(k - 1, x, y) && slots[k - 1] is Some {
        blended_px(base, slots[k - 1]->Some_0, position_spec(k - 1).0, position_spec(k - 1).1, x, y, ch)
    } else {
        partial_px(base, slots, k - 1, x, y, ch)
    }
}

/// Channel `ch` of pixel `(x, y)` of a finished frame: under the output
/// slot the result icon is blended over the base, under an occupied input
/// slot that slot's icon, anywhere else the base shows through.
pub open spec fn frame_px(
    base: Canvas,
    slots: Seq<Option<Icon>>,
    result_icon: Icon,
    x: int,
    y: int,
    ch: int,
) -> u8 {
    if in_rect(9, x, y) {
        blended_px(base, result_icon, position_spec(9).0, position_spec(9).1, x, y, ch)
    } else {
        partial_px(base, slots, 9, x, y, ch)
    }
}

/// A pixel under cell `cov`'s rectangle is untouched by the first `j`
/// input slots when `j <= cov`: their rectangles are disjoint from
/// `cov`'s.
proof fn lemma_partial_px_uncovered(
    base: Canvas,
    slots: Seq<Option<Icon>>,
    j: int,
    x: int,
    y: int,
    ch: int,
    cov: int,
)
    requires
        0 <= j <= cov < 10,
        in_rect(cov, x, y),
    ensures
        partial_px(base, slots, j, x, y, ch) == base.px(x, y, ch),
    decreases j,
{
    if j > 0 {
        lemma_cells_disjoint(j - 1, cov, x, y);
        lemma_partial_px_uncovered(base, slots, j - 1, x, y, ch, cov);
    }
}

/// Builds the frame with ordinal `index`: starts from an independent copy
/// of the base canvas, composites each occupied input slot's icon, always
/// composites the result icon into the output slot, and packages the
/// canvas with the display duration.
pub fn build_frame(
    base: &Canvas,
    slots: &Vec<Option<Icon>>,
    result_icon: &Icon,
    index: u32,
    duration: u16,
) -> (r: FrameRecord)
    requires
        base.wf(),
        base.width >= MIN_CANVAS_WIDTH,
        base.height >= MIN_CANVAS_HEIGHT,
        slots@.len() == 9,
        forall|i: int|
            0 <= i < 9 && slots@[i] is Some ==> slots@[i]->Some_0.wf() && slots@[i]->Some_0.size
                == ICON_SIZE,
        result_icon.wf(),
        result_icon.size == ICON_SIZE,
    ensures
        r.index == index,
        r.duration == duration,
        r.canvas.wf(),
        r.canvas.width == base.width,
        r.canvas.height == base.height,
        forall|x: int, y: int, ch: int|
            base.valid_xy(x, y) && 0 <= ch < 3 ==> r.canvas.px(x, y, ch) == frame_px(
                *base,
                slots@,
                *result_icon,
                x,
                y,
                ch,
            ),
{
    let mut canvas = base.duplicate();
    let mut i: usize = 0;
    while i < 9
        invariant
            i <= 9,
            base.wf(),
            base.width >= MIN_CANVAS_WIDTH,
            base.height >= MIN_CANVAS_HEIGHT,
            slots@.len() == 9,
            forall|j: int|
                0 <= j < 9 && slots@[j] is Some ==> slots@[j]->Some_0.wf()
                    && slots@[j]->Some_0.size == ICON_SIZE,
            result_icon.wf(),
            result_icon.size == ICON_SIZE,
            canvas.wf(),
            canvas.width == base.width,
            canvas.height == base.height,
            forall|x: int, y: int, ch: int|
                base.valid_xy(x, y) && 0 <= ch < 3 ==> canvas.px(x, y, ch) == partial_px(
                    *base,
                    slots@,
                    i as int,
                    x,
                    y,
                    ch,
                ),
        decreases 9 - i,
    {
        if let Some(icon) = &slots[i] {
            let (x0, y0) = grid_position(i as u32);
            proof {
                lemma_slots_in_bounds(i as int);
            }
            canvas.place_icon(icon, x0, y0);
            proof {
                assert forall|x: int, y: int, ch: int|
                    base.valid_xy(x, y) && 0 <= ch < 3 implies canvas.px(x, y, ch) == partial_px(
                    *base,
                    slots@,
                    i as int + 1,
                    x,
                    y,
                    ch,
                ) by {
                    if in_rect(i as int, x, y) {
                        lemma_partial_px_uncovered(*base, slots@, i as int, x, y, ch, i as int);
                    }
                }
            }
        }
        i = i + 1;
    }
    let (x9, y9) = grid_position(9);
    proof {
        lemma_slots_in_bounds(9);
    }
    canvas.place_icon(result_icon, x9, y9);
    proof {
        assert forall|x: int, y: int, ch: int|
            base.valid_xy(x, y) && 0 <= ch < 3 implies canvas.px(x, y, ch) == frame_px(
            *base,
            slots@,
            *result_icon,
            x,
            y,
            ch,
        ) by {
            if in_rect(9, x, y) {
                lemma_partial_px_uncovered(*base, slots@, 9, x, y, ch, 9);
            }
        }
    }
    FrameRecord { canvas, duration, index }
}

} // verus!
