//! The magnifier renderer: turns a small captured screen region into an
//! enlarged, circular cursor image. Every source pixel becomes a
//! `pixel_size x pixel_size` block (nearest-neighbor upscaling), blocks are
//! separated by one-pixel grid lines, the block under the pointer is
//! outlined by the highlight color, a one-pixel ring outlines the disk, and
//! everything outside the ring is fully transparent.

use crate::color::{lemma_unpack_zero_alpha, spec_pack, spec_unpack, ARGB};
use crate::pixel::{lemma_grid_index_in_bounds, spec_grid_index, PixelArray, PixelArrayMut};
use crate::util::{spec_ensure_odd, EnsureOdd};
use vstd::arithmetic::div_mod::{
    lemma_fundamental_div_mod, lemma_fundamental_div_mod_converse, lemma_mod_bound,
};
use vstd::arithmetic::mul::lemma_mul_inequality;
use vstd::prelude::*;

verus! {

/// Default width and height of the rendered cursor image, in pixels; odd so
/// that the image has a unique center pixel.
pub const PREVIEW_SIZE: u32 = 256 - 1;

/// Packed pixel of the outer ring and of the center highlight: opaque white.
pub const BORDER_COLOR: u32 = 0xffff_ffff;

/// Packed pixel of the lines between adjacent magnified source pixels:
/// opaque dark gray.
pub const GRID_COLOR: u32 = 0xff55_5555;

/// Packed pixel with every channel zero: fully transparent.
pub const TRANSPARENT_PIXEL: u32 = 0;

/// Whether `(x, y)` lies strictly inside the circle of radius `r` centered
/// at `(r, r)`.
pub open spec fn spec_inside_circle(x: int, y: int, r: int) -> bool {
    (x - r) * (x - r) + (y - r) * (y - r) < r * r
}

/// The translation applied to target coordinates before mapping them to
/// source coordinates. It aligns the magnified image so that the source
/// pixel under the pointer maps to the target's center, compensating for the
/// target being wider than `src_width * pixel_size`; it never goes negative.
pub open spec fn spec_offset(src_width: int, width: int, pixel_size: int) -> int {
    let cursor_center = (src_width / 2) * pixel_size;
    let normalized_center = width / 2 - pixel_size / 2;
    if cursor_center >= normalized_center {
        cursor_center - normalized_center
    } else {
        0
    }
}

/// What the renderer owes the caller: all three sizes odd (so that center
/// pixels exist), a zoom factor no wider than the target, a target small
/// enough for the circle arithmetic to stay in machine range, and a source
/// that covers the whole target once magnified (otherwise the mapping would
/// read outside the source).
pub open spec fn spec_draw_pre(src_width: int, width: int, pixel_size: int) -> bool {
    &&& pixel_size % 2 == 1
    &&& width % 2 == 1
    &&& src_width % 2 == 1
    &&& 1 <= pixel_size
    &&& 1 <= src_width
    &&& pixel_size <= width
    &&& width <= 0x7fff
    &&& src_width <= 0x7fff
    &&& src_width * pixel_size >= width
}

/// The color of the target pixel `(x, y)`, as the renderer paints it.
///
/// Inside the content circle (radius `width / 2 - 1`), a coordinate on the
/// boundary between two magnified source pixels is a grid line: it is
/// painted the highlight color inside the one-source-pixel box starting at
/// `cursor_center`, the grid color elsewhere. Every other content
/// coordinate shows the source pixel it magnifies. Between the content
/// circle and the outer circle (radius `width / 2`, offset by the one-pixel
/// border width) lies the border ring, and everything beyond it is
/// transparent.
pub open spec fn spec_glass_pixel(
    src: Seq<ARGB>,
    src_width: int,
    width: int,
    pixel_size: int,
    x: int,
    y: int,
) -> u32 {
    let border_radius = width / 2;
    let content_radius = border_radius - 1;
    let cursor_center = (src_width / 2) * pixel_size;
    let offset = spec_offset(src_width, width, pixel_size);
    if spec_inside_circle(x, y, content_radius) {
        if (x + offset) % pixel_size == 0 || (y + offset) % pixel_size == 0 {
            if cursor_center <= x <= cursor_center + pixel_size && cursor_center <= y
                <= cursor_center + pixel_size {
                BORDER_COLOR
            } else {
                GRID_COLOR
            }
        } else {
            spec_pack(
                src[spec_grid_index(
                    (x + offset) / pixel_size,
                    (y + offset) / pixel_size,
                    src_width,
                )],
            )
        }
    } else if spec_inside_circle(x + 1, y + 1, border_radius) {
        BORDER_COLOR
    } else {
        TRANSPARENT_PIXEL
    }
}

/// A square of a value bounded in magnitude by `b` is bounded by `b * b`.
proof fn lemma_square_bound(a: int, b: int)
    by (nonlinear_arith)
    requires
        -b <= a <= b,
        0 <= b,
    ensures
        0 <= a * a <= b * b,
{
}

pub fn is_inside_circle(x: isize, y: isize, r: isize) -> (b: bool)
    requires
        -0x4800 <= x - r <= 0x4800,
        -0x4800 <= y - r <= 0x4800,
        -0x4800 <= r <= 0x4800,
    ensures
        b == spec_inside_circle(x as int, y as int, r as int),
{
    let dx = x - r;
    let dy = y - r;
    proof {
        lemma_square_bound(dx as int, 0x4800);
        lemma_square_bound(dy as int, 0x4800);
        lemma_square_bound(r as int, 0x4800);
    }
    dx * dx + dy * dy < r * r
}

/// The product of the source half-width and the zoom factor stays well below
/// machine range.
proof fn lemma_cc_bound(sc: int, ps: int)
    by (nonlinear_arith)
    requires
        0 <= sc <= 0x3fff,
        0 <= ps <= 0x7fff,
    ensures
        0 <= sc * ps <= 0x3fff * 0x7fff,
{
}

/// Under the renderer's precondition the translation offset equals
/// `(src_width * pixel_size - width) / 2` exactly.
proof fn lemma_offset_value(sw: int, w: int, ps: int)
    requires
        sw % 2 == 1,
        w % 2 == 1,
        ps % 2 == 1,
        1 <= ps <= w,
        1 <= sw,
        sw * ps >= w,
    ensures
        2 * spec_offset(sw, w, ps) == sw * ps - w,
        spec_offset(sw, w, ps) >= 0,
{
    let a = sw / 2;
    let b = ps / 2;
    let c = w / 2;
    assert(sw == 2 * a + 1);
    assert(ps == 2 * b + 1);
    assert(w == 2 * c + 1);
    assert(sw * ps == 4 * (a * b) + 2 * a + 2 * b + 1) by (nonlinear_arith)
        requires
            sw == 2 * a + 1,
            ps == 2 * b + 1,
    ;
    assert(a * ps == 2 * (a * b) + a) by (nonlinear_arith)
        requires
            ps == 2 * b + 1,
    ;
}

/// Mapping any in-range target coordinate through the translation offset and
/// the zoom division lands inside the source grid.
proof fn lemma_source_coord_bound(sw: int, w: int, ps: int, t: int)
    requires
        sw % 2 == 1,
        w % 2 == 1,
        ps % 2 == 1,
        1 <= ps <= w,
        1 <= sw,
        sw * ps >= w,
        0 <= t < w,
    ensures
        0 <= (t + spec_offset(sw, w, ps)) / ps < sw,
{
    lemma_offset_value(sw, w, ps);
    let off = spec_offset(sw, w, ps);
    let u = t + off;
    assert(2 * u <= 2 * w - 2 + (sw * ps - w));
    assert(u <= sw * ps - 1);
    lemma_fundamental_div_mod(u, ps);
    lemma_mod_bound(u, ps);
    if u / ps >= sw {
        lemma_mul_inequality(sw, u / ps, ps);
        assert(false);
    }
    if u / ps < 0 {
        lemma_mul_inequality(u / ps, -1, ps);
        assert(false);
    }
}

/// The color the renderer paints at target coordinate `(x, y)`.
fn glass_pixel_at(
    screenshot: &PixelArray<ARGB>,
    width: usize,
    pixel_size: usize,
    x: usize,
    y: usize,
) -> (p: u32)
    requires
        screenshot.wf(),
        spec_draw_pre(screenshot.spec_width() as int, width as int, pixel_size as int),
        x < width,
        y < width,
    ensures
        p == spec_glass_pixel(
            screenshot@,
            screenshot.spec_width() as int,
            width as int,
            pixel_size as int,
            x as int,
            y as int,
        ),
{
    let src_width = screenshot.width();
    let border_radius: isize = (width / 2) as isize;
    let content_radius: isize = border_radius - 1;
    let screenshot_center: usize = src_width / 2;
    proof {
        lemma_cc_bound(screenshot_center as int, pixel_size as int);
    }
    let cursor_center: usize = screenshot_center * pixel_size;
    let normalized_center: usize = width / 2 - pixel_size / 2;
    let offset: usize = if cursor_center >= normalized_center {
        cursor_center - normalized_center
    } else {
        0
    };
    let cx = x as isize;
    let cy = y as isize;
    if is_inside_circle(cx, cy, content_radius) {
        let tx = x + offset;
        let ty = y + offset;
        if tx % pixel_size == 0 || ty % pixel_size == 0 {
            if x >= cursor_center && x <= cursor_center + pixel_size && y >= cursor_center && y
                <= cursor_center + pixel_size {
                BORDER_COLOR
            } else {
                GRID_COLOR
            }
        } else {
            proof {
                lemma_source_coord_bound(
                    src_width as int,
                    width as int,
                    pixel_size as int,
                    x as int,
                );
                lemma_source_coord_bound(
                    src_width as int,
                    width as int,
                    pixel_size as int,
                    y as int,
                );
            }
            let sx = tx / pixel_size;
            let sy = ty / pixel_size;
            screenshot.get((sx, sy)).pack()
        }
    } else if is_inside_circle(cx + 1, cy + 1, border_radius) {
        BORDER_COLOR
    } else {
        TRANSPARENT_PIXEL
    }
}

/// Distinct in-range grid coordinates have distinct flat positions.
proof fn lemma_grid_index_distinct(i: int, j: int, x: int, y: int, w: int)
    by (nonlinear_arith)
    requires
        0 <= i < w,
        0 <= j < w,
        0 <= x < w,
        0 <= y < w,
        i != x || j != y,
    ensures
        spec_grid_index(i, j, w) != spec_grid_index(x, y, w),
{
}

/// Paint the whole cursor image: every pixel of `cursor` is overwritten with
/// the magnified, masked view of `screenshot` described by
/// [`spec_glass_pixel`].
#[verifier::loop_isolation(false)]
pub fn draw_magnifying_glass(
    cursor: &mut PixelArrayMut<u32>,
    screenshot: &PixelArray<ARGB>,
    pixel_size: usize,
)
    requires
        old(cursor).wf(),
        screenshot.wf(),
        spec_draw_pre(
            screenshot.spec_width() as int,
            old(cursor).spec_width() as int,
            pixel_size as int,
        ),
    ensures
        final(cursor).wf(),
        final(cursor).spec_width() == old(cursor).spec_width(),
        forall|x: int, y: int|
            0 <= x < old(cursor).spec_width() && 0 <= y < old(cursor).spec_width()
                ==> final(cursor)@[#[trigger] spec_grid_index(
                x,
                y,
                old(cursor).spec_width() as int,
            )] == spec_glass_pixel(
                screenshot@,
                screenshot.spec_width() as int,
                old(cursor).spec_width() as int,
                pixel_size as int,
                x,
                y,
            ),
{
    let width = cursor.width();
    let ghost sw = screenshot.spec_width() as int;
    let mut x: usize = 0;
    while x < width
        invariant
            x <= width,
            cursor.wf(),
            cursor.spec_width() == width,
            forall|i: int, j: int|
                0 <= i < x && 0 <= j < width ==> cursor@[#[trigger] spec_grid_index(
                    i,
                    j,
                    width as int,
                )] == spec_glass_pixel(screenshot@, sw, width as int, pixel_size as int, i, j),
        decreases width - x,
    {
        let mut y: usize = 0;
        while y < width
            invariant
                y <= width,
                cursor.wf(),
                cursor.spec_width() == width,
                forall|i: int, j: int|
                    0 <= i < x && 0 <= j < width ==> cursor@[#[trigger] spec_grid_index(
                        i,
                        j,
                        width as int,
                    )] == spec_glass_pixel(screenshot@, sw, width as int, pixel_size as int, i, j),
                forall|j: int|
                    0 <= j < y ==> cursor@[#[trigger] spec_grid_index(x as int, j, width as int)]
                        == spec_glass_pixel(
                        screenshot@,
                        sw,
                        width as int,
                        pixel_size as int,
                        x as int,
                        j,
                    ),
            decreases width - y,
        {
            let p = glass_pixel_at(screenshot, width, pixel_size, x, y);
            cursor.set((x, y), p);
            proof {
                lemma_grid_index_in_bounds(x as int, y as int, width as int);
                assert forall|i: int, j: int|
                    (0 <= i < x && 0 <= j < width) || (i == x && 0 <= j < y) implies cursor@[
                #[trigger] spec_grid_index(i, j, width as int)] == spec_glass_pixel(
                    screenshot@,
                    sw,
                    width as int,
                    pixel_size as int,
                    i,
                    j,
                ) by {
                    lemma_grid_index_in_bounds(i, j, width as int);
                    lemma_grid_index_distinct(i, j, x as int, y as int, width as int);
                }
            }
            y = y + 1;
        }
        x = x + 1;
    }
}

/// Every target pixel outside the outer circle (radius `width / 2`, tested
/// with the one-pixel border offset) is fully transparent: its packed value
/// is zero, so its alpha channel is zero.
pub proof fn lemma_glass_pixel_transparent_outside(
    src: Seq<ARGB>,
    sw: int,
    w: int,
    ps: int,
    x: int,
    y: int,
)
    requires
        w % 2 == 1,
        1 <= w,
        0 <= x,
        0 <= y,
        !spec_inside_circle(x + 1, y + 1, w / 2),
    ensures
        spec_glass_pixel(src, sw, w, ps, x, y) == TRANSPARENT_PIXEL,
        spec_unpack(TRANSPARENT_PIXEL).a == 0,
{
    lemma_unpack_zero_alpha();
    let br = w / 2;
    let cr = br - 1;
    if spec_inside_circle(x, y, cr) {
        assert(x - cr == x + 1 - br);
        assert(y - cr == y + 1 - br);
        if br >= 1 {
            assert(cr * cr <= br * br) by (nonlinear_arith)
                requires
                    0 <= cr < br,
            ;
            assert(spec_inside_circle(x + 1, y + 1, br));
            assert(false);
        } else {
            assert(cr == -1);
            assert(cr * cr == 1) by (nonlinear_arith)
                requires
                    cr == -1,
            ;
            assert((x - cr) * (x - cr) >= 1) by (nonlinear_arith)
                requires
                    x - cr >= 1,
            ;
            assert((y - cr) * (y - cr) >= 0) by (nonlinear_arith)
                requires
                    y - cr >= 1,
            ;
            assert(false);
        }
    }
}

/// Every target pixel strictly between the content circle and the outer
/// circle is the opaque border color.
pub proof fn lemma_glass_pixel_border_ring(
    src: Seq<ARGB>,
    sw: int,
    w: int,
    ps: int,
    x: int,
    y: int,
)
    requires
        !spec_inside_circle(x, y, w / 2 - 1),
        spec_inside_circle(x + 1, y + 1, w / 2),
    ensures
        spec_glass_pixel(src, sw, w, ps, x, y) == BORDER_COLOR,
        spec_unpack(BORDER_COLOR).a == 0xff,
{
    assert(((0xffff_ffffu32 >> 24) & 0xff) as u8 == 0xffu8) by (bit_vector);
}

/// At the exact center pixel of the target, the magnifier shows the color
/// of the source's center pixel: the pixel directly under the pointer, the
/// one that a click will sample. This needs a zoom of at least 3 (at zoom 1
/// every content pixel is a grid line) and a target wide enough for its
/// center to lie inside the content circle.
pub proof fn lemma_center_shows_source_center(src: Seq<ARGB>, sw: int, w: int, ps: int)
    requires
        spec_draw_pre(sw, w, ps),
        3 <= ps,
        7 <= w,
    ensures
        spec_glass_pixel(src, sw, w, ps, w / 2, w / 2) == spec_pack(
            src[spec_grid_index(sw / 2, sw / 2, sw)],
        ),
{
    let a = sw / 2;
    let b = ps / 2;
    let c = w / 2;
    lemma_offset_value(sw, w, ps);
    let off = spec_offset(sw, w, ps);
    assert(sw == 2 * a + 1);
    assert(ps == 2 * b + 1);
    assert(w == 2 * c + 1);
    assert(sw * ps == 4 * (a * b) + 2 * a + 2 * b + 1) by (nonlinear_arith)
        requires
            sw == 2 * a + 1,
            ps == 2 * b + 1,
    ;
    assert(off == 2 * (a * b) + a + b - c);
    assert(a * ps == 2 * (a * b) + a) by (nonlinear_arith)
        requires
            ps == 2 * b + 1,
    ;
    assert(c + off == a * ps + b);
    lemma_fundamental_div_mod_converse(c + off, ps, a, b);
    assert((c + off) % ps == b);
    assert((c + off) / ps == a);
    let cr = c - 1;
    assert((c - cr) * (c - cr) + (c - cr) * (c - cr) < cr * cr) by (nonlinear_arith)
        requires
            c - cr == 1,
            cr >= 2,
    ;
    assert(spec_inside_circle(c, c, cr));
}

/// The one surviving case of "the center pixel is never a sampled color":
/// at zoom 1 with a source exactly as wide as the target, the center pixel
/// is a grid line inside the center-highlight box, so it is painted the
/// highlight color. (At any zoom of 3 or more the center pixel shows the
/// source's center color instead; see
/// [`lemma_center_shows_source_center`].)
pub proof fn lemma_center_highlight_unit_zoom(src: Seq<ARGB>, sw: int, w: int, ps: int)
    requires
        spec_draw_pre(sw, w, ps),
        ps == 1,
        sw == w,
        7 <= w,
    ensures
        spec_glass_pixel(src, sw, w, ps, w / 2, w / 2) == BORDER_COLOR,
{
    let c = w / 2;
    let off = spec_offset(sw, w, ps);
    assert((sw / 2) * ps == c) by (nonlinear_arith)
        requires
            ps == 1,
            sw / 2 == c,
    ;
    assert(off == 0);
    lemma_mod_bound(c, 1);
    assert((c + off) % ps == 0);
    let cr = c - 1;
    assert((c - cr) * (c - cr) + (c - cr) * (c - cr) < cr * cr) by (nonlinear_arith)
        requires
            c - cr == 1,
            cr >= 2,
    ;
    assert(spec_inside_circle(c, c, cr));
}

/// The zoom factor used for a preview of `preview_width` cursor pixels over
/// a captured square of `screenshot_width` screen pixels: their quotient,
/// forced odd.
pub fn pixel_size_for(preview_width: usize, screenshot_width: usize) -> (ps: usize)
    requires
        1 <= screenshot_width,
    ensures
        ps == spec_ensure_odd((preview_width / screenshot_width) as int),
{
    (preview_width / screenshot_width).ensure_odd()
}

} // verus!
