//! The capture-request builder: the screen rectangle to request around a
//! pointer position for a given zoom scale, its clamping to display bounds,
//! and the compositing of an edge-clamped capture into a full transparent
//! square, so the renderer always receives a grid of exactly the requested
//! odd side length.

use crate::color::ARGB;
use crate::pixel::{lemma_grid_index_in_bounds, spec_grid_index};
use crate::util::{spec_ensure_odd, EnsureOdd};
use vstd::prelude::*;

verus! {

/// A capture request, or the clamped region actually captured: a rectangle
/// in screen coordinates.
#[derive(Clone, Copy, Debug, PartialEq, Eq, Structural)]
pub struct Rect {
    pub x: i16,
    pub y: i16,
    pub width: u16,
    pub height: u16,
}

/// The square of side `size` whose center pixel is `(x, y)`.
pub fn centered_square(x: i16, y: i16, size: u16) -> (r: Rect)
    requires
        i16::MIN <= x - size / 2,
        i16::MIN <= y - size / 2,
    ensures
        r.x == x - size / 2,
        r.y == y - size / 2,
        r.width == size,
        r.height == size,
{
    Rect { x: x - ((size / 2) as i16), y: y - ((size / 2) as i16), width: size, height: size }
}

/// The side length and screen rectangle to capture around pointer position
/// `(x, y)`: `preview_size / scale` forced odd, centered on the pointer.
pub fn rect_around(x: i16, y: i16, preview_size: u32, scale: u32) -> (r: (u16, Rect))
    requires
        1 <= scale,
        preview_size / scale <= u16::MAX,
        i16::MIN <= x - spec_ensure_odd((preview_size / scale) as int) / 2,
        i16::MIN <= y - spec_ensure_odd((preview_size / scale) as int) / 2,
    ensures
        r.0 == spec_ensure_odd((preview_size / scale) as int),
        r.0 % 2 == 1,
        r.1 == (Rect { x: (x - r.0 / 2) as i16, y: (y - r.0 / 2) as i16, width: r.0, height: r.0 }),
{
    let size = ((preview_size / scale) as u16).ensure_odd();
    (size, centered_square(x, y, size))
}

/// `v`, with anything below zero raised to zero.
pub open spec fn spec_clamp_lo(v: int) -> int {
    if v < 0 {
        0
    } else {
        v
    }
}

/// The length of the intersection of the interval `[start, start + len)`
/// with `[0, bound)`.
pub open spec fn spec_clamp_len(start: int, len: int, bound: int) -> int {
    let lo = spec_clamp_lo(start);
    let hi = if start + len > bound {
        bound
    } else {
        start + len
    };
    if hi > lo {
        hi - lo
    } else {
        0
    }
}

/// The intersection of `r` with the display `[0, screen_width) x
/// [0, screen_height)`: a capture request near a display edge is cut back to
/// the part the display can actually provide.
pub fn clamp_rect(r: Rect, screen_width: u16, screen_height: u16) -> (c: Rect)
    ensures
        c.x == spec_clamp_lo(r.x as int),
        c.y == spec_clamp_lo(r.y as int),
        c.width == spec_clamp_len(r.x as int, r.width as int, screen_width as int),
        c.height == spec_clamp_len(r.y as int, r.height as int, screen_height as int),
        r.x <= c.x,
        r.y <= c.y,
        c.width > 0 ==> c.x + c.width <= r.x + r.width && c.x + c.width <= screen_width,
        c.height > 0 ==> c.y + c.height <= r.y + r.height && c.y + c.height <= screen_height,
{
    let x0: i32 = if (r.x as i32) < 0 {
        0
    } else {
        r.x as i32
    };
    let x1: i32 = if (r.x as i32) + (r.width as i32) > (screen_width as i32) {
        screen_width as i32
    } else {
        (r.x as i32) + (r.width as i32)
    };
    let y0: i32 = if (r.y as i32) < 0 {
        0
    } else {
        r.y as i32
    };
    let y1: i32 = if (r.y as i32) + (r.height as i32) > (screen_height as i32) {
        screen_height as i32
    } else {
        (r.y as i32) + (r.height as i32)
    };
    let w: u16 = if x1 > x0 {
        (x1 - x0) as u16
    } else {
        0
    };
    let h: u16 = if y1 > y0 {
        (y1 - y0) as u16
    } else {
        0
    };
    Rect { x: x0 as i16, y: y0 as i16, width: w, height: h }
}

/// The color that cell `(i, j)` of the padded `size x size` result holds:
/// the captured sample where the clamped region covers the cell, fully
/// transparent where the request ran past the display edge. `i` counts rows
/// (the y direction) and `j` columns, with flat position `i * size + j`.
pub open spec fn spec_padded_cell(
    captured: Seq<ARGB>,
    clamped: Rect,
    requested: Rect,
    i: int,
    j: int,
) -> ARGB {
    let di = clamped.y - requested.y;
    let dj = clamped.x - requested.x;
    if di <= i < di + clamped.height && dj <= j < dj + clamped.width {
        captured[(i - di) * clamped.width + (j - dj)]
    } else {
        ARGB { a: 0u8, r: 0u8, g: 0u8, b: 0u8 }
    }
}

/// An in-range cell of an `h`-row, `w`-column rectangle has a flat position
/// below `h * w`.
proof fn lemma_rect_index_in_bounds(i: int, j: int, h: int, w: int)
    by (nonlinear_arith)
    requires
        0 <= i < h,
        0 <= j < w,
    ensures
        0 <= i * w + j < h * w,
{
}

/// Composite an edge-clamped capture into a fully transparent square of
/// side `requested.width`, at the position the clamped region occupies
/// inside the requested rectangle. Whatever part of the request the display
/// could not provide stays transparent, so the result is always exactly
/// `size * size` samples and the renderer's size precondition always holds.
pub fn pad_captured(captured: &Vec<ARGB>, clamped: Rect, requested: Rect) -> (out: Vec<ARGB>)
    requires
        requested.width == requested.height,
        requested.x <= clamped.x,
        requested.y <= clamped.y,
        clamped.width > 0 ==> clamped.x + clamped.width <= requested.x + requested.width,
        clamped.height > 0 ==> clamped.y + clamped.height <= requested.y + requested.height,
        captured@.len() == clamped.width * clamped.height,
        requested.width * requested.width <= usize::MAX,
    ensures
        out@.len() == requested.width * requested.width,
        forall|i: int, j: int|
            0 <= i < requested.width && 0 <= j < requested.width ==> out@[
                #[trigger] spec_grid_index(i, j, requested.width as int)] == spec_padded_cell(
                captured@,
                clamped,
                requested,
                i,
                j,
            ),
{
    let size: usize = requested.width as usize;
    let di: usize = ((clamped.y as i32) - (requested.y as i32)) as usize;
    let dj: usize = ((clamped.x as i32) - (requested.x as i32)) as usize;
    let ch: usize = clamped.height as usize;
    let cw: usize = clamped.width as usize;
    let clen: usize = captured.len();
    let mut out: Vec<ARGB> = Vec::new();
    let mut i: usize = 0;
    while i < size
        invariant
            i <= size,
            size == requested.width,
            di == clamped.y - requested.y,
            dj == clamped.x - requested.x,
            ch == clamped.height,
            cw == clamped.width,
            requested.x <= clamped.x,
            requested.y <= clamped.y,
            clamped.width > 0 ==> clamped.x + clamped.width <= requested.x + requested.width,
            clamped.height > 0 ==> clamped.y + clamped.height <= requested.y + requested.height,
            requested.width == requested.height,
            captured@.len() == clamped.width * clamped.height,
            clen == captured@.len(),
            requested.width * requested.width <= usize::MAX,
            out@.len() == i * size,
            forall|a: int, b: int|
                0 <= a < i && 0 <= b < size ==> out@[#[trigger] spec_grid_index(
                    a,
                    b,
                    size as int,
                )] == spec_padded_cell(captured@, clamped, requested, a, b),
        decreases size - i,
    {
        let mut j: usize = 0;
        while j < size
            invariant
                i < size,
                j <= size,
                size == requested.width,
                di == clamped.y - requested.y,
                dj == clamped.x - requested.x,
                ch == clamped.height,
                cw == clamped.width,
                requested.x <= clamped.x,
                requested.y <= clamped.y,
                clamped.width > 0 ==> clamped.x + clamped.width <= requested.x + requested.width,
                clamped.height > 0 ==> clamped.y + clamped.height <= requested.y + requested.height,
                requested.width == requested.height,
                captured@.len() == clamped.width * clamped.height,
                clen == captured@.len(),
                requested.width * requested.width <= usize::MAX,
                out@.len() == i * size + j,
                forall|a: int, b: int|
                    0 <= a < i && 0 <= b < size ==> out@[#[trigger] spec_grid_index(
                        a,
                        b,
                        size as int,
                    )] == spec_padded_cell(captured@, clamped, requested, a, b),
                forall|b: int|
                    0 <= b < j ==> out@[#[trigger] spec_grid_index(i as int, b, size as int)]
                        == spec_padded_cell(captured@, clamped, requested, i as int, b),
            decreases size - j,
        {
            proof {
                lemma_grid_index_in_bounds(i as int, j as int, size as int);
            }
            let v: ARGB = if i >= di && i < di + ch && j >= dj && j < dj + cw {
                let a: usize = i - di;
                let b: usize = j - dj;
                proof {
                    lemma_rect_index_in_bounds(a as int, b as int, ch as int, cw as int);
                    assert((ch as int) * (cw as int) == (cw as int) * (ch as int))
                        by (nonlinear_arith);
                    assert(a * cw + b < clen);
                }
                captured[a * cw + b]
            } else {
                ARGB::transparent()
            };
            out.push(v);
            proof {
                assert forall|a: int, b: int|
                    0 <= a < i && 0 <= b < size implies out@[#[trigger] spec_grid_index(
                    a,
                    b,
                    size as int,
                )] == spec_padded_cell(captured@, clamped, requested, a, b) by {
                    lemma_rect_index_in_bounds(a, b, i as int, size as int);
                }
            }
            j = j + 1;
        }
        proof {
            assert(i * size + size == (i + 1) * size) by (nonlinear_arith);
        }
        i = i + 1;
    }
    out
}

} // verus!
