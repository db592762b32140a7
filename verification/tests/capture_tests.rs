use xcolor::capture::{centered_square, clamp_rect, pad_captured, rect_around, Rect};
use xcolor::color::ARGB;

#[test]
fn request_is_centered_on_the_pointer() {
    let (size, rect) = rect_around(100, 60, 255, 16);
    // 255 / 16 == 15, already odd.
    assert_eq!(size, 15);
    assert_eq!(rect, Rect { x: 93, y: 53, width: 15, height: 15 });

    let (size, rect) = rect_around(100, 60, 255, 17);
    // 255 / 17 == 15, already odd; 255 / 18 == 14, forced to 15.
    assert_eq!(size, 15);
    let (size18, rect18) = rect_around(100, 60, 255, 18);
    assert_eq!(size18, 15);
    assert_eq!(rect18, rect);
    assert_eq!(rect.width, size);
}

#[test]
fn centered_square_uses_integer_halving() {
    let r = centered_square(10, 20, 7);
    assert_eq!(r, Rect { x: 7, y: 17, width: 7, height: 7 });
}

#[test]
fn clamp_keeps_interior_rect_unchanged() {
    let r = Rect { x: 10, y: 20, width: 15, height: 15 };
    assert_eq!(clamp_rect(r, 100, 80), r);
}

#[test]
fn clamp_cuts_rect_at_display_edges() {
    let near_origin = Rect { x: -4, y: -2, width: 15, height: 15 };
    assert_eq!(clamp_rect(near_origin, 100, 80), Rect { x: 0, y: 0, width: 11, height: 13 });

    let near_far_corner = Rect { x: 91, y: 71, width: 15, height: 15 };
    assert_eq!(clamp_rect(near_far_corner, 100, 80), Rect { x: 91, y: 71, width: 9, height: 9 });

    let off_screen = Rect { x: -30, y: 5, width: 15, height: 15 };
    assert_eq!(clamp_rect(off_screen, 100, 80).width, 0);
}

#[test]
fn edge_capture_is_padded_to_the_full_square() {
    // A capture requested within size / 2 of the display origin: the
    // display can provide only an 11 x 13 part of the 15 x 15 request, and
    // the rest of the returned grid must be transparent.
    let requested = Rect { x: -4, y: -2, width: 15, height: 15 };
    let clamped = clamp_rect(requested, 100, 80);
    assert_eq!(clamped, Rect { x: 0, y: 0, width: 11, height: 13 });

    let captured: Vec<ARGB> =
        (0..11 * 13).map(|k| ARGB::new(0xff, (k % 256) as u8, 1, 2)).collect();
    let grid = pad_captured(&captured, clamped, requested);

    assert_eq!(grid.len(), 15 * 15);
    // The clamped region sits at rows 2.. and columns 4.. of the grid.
    assert_eq!(grid[2 * 15 + 4], captured[0]);
    assert_eq!(grid[2 * 15 + 14], captured[10]);
    assert_eq!(grid[3 * 15 + 4], captured[11]);
    assert_eq!(grid[14 * 15 + 14], captured[12 * 11 + 10]);
    // Everything the display could not provide is transparent.
    let transparent = ARGB::new(0, 0, 0, 0);
    assert_eq!(grid[0], transparent);
    assert_eq!(grid[15 + 10], transparent);
    assert_eq!(grid[5 * 15 + 3], transparent);
    assert_eq!(grid[14 * 15 + 3], transparent);
    for i in 0..15usize {
        for j in 0..15usize {
            let expected = if i >= 2 && j >= 4 {
                captured[(i - 2) * 11 + (j - 4)]
            } else {
                transparent
            };
            assert_eq!(grid[i * 15 + j], expected, "at ({i}, {j})");
        }
    }
}

#[test]
fn full_capture_is_passed_through() {
    let requested = Rect { x: 10, y: 20, width: 3, height: 3 };
    let clamped = clamp_rect(requested, 100, 80);
    assert_eq!(clamped, requested);
    let captured: Vec<ARGB> = (0..9).map(|k| ARGB::new(0xff, k, k, k)).collect();
    let grid = pad_captured(&captured, clamped, requested);
    assert_eq!(grid, captured);
}
