use xcolor::color::ARGB;
use xcolor::draw::{
    draw_magnifying_glass, is_inside_circle, pixel_size_for, BORDER_COLOR, GRID_COLOR,
    TRANSPARENT_PIXEL,
};
use xcolor::pixel::{PixelArray, PixelArrayMut};

fn distinct_colors(n: u8) -> Vec<ARGB> {
    (0..n).map(|k| ARGB::new(0xff, k, 2 * k, 3 * k)).collect()
}

/// 3x3 source, zoom 5, 15x15 target: offset is 0, the content circle has
/// radius 6, grid lines lie on multiples of 5, and the center-highlight box
/// spans [5, 10] on both axes.
fn render_3x3_zoom5() -> (PixelArrayMut<u32>, Vec<ARGB>) {
    let colors = distinct_colors(9);
    let screenshot = PixelArray::new(&colors, 3);
    let mut cursor = PixelArrayMut::new(vec![0u32; 15 * 15], 15);
    draw_magnifying_glass(&mut cursor, &screenshot, 5);
    (cursor, colors)
}

#[test]
fn source_pixels_map_to_contiguous_blocks() {
    let (cursor, colors) = render_3x3_zoom5();
    // The whole interior of the center source pixel's 5x5 box (minus its
    // grid-line edge) shows that source color.
    for x in 6..10 {
        for y in 6..10 {
            assert_eq!(cursor.get((x, y)), colors[4].pack(), "at ({x}, {y})");
        }
    }
    // Interior cells of neighboring blocks that lie inside the circle.
    assert_eq!(cursor.get((3, 3)), colors[0].pack());
    assert_eq!(cursor.get((4, 4)), colors[0].pack());
    assert_eq!(cursor.get((4, 2)), colors[0].pack());
    assert_eq!(cursor.get((2, 4)), colors[0].pack());
    assert_eq!(cursor.get((7, 3)), colors[3].pack());
    assert_eq!(cursor.get((11, 7)), colors[7].pack());
    assert_eq!(cursor.get((7, 11)), colors[5].pack());
}

#[test]
fn center_pixel_shows_the_pixel_under_the_pointer() {
    let (cursor, colors) = render_3x3_zoom5();
    assert_eq!(cursor.get((7, 7)), colors[4].pack());
}

#[test]
fn center_block_border_is_highlighted() {
    let (cursor, _) = render_3x3_zoom5();
    // Grid-line pixels bounding the center 5x5 block are painted the
    // highlight color.
    assert_eq!(cursor.get((5, 7)), BORDER_COLOR);
    assert_eq!(cursor.get((7, 5)), BORDER_COLOR);
    assert_eq!(cursor.get((10, 8)), BORDER_COLOR);
    assert_eq!(cursor.get((8, 10)), BORDER_COLOR);
    assert_eq!(cursor.get((10, 10)), BORDER_COLOR);
    // Grid-line pixels outside the center box are the grid color.
    assert_eq!(cursor.get((5, 2)), GRID_COLOR);
    assert_eq!(cursor.get((10, 3)), GRID_COLOR);
    assert_eq!(cursor.get((2, 5)), GRID_COLOR);
}

#[test]
fn ring_is_border_color_and_outside_is_transparent() {
    let (cursor, _) = render_3x3_zoom5();
    // Pixels between the content circle and the outer circle: opaque white.
    assert_eq!(cursor.get((0, 6)), BORDER_COLOR);
    assert_eq!(cursor.get((6, 0)), BORDER_COLOR);
    assert_eq!(cursor.get((12, 6)), BORDER_COLOR);
    assert_eq!(cursor.get((6, 12)), BORDER_COLOR);
    // Pixels outside the outer circle: fully transparent.
    assert_eq!(cursor.get((0, 0)), TRANSPARENT_PIXEL);
    assert_eq!(cursor.get((14, 14)), TRANSPARENT_PIXEL);
    assert_eq!(cursor.get((13, 6)), TRANSPARENT_PIXEL);
    assert_eq!(cursor.get((14, 0)), TRANSPARENT_PIXEL);
    assert_eq!(cursor.get((0, 14)), TRANSPARENT_PIXEL);
}

#[test]
fn unit_zoom_center_is_highlight() {
    // At zoom 1 every content pixel is a grid line; with the source exactly
    // as wide as the target, the center pixel falls in the highlight box.
    let colors = distinct_colors(49);
    let screenshot = PixelArray::new(&colors, 7);
    let mut cursor = PixelArrayMut::new(vec![0u32; 49], 7);
    draw_magnifying_glass(&mut cursor, &screenshot, 1);
    assert_eq!(cursor.get((3, 3)), BORDER_COLOR);
}

#[test]
fn circle_test_matches_geometry() {
    // Radius 6 circle centered at (6, 6).
    assert!(is_inside_circle(6, 6, 6));
    assert!(is_inside_circle(2, 4, 6));
    assert!(!is_inside_circle(0, 0, 6));
    assert!(!is_inside_circle(0, 6, 6));
    assert!(is_inside_circle(1, 6, 6));
}

#[test]
fn pixel_size_is_quotient_forced_odd() {
    assert_eq!(pixel_size_for(255, 15), 17);
    assert_eq!(pixel_size_for(255, 16), 15);
    assert_eq!(pixel_size_for(255, 255), 1);
    assert_eq!(pixel_size_for(30, 10), 3);
    assert_eq!(pixel_size_for(40, 10), 5);
}
