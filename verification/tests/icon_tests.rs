use winomove::icon::icon_rgba;

fn pixel(buffer: &[u8], x: usize, y: usize) -> [u8; 4] {
    let idx = (y * 16 + x) * 4;
    [buffer[idx], buffer[idx + 1], buffer[idx + 2], buffer[idx + 3]]
}

const BLUE: [u8; 4] = [30, 144, 255, 255];
const WHITE: [u8; 4] = [255, 255, 255, 255];

#[test]
fn buffer_holds_exactly_one_16_by_16_rgba_image() {
    assert_eq!(icon_rgba().len(), 16 * 16 * 4);
}

#[test]
fn corners_are_background_blue() {
    let v = icon_rgba();
    assert_eq!(pixel(&v, 0, 0), BLUE);
    assert_eq!(pixel(&v, 15, 0), BLUE);
    assert_eq!(pixel(&v, 0, 15), BLUE);
    assert_eq!(pixel(&v, 15, 15), BLUE);
}

#[test]
fn connecting_line_is_white() {
    let v = icon_rgba();
    for x in 4..=11 {
        assert_eq!(pixel(&v, x, 7), WHITE);
        assert_eq!(pixel(&v, x, 8), WHITE);
    }
}

#[test]
fn arrowheads_taper_with_distance_from_center() {
    let v = icon_rgba();
    // Center row: the left arrowhead spans columns 2..=4, the right 11..=13.
    assert_eq!(pixel(&v, 2, 7), WHITE);
    assert_eq!(pixel(&v, 4, 7), WHITE);
    assert_eq!(pixel(&v, 1, 7), BLUE);
    assert_eq!(pixel(&v, 11, 7), WHITE);
    assert_eq!(pixel(&v, 13, 7), WHITE);
    assert_eq!(pixel(&v, 14, 7), BLUE);
    // Two rows out, each arrowhead has narrowed to a single column.
    assert_eq!(pixel(&v, 2, 5), WHITE);
    assert_eq!(pixel(&v, 3, 5), BLUE);
    assert_eq!(pixel(&v, 13, 5), WHITE);
    assert_eq!(pixel(&v, 12, 5), BLUE);
    // Three rows out the arrowheads have tapered away entirely.
    assert_eq!(pixel(&v, 2, 10), BLUE);
    assert_eq!(pixel(&v, 13, 10), BLUE);
}

#[test]
fn every_pixel_is_fully_opaque() {
    let v = icon_rgba();
    for p in 0..256 {
        assert_eq!(v[p * 4 + 3], 255);
    }
}
