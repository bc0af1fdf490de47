//! The pixel buffer of the status-indicator icon: a 16 by 16 RGBA image, blue
//! background with a white double arrow (left arrowhead, connecting line,
//! right arrowhead) hinting at what the program does. Only the buffer is
//! computed here; turning it into an OS icon resource is the surrounding
//! program's business.

use vstd::prelude::*;

verus! {

/// Vertical distance of row `y` from the arrow's center row.
pub open spec fn arrow_taper(y: int) -> int {
    if y >= 7 {
        y - 7
    } else {
        7 - y
    }
}

/// Whether pixel (`x`, `y`) belongs to the white double arrow: the left
/// arrowhead and the right arrowhead narrow with the distance from the center
/// row, and a two-row line connects them.
pub open spec fn icon_white(x: int, y: int) -> bool {
    ||| (5 <= y <= 10 && 2 <= x && x + arrow_taper(y) <= 4)
    ||| (5 <= y <= 10 && 11 + arrow_taper(y) <= x <= 13)
    ||| (7 <= y <= 8 && 4 <= x <= 11)
}

/// Channel `c` (red, green, blue, alpha in that order) of pixel (`x`, `y`):
/// opaque white on the arrow, opaque blue everywhere else.
pub open spec fn icon_channel(x: int, y: int, c: int) -> u8 {
    if c == 3 {
        255u8
    } else if icon_white(x, y) {
        255u8
    } else if c == 0 {
        30u8
    } else if c == 1 {
        144u8
    } else {
        255u8
    }
}

/// Position of channel `c` of pixel (`x`, `y`) in the row-major RGBA buffer.
pub open spec fn rgba_index(x: int, y: int, c: int) -> int {
    (y * 16 + x) * 4 + c
}

/// Builds the 16 by 16 RGBA buffer of the indicator icon, row by row; every
/// byte is pinned to its pixel's color.
pub fn icon_rgba() -> (v: Vec<u8>)
    ensures
        v@.len() == 1024,
        forall|x: int, y: int, c: int|
            0 <= x < 16 && 0 <= y < 16 && 0 <= c < 4 ==> v@[rgba_index(x, y, c)] == icon_channel(
                x,
                y,
                c,
            ),
{
    let mut v: Vec<u8> = Vec::new();
    let mut y: usize = 0;
    while y < 16
        invariant
            y <= 16,
            v@.len() == y * 64,
            forall|xx: int, yy: int, cc: int|
                0 <= xx < 16 && 0 <= yy < y && 0 <= cc < 4 ==> v@[rgba_index(xx, yy, cc)]
                    == icon_channel(xx, yy, cc),
        decreases 16 - y,
    {
        let mut x: usize = 0;
        while x < 16
            invariant
                y < 16,
                x <= 16,
                v@.len() == y * 64 + x * 4,
                forall|xx: int, yy: int, cc: int|
                    0 <= xx < 16 && 0 <= yy < y && 0 <= cc < 4 ==> v@[rgba_index(xx, yy, cc)]
                        == icon_channel(xx, yy, cc),
                forall|xx: int, cc: int|
                    0 <= xx < x && 0 <= cc < 4 ==> v@[rgba_index(xx, y as int, cc)]
                        == icon_channel(xx, y as int, cc),
            decreases 16 - x,
        {
            let taper: usize = if y >= 7 {
                y - 7
            } else {
                7 - y
            };
            let white = (5 <= y && y <= 10 && 2 <= x && x + taper <= 4) || (5 <= y && y <= 10 && 11
                + taper <= x && x <= 13) || (7 <= y && y <= 8 && 4 <= x && x <= 11);
            if white {
                v.push(255);
                v.push(255);
                v.push(255);
            } else {
                v.push(30);
                v.push(144);
                v.push(255);
            }
            v.push(255);
            proof {
                assert(white == icon_white(x as int, y as int));
            }
            x += 1;
        }
        y += 1;
    }
    v
}

} // verus!
