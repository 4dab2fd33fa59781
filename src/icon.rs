//! The tray icon: a 16 x 16 RGBA picture of a small monitor, a blue frame
//! around a white screen on a blue stand, on a transparent background.

use vstd::arithmetic::div_mod::lemma_fundamental_div_mod_converse;
use vstd::prelude::*;

verus! {

/// Width and height of the icon, in pixels.
pub const ICON_SIDE: usize = 16;

/// Whether the pixel at column `x`, row `y` lies on the frame.
pub open spec fn on_frame(x: int, y: int) -> bool {
    (x == 4 && 4 <= y <= 11) || (x == 11 && 4 <= y <= 11) || (y == 4 && 4 <= x <= 11) || (y == 11
        && 4 <= x <= 11)
}

/// Whether the pixel lies inside the frame.
pub open spec fn on_screen(x: int, y: int) -> bool {
    5 <= x <= 10 && 5 <= y <= 10
}

/// Whether the pixel lies on the stand below the frame.
pub open spec fn on_stand(x: int, y: int) -> bool {
    (y >= 13 && 6 <= x <= 9) || (y == 12 && 5 <= x <= 10)
}

/// Red, green, blue and alpha of the pixel at column `x`, row `y`.
pub open spec fn pixel(x: int, y: int) -> (u8, u8, u8, u8) {
    if on_frame(x, y) {
        (0, 120, 215, 255)
    } else if on_screen(x, y) {
        (255, 255, 255, 255)
    } else if on_stand(x, y) {
        (0, 120, 215, 255)
    } else {
        (0, 0, 0, 0)
    }
}

/// Channel `k` (0 red, 1 green, 2 blue, 3 alpha) of a colour.
pub open spec fn channel(c: (u8, u8, u8, u8), k: int) -> u8 {
    if k == 0 {
        c.0
    } else if k == 1 {
        c.1
    } else if k == 2 {
        c.2
    } else {
        c.3
    }
}

/// Byte `i` of the icon: pixels row by row, four bytes each.
pub open spec fn icon_byte(i: int) -> u8 {
    channel(pixel((i / 4) % 16, (i / 4) / 16), i % 4)
}

/// The colour of the pixel at column `x`, row `y`.
fn pixel_colour(x: usize, y: usize) -> (r: (u8, u8, u8, u8))
    ensures
        r == pixel(x as int, y as int),
{
    let is_border = (x == 4 && 4 <= y && y <= 11) || (x == 11 && 4 <= y && y <= 11) || (y == 4 && 4
        <= x && x <= 11) || (y == 11 && 4 <= x && x <= 11);
    if is_border {
        (0, 120, 215, 255)
    } else if 5 <= x && x <= 10 && 5 <= y && y <= 10 {
        (255, 255, 255, 255)
    } else if (y >= 13 && 6 <= x && x <= 9) || (y == 12 && 5 <= x && x <= 10) {
        (0, 120, 215, 255)
    } else {
        (0, 0, 0, 0)
    }
}

/// The icon's bytes: 16 x 16 pixels, row by row, each as red, green, blue,
/// alpha.
pub fn generate_icon_rgba() -> (r: Vec<u8>)
    ensures
        r@.len() == ICON_SIDE * ICON_SIDE * 4,
        forall|i: int| 0 <= i < r@.len() ==> #[trigger] r@[i] == icon_byte(i),
{
    let mut data: Vec<u8> = Vec::new();
    let mut y: usize = 0;
    while y < ICON_SIDE
        invariant
            y <= ICON_SIDE,
            data@.len() == y * 64,
            forall|i: int| 0 <= i < data@.len() ==> #[trigger] data@[i] == icon_byte(i),
        decreases ICON_SIDE - y,
    {
        let mut x: usize = 0;
        while x < ICON_SIDE
            invariant
                y < ICON_SIDE,
                x <= ICON_SIDE,
                data@.len() == y * 64 + x * 4,
                forall|i: int| 0 <= i < data@.len() ==> #[trigger] data@[i] == icon_byte(i),
            decreases ICON_SIDE - x,
        {
            let c = pixel_colour(x, y);
            let base = y * 64 + x * 4;
            proof {
                let p = y * 16 + x;
                lemma_fundamental_div_mod_converse(p as int, 16, y as int, x as int);
                assert forall|k: int| 0 <= k < 4 implies icon_byte(base + k) == channel(
                    pixel(x as int, y as int),
                    k,
                ) by {
                    lemma_fundamental_div_mod_converse(base + k, 4, p as int, k);
                }
            }
            data.push(c.0);
            data.push(c.1);
            data.push(c.2);
            data.push(c.3);
            proof {
                assert(icon_byte(base + 0) == c.0);
                assert(icon_byte(base + 1) == c.1);
                assert(icon_byte(base + 2) == c.2);
                assert(icon_byte(base + 3) == c.3);
            }
            x = x + 1;
        }
        y = y + 1;
    }
    data
}

} // verus!
