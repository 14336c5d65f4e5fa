//! The application icon: two overlapping discs, each with a drawn outline,
//! rendered onto a 1024 x 1024 RGBA raster.
//!
//! All geometry here is integer arithmetic on squared distances, so the
//! colour of every pixel is specified exactly: `create_app_icon` returns
//! precisely the byte sequence `icon_image()`.

use vstd::prelude::*;
use vstd::arithmetic::div_mod::lemma_fundamental_div_mod_converse_div;
use vstd::arithmetic::div_mod::lemma_fundamental_div_mod_converse_mod;

verus! {

/// Squared Euclidean distance between the pixel `(x, y)` and the centre
/// `(cx, cy)`.
pub open spec fn sq_dist(x: int, y: int, cx: int, cy: int) -> int {
    (x - cx) * (x - cx) + (y - cy) * (y - cy)
}

/// The pixel lies on or inside the circle of radius `r` around `(cx, cy)`.
pub open spec fn within_disc(x: int, y: int, cx: int, cy: int, r: int) -> bool {
    sq_dist(x, y, cx, cy) <= r * r
}

/// The pixel lies strictly closer than `w` to the circle of radius `r`
/// around `(cx, cy)`: the band of pixels that draws the circle's outline.
pub open spec fn on_outline(x: int, y: int, cx: int, cy: int, r: int, w: int) -> bool {
    (r - w) * (r - w) < sq_dist(x, y, cx, cy) && sq_dist(x, y, cx, cy) < (r + w) * (r + w)
}

/// RGBA colour of the icon pixel at `(x, y)`.
///
/// Disc 1 is centred at (384, 512) with radius 320, disc 2 at (640, 512)
/// with radius 256; both outlines are 3 pixels wide on either side.
/// Outlines are white; the overlap of the discs is yellow, disc 1 alone
/// blue, disc 2 alone green, and the background dark blue.
pub open spec fn icon_pixel(x: int, y: int) -> (u8, u8, u8, u8) {
    if on_outline(x, y, 384, 512, 320, 3) || on_outline(x, y, 640, 512, 256, 3) {
        (255u8, 255u8, 255u8, 255u8)
    } else if within_disc(x, y, 384, 512, 320) && within_disc(x, y, 640, 512, 256) {
        (255u8, 255u8, 0u8, 200u8)
    } else if within_disc(x, y, 384, 512, 320) {
        (50u8, 120u8, 255u8, 200u8)
    } else if within_disc(x, y, 640, 512, 256) {
        (50u8, 200u8, 100u8, 200u8)
    } else {
        (20u8, 30u8, 50u8, 255u8)
    }
}

/// Channel `k` (0 = red, 1 = green, 2 = blue, 3 = alpha) of an RGBA colour.
pub open spec fn rgba_channel(c: (u8, u8, u8, u8), k: int) -> u8 {
    if k == 0 {
        c.0
    } else if k == 1 {
        c.1
    } else if k == 2 {
        c.2
    } else {
        c.3
    }
}

/// Byte `i` of the icon raster: pixels are laid out row by row, four bytes
/// (red, green, blue, alpha) per pixel.
pub open spec fn icon_byte(i: int) -> u8 {
    rgba_channel(icon_pixel((i / 4) % 1024, (i / 4) / 1024), i % 4)
}

/// The whole icon raster: 1024 x 1024 pixels, four bytes each.
pub open spec fn icon_image() -> Seq<u8> {
    Seq::new(1024 * 1024 * 4, |i: int| icon_byte(i))
}

/// Squared distance from pixel `(x, y)` to the centre `(cx, cy)`.
fn sq_dist_exec(x: usize, y: usize, cx: i64, cy: i64) -> (d: i64)
    requires
        x < 1024,
        y < 1024,
        0 <= cx <= 1024,
        0 <= cy <= 1024,
    ensures
        d == sq_dist(x as int, y as int, cx as int, cy as int),
{
    let dx = x as i64 - cx;
    let dy = y as i64 - cy;
    proof {
        assert(dx * dx <= 1024 * 1024 && dx * dx >= 0) by (nonlinear_arith)
            requires
                -1024 <= dx <= 1024,
        ;
        assert(dy * dy <= 1024 * 1024 && dy * dy >= 0) by (nonlinear_arith)
            requires
                -1024 <= dy <= 1024,
        ;
    }
    dx * dx + dy * dy
}

/// RGBA colour of the icon pixel at `(x, y)`.
pub fn icon_pixel_color(x: usize, y: usize) -> (c: (u8, u8, u8, u8))
    requires
        x < 1024,
        y < 1024,
    ensures
        c == icon_pixel(x as int, y as int),
{
    let d1 = sq_dist_exec(x, y, 384, 512);
    let d2 = sq_dist_exec(x, y, 640, 512);

    let in_disc1 = d1 <= 320 * 320;
    let in_disc2 = d2 <= 256 * 256;
    let on_outline1 = 317 * 317 < d1 && d1 < 323 * 323;
    let on_outline2 = 253 * 253 < d2 && d2 < 259 * 259;

    if on_outline1 || on_outline2 {
        (255, 255, 255, 255)
    } else if in_disc1 && in_disc2 {
        (255, 255, 0, 200)
    } else if in_disc1 {
        (50, 120, 255, 200)
    } else if in_disc2 {
        (50, 200, 100, 200)
    } else {
        (20, 30, 50, 255)
    }
}

/// Byte `4 * (y * 1024 + x) + k` of the raster is channel `k` of the pixel
/// at `(x, y)`.
proof fn lemma_icon_byte_at(x: int, y: int, k: int)
    requires
        0 <= x < 1024,
        0 <= y < 1024,
        0 <= k < 4,
    ensures
        icon_byte(4 * (y * 1024 + x) + k) == rgba_channel(icon_pixel(x, y), k),
{
    let p = y * 1024 + x;
    let i = 4 * p + k;
    lemma_fundamental_div_mod_converse_div(i, 4, p, k);
    lemma_fundamental_div_mod_converse_mod(i, 4, p, k);
    lemma_fundamental_div_mod_converse_div(p, 1024, y, x);
    lemma_fundamental_div_mod_converse_mod(p, 1024, y, x);
}

/// Render the application icon: a 1024 x 1024 RGBA raster, row by row,
/// four bytes per pixel.
pub fn create_app_icon() -> (pixels: Vec<u8>)
    ensures
        pixels@ == icon_image(),
{
    let mut pixels: Vec<u8> = Vec::new();
    let mut y: usize = 0;
    while y < 1024
        invariant
            y <= 1024,
            pixels@.len() == y * 4096,
            forall|i: int| 0 <= i < pixels@.len() ==> pixels@[i] == icon_byte(i),
        decreases 1024 - y,
    {
        let mut x: usize = 0;
        while x < 1024
            invariant
                y < 1024,
                x <= 1024,
                pixels@.len() == y * 4096 + x * 4,
                forall|i: int| 0 <= i < pixels@.len() ==> pixels@[i] == icon_byte(i),
            decreases 1024 - x,
        {
            let (r, g, b, a) = icon_pixel_color(x, y);
            proof {
                lemma_icon_byte_at(x as int, y as int, 0);
                lemma_icon_byte_at(x as int, y as int, 1);
                lemma_icon_byte_at(x as int, y as int, 2);
                lemma_icon_byte_at(x as int, y as int, 3);
            }
            pixels.push(r);
            pixels.push(g);
            pixels.push(b);
            pixels.push(a);
            x = x + 1;
        }
        y = y + 1;
    }
    proof {
        assert(pixels@ =~= icon_image());
    }
    pixels
}

} // verus!
