//! World-space points in integer milli-units and the viewport mapper:
//! the linear transforms between world tile coordinates and screen pixel
//! coordinates, screen-space proximity, and the deadzone camera offset.

use vstd::prelude::*;

use crate::LEVEL_HEIGHT_MILLI;
use crate::LEVEL_WIDTH_MILLI;
use crate::TILES_ON_WIDTH_MILLI;

verus! {

/// A point or vector in world space, counted in thousandths of a world tile.
#[derive(Clone, Copy, PartialEq, Eq, Structural, Debug)]
pub struct Pos {
    pub x: i64,
    pub y: i64,
}

/// Mathematical absolute value.
pub open spec fn iabs(v: int) -> int {
    if v >= 0 {
        v
    } else {
        -v
    }
}

/// `a * num / den`, rounding toward zero, as the float scaling the screen
/// mapper mimics would.
pub open spec fn scale_trunc(a: int, num: int, den: int) -> int {
    if a >= 0 {
        a * num / den
    } else {
        -((-a) * num / den)
    }
}

/// True when `a` and `b` project within `numer / (15000 * w)` world units
/// of each other on both axes; `numer` encodes a pixel radius times 15000,
/// so this is exactly "closer than that many pixels on screen on both axes".
pub open spec fn within_screen_box(a: Pos, b: Pos, w: int, numer: int) -> bool {
    &&& iabs(a.x - b.x) * w < numer
    &&& iabs(a.y - b.y) * w < numer
}

/// Absolute value of a coordinate.
pub fn abs_milli(v: i64) -> (r: i64)
    requires
        v != i64::MIN,
    ensures
        r == iabs(v as int),
{
    if v >= 0 {
        v
    } else {
        -v
    }
}

/// Screen-space proximity on both axes, the test behind pickup and delivery.
pub fn screen_close(a: Pos, b: Pos, w: u32, numer: i64) -> (r: bool)
    requires
        1 <= w <= 1000000,
        iabs(a.x - b.x) <= 10000000,
        iabs(a.y - b.y) <= 10000000,
        0 <= numer,
    ensures
        r == within_screen_box(a, b, w as int, numer as int),
{
    let dx = abs_milli(if a.x >= b.x {
        a.x - b.x
    } else {
        b.x - a.x
    });
    let dy = abs_milli(if a.y >= b.y {
        a.y - b.y
    } else {
        b.y - a.y
    });
    assert(dx * (w as i64) <= 10000000i64 * 1000000i64) by (nonlinear_arith)
        requires
            0 <= dx <= 10000000,
            0 < w <= 1000000,
    ;
    assert(dy * (w as i64) <= 10000000i64 * 1000000i64) by (nonlinear_arith)
        requires
            0 <= dy <= 10000000,
            0 < w <= 1000000,
    ;
    dx * (w as i64) < numer && dy * (w as i64) < numer
}

/// Pixel size of one world tile: `surface_width / 15`.
pub fn tile_size_px(w: u32) -> (r: u32)
    requires
        w >= 1,
    ensures
        r == w as int / 15,
{
    w / 15
}

/// One world-to-screen or screen-to-world axis: `v * num / den` rounded
/// toward zero, computed on magnitudes so the division stays unsigned.
fn scale_axis(v: i64, num: u64, den: u64) -> (r: i64)
    requires
        iabs(v as int) <= 10000000,
        1 <= num <= 1000000000,
        1 <= den,
    ensures
        r == scale_trunc(v as int, num as int, den as int),
{
    let mag: u64 = if v >= 0 {
        v as u64
    } else {
        (-v) as u64
    };
    assert(mag * num <= 10000000u64 * 1000000000u64) by (nonlinear_arith)
        requires
            mag <= 10000000,
            num <= 1000000000,
    ;
    let prod: u64 = mag * num;
    let m: u64 = prod / den;
    assert(m <= prod);
    if v >= 0 {
        m as i64
    } else {
        -(m as i64)
    }
}

/// Projects a world-space coordinate (relative to the camera anchor) to
/// screen pixels: `v / 15 * surface_width`, both axes scaled by width.
pub fn world_to_screen_px(v: i64, w: u32) -> (r: i64)
    requires
        1 <= w <= 1000000,
        iabs(v as int) <= 10000000,
    ensures
        r == scale_trunc(v as int, w as int, TILES_ON_WIDTH_MILLI as int),
{
    scale_axis(v, w as u64, 15000)
}

/// Maps a screen pixel coordinate back to world milli-units:
/// `px * 15 / surface_width`.
pub fn screen_to_world_milli(px: i64, w: u32) -> (r: i64)
    requires
        1 <= w <= 1000000,
        iabs(px as int) <= 10000000,
    ensures
        r == scale_trunc(px as int, TILES_ON_WIDTH_MILLI as int, w as int),
{
    scale_axis(px, 15000, w as u64)
}

/// One axis of the deadzone camera: `p` is the world coordinate of the
/// screen's near corner, `span` the world extent visible on that axis,
/// `level` the level extent.  The camera pans only when the view would
/// leave the level by more than one tile on the near side or at all on
/// the far side; otherwise the offset is zero.
pub open spec fn camera_off_1d(p: int, span: int, level: int) -> int {
    if p < -1000 {
        p + 1000
    } else if p > level - span {
        p - (level - span)
    } else {
        0
    }
}

/// World milli-units from the screen's top-left corner to its center:
/// the camera anchor sits this far behind the player sprite.
pub open spec fn center_shift(w: int, h: int) -> (int, int) {
    (7500, 7500 * h / w)
}

/// The camera translation, in world milli-units, for a player sprite at
/// `player`: zero in the middle of the level, edge-clamped panning near
/// the level borders.
pub fn camera_offset(player: Pos, w: u32, h: u32) -> (off: (i64, i64))
    requires
        1 <= w <= 1000000,
        1 <= h <= 1000000,
        0 <= player.x <= LEVEL_WIDTH_MILLI,
        0 <= player.y <= LEVEL_HEIGHT_MILLI,
    ensures
        off.0 == camera_off_1d(
            player.x - center_shift(w as int, h as int).0,
            TILES_ON_WIDTH_MILLI as int,
            LEVEL_WIDTH_MILLI as int,
        ),
        off.1 == camera_off_1d(
            player.y - center_shift(w as int, h as int).1,
            15000 * (h as int) / (w as int),
            LEVEL_HEIGHT_MILLI as int,
        ),
{
    let cy: i64 = (7500u64 * (h as u64) / (w as u64)) as i64;
    let toh: i64 = (15000u64 * (h as u64) / (w as u64)) as i64;
    let px: i64 = player.x - 7500;
    let py: i64 = player.y - cy;
    let ox: i64 = if px < -1000 {
        px + 1000
    } else if px > LEVEL_WIDTH_MILLI - TILES_ON_WIDTH_MILLI {
        px - (LEVEL_WIDTH_MILLI - TILES_ON_WIDTH_MILLI)
    } else {
        0
    };
    let oy: i64 = if py < -1000 {
        py + 1000
    } else if py > LEVEL_HEIGHT_MILLI - toh {
        py - (LEVEL_HEIGHT_MILLI - toh)
    } else {
        0
    };
    (ox, oy)
}

} // verus!
