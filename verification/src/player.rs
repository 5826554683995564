//! The player controller: 8-way facing direction resolved from the four
//! pressed-key flags, per-frame displacement, and the level-boundary clamp.

use vstd::prelude::*;

use crate::LEVEL_HEIGHT_MILLI;
use crate::LEVEL_WIDTH_MILLI;
use crate::PLAYER_SPEED_MILLI_PER_MS;
use crate::UNIT_MILLI;

verus! {

/// One of the 8 compass facings.
#[derive(Clone, Copy, PartialEq, Eq, Structural, Debug)]
pub enum Direction {
    Up,
    UpRight,
    Right,
    DownRight,
    Down,
    DownLeft,
    Left,
    UpLeft,
}

/// Direction resolved from the four pressed flags; `None` means not moving.
/// Opposing pairs cancel to the perpendicular axis, or to idle if both
/// axes cancel.
pub open spec fn resolve_direction(l: bool, r: bool, u: bool, d: bool) -> Option<Direction> {
    if l && !r {
        if u && !d {
            Some(Direction::UpLeft)
        } else if d && !u {
            Some(Direction::DownLeft)
        } else {
            Some(Direction::Left)
        }
    } else if r && !l {
        if u && !d {
            Some(Direction::UpRight)
        } else if d && !u {
            Some(Direction::DownRight)
        } else {
            Some(Direction::Right)
        }
    } else {
        if u && !d {
            Some(Direction::Up)
        } else if d && !u {
            Some(Direction::Down)
        } else {
            None
        }
    }
}

/// Computes the facing for a key state, as `resolve_direction` says.
pub fn direction_from_keys(l: bool, r: bool, u: bool, d: bool) -> (res: Option<Direction>)
    ensures
        res == resolve_direction(l, r, u, d),
{
    if l && !r {
        if u && !d {
            Some(Direction::UpLeft)
        } else if d && !u {
            Some(Direction::DownLeft)
        } else {
            Some(Direction::Left)
        }
    } else if r && !l {
        if u && !d {
            Some(Direction::UpRight)
        } else if d && !u {
            Some(Direction::DownRight)
        } else {
            Some(Direction::Right)
        }
    } else {
        if u && !d {
            Some(Direction::Up)
        } else if d && !u {
            Some(Direction::Down)
        } else {
            None
        }
    }
}

/// Distance covered along one axis in `dt` milliseconds of orthogonal
/// movement: `PLAYER_SPEED * dt`.
pub open spec fn orth_step(dt: int) -> int {
    PLAYER_SPEED_MILLI_PER_MS * dt
}

/// Per-axis distance for diagonal movement: the orthogonal step scaled by
/// 0.70 (an intentional approximation, not `1 / sqrt(2)`).
pub open spec fn diag_step(dt: int) -> int {
    70 * orth_step(dt) / 100
}

/// The displacement vector for one frame of movement in `dir`.
pub open spec fn displacement(dir: Direction, dt: int) -> (int, int) {
    let o = orth_step(dt);
    let g = diag_step(dt);
    match dir {
        Direction::Up => (0, -o),
        Direction::Down => (0, o),
        Direction::Left => (-o, 0),
        Direction::Right => (o, 0),
        Direction::UpLeft => (-g, -g),
        Direction::DownLeft => (-g, g),
        Direction::UpRight => (g, -g),
        Direction::DownRight => (g, g),
    }
}

/// Computes the frame displacement, exactly as `displacement` says.
pub fn step_vector(dir: Direction, dt_ms: u64) -> (r: (i64, i64))
    requires
        dt_ms <= 1000000000,
    ensures
        r.0 == displacement(dir, dt_ms as int).0,
        r.1 == displacement(dir, dt_ms as int).1,
{
    let o: i64 = PLAYER_SPEED_MILLI_PER_MS * (dt_ms as i64);
    let g: i64 = 70 * o / 100;
    match dir {
        Direction::Up => (0, -o),
        Direction::Down => (0, o),
        Direction::Left => (-o, 0),
        Direction::Right => (o, 0),
        Direction::UpLeft => (-g, -g),
        Direction::DownLeft => (-g, g),
        Direction::UpRight => (g, -g),
        Direction::DownRight => (g, g),
    }
}

/// Clamps `v` into `[lo, hi]`.
pub open spec fn clamped(v: int, lo: int, hi: int) -> int {
    if v < lo {
        lo
    } else if v > hi {
        hi
    } else {
        v
    }
}

/// The player position after one frame: the displaced position, with each
/// axis clamped so the player sprite stays a tile short of the far level
/// edge and never leaves it on the near side.
pub open spec fn moved_player(x: int, y: int, dir: Direction, dt: int) -> (int, int) {
    let (dx, dy) = displacement(dir, dt);
    (
        clamped(x + dx, 0, LEVEL_WIDTH_MILLI - UNIT_MILLI),
        clamped(y + dy, 0, LEVEL_HEIGHT_MILLI - UNIT_MILLI),
    )
}

/// Diagonal movement is strictly slower than orthogonal movement over the
/// same frame: each diagonal component is the orthogonal distance scaled
/// by 0.70, and the squared diagonal magnitude `2 * g * g` stays strictly
/// below the squared orthogonal magnitude `o * o` (the real-valued ratio
/// is `0.70 * sqrt(2)`, about 0.99).
pub proof fn lemma_diagonal_slower(dt: int)
    requires
        dt >= 1,
    ensures
        diag_step(dt) == 70 * orth_step(dt) / 100,
        2 * diag_step(dt) * diag_step(dt) < orth_step(dt) * orth_step(dt),
{
    let o = orth_step(dt);
    let g = diag_step(dt);
    assert(o == 7 * dt);
    assert(o >= 7);
    assert(g == 70 * o / 100);
    assert(100 * g <= 70 * o) by (nonlinear_arith)
        requires
            g == 70 * o / 100,
            o >= 7,
    ;
    assert(g >= 0) by (nonlinear_arith)
        requires
            g == 70 * o / 100,
            o >= 7,
    ;
    assert(2 * g * g < o * o) by (nonlinear_arith)
        requires
            100 * g <= 70 * o,
            g >= 0,
            o >= 7,
    ;
}

} // verus!
