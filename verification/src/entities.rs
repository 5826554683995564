//! Letters and houses: the deliverable entities and their proximity tests.

use vstd::prelude::*;

use crate::geom::iabs;
use crate::geom::screen_close;
use crate::geom::within_screen_box;
use crate::geom::Pos;
use crate::DELIVERY_NUMER;
use crate::HOUSE_COUNT;
use crate::HOUSE_GAP_MILLI;
use crate::LEVEL_HEIGHT_MILLI;
use crate::LEVEL_WIDTH_MILLI;
use crate::PICKUP_NUMER;

verus! {

/// A letter: its destination house number, its world position, and the
/// timestamp before which it cannot be picked up (the re-pickup embargo
/// after a forced drop; a fresh letter carries a timestamp in the past).
#[derive(Clone, Copy, PartialEq, Eq, Structural, Debug)]
pub struct Letter {
    pub number: u32,
    pub pos: Pos,
    pub release_ms: u64,
}

/// A delivery target: a fixed world position, the number of the letters
/// it accepts, and a cosmetic sprite variant with no bearing on the rules.
#[derive(Clone, Copy, PartialEq, Eq, Structural, Debug)]
pub struct House {
    pub pos: Pos,
    pub number: u32,
    pub variant: usize,
}

/// A letter the simulation may hold: a valid destination number and a
/// position inside the level.
pub open spec fn letter_wf(l: Letter) -> bool {
    &&& 1 <= l.number <= HOUSE_COUNT
    &&& 0 <= l.pos.x <= LEVEL_WIDTH_MILLI
    &&& 0 <= l.pos.y <= LEVEL_HEIGHT_MILLI
}

/// A house the generator may place: a valid number and a position at
/// least 3 tiles inside the level edge.
pub open spec fn house_wf(h: House) -> bool {
    &&& 1 <= h.number <= HOUSE_COUNT
    &&& 3000 <= h.pos.x <= LEVEL_WIDTH_MILLI - 3000
    &&& 3000 <= h.pos.y <= LEVEL_HEIGHT_MILLI - 3000
}

/// True when two houses stand within 4 world units on both axes — the
/// overlap the generator rejects.
pub open spec fn houses_too_close(a: House, b: House) -> bool {
    &&& iabs(a.pos.x - b.pos.x) < HOUSE_GAP_MILLI
    &&& iabs(a.pos.y - b.pos.y) < HOUSE_GAP_MILLI
}

/// A letter can be picked up when it projects within the pickup radius of
/// the player on both screen axes and the clock has passed its embargo.
pub open spec fn can_pick(l: Letter, player: Pos, now_ms: u64, w: int) -> bool {
    &&& within_screen_box(l.pos, player, w, PICKUP_NUMER as int)
    &&& now_ms > l.release_ms
}

/// A house is in delivery range when the player projects within the
/// delivery radius of it on both screen axes.
pub open spec fn in_delivery_range(h: House, player: Pos, w: int) -> bool {
    within_screen_box(h.pos, player, w, DELIVERY_NUMER as int)
}

impl Letter {
    /// A freshly spawned letter: immediately pickupable once any time has
    /// passed, since its release timestamp is zero.
    pub fn new(pos: Pos, number: u32) -> (l: Letter)
        ensures
            l == (Letter { number, pos, release_ms: 0u64 }),
    {
        Letter { number, pos, release_ms: 0 }
    }

    /// Whether the re-pickup embargo still holds at `now_ms`, for the
    /// renderer's dimmed look on freshly dropped letters.
    pub fn embargo_active(&self, now_ms: u64) -> (r: bool)
        ensures
            r == (self.release_ms > now_ms),
    {
        self.release_ms > now_ms
    }

    /// The pickup test, exactly as `can_pick` says.
    pub fn player_intersection(&self, player: Pos, now_ms: u64, w: u32) -> (r: bool)
        requires
            1 <= w <= 1000000,
            iabs(self.pos.x - player.x) <= 10000000,
            iabs(self.pos.y - player.y) <= 10000000,
        ensures
            r == can_pick(*self, player, now_ms, w as int),
    {
        screen_close(self.pos, player, w, PICKUP_NUMER) && now_ms > self.release_ms
    }
}

impl House {
    /// A house at a fixed position, accepting letters numbered `number`.
    pub fn new(pos: Pos, number: u32, variant: usize) -> (h: House)
        ensures
            h == (House { pos, number, variant }),
    {
        House { pos, number, variant }
    }

    /// The rejection-sampling overlap test, exactly as `houses_too_close`
    /// says.
    pub fn intersects(&self, other: &House) -> (r: bool)
        requires
            iabs(self.pos.x - other.pos.x) <= 10000000,
            iabs(self.pos.y - other.pos.y) <= 10000000,
        ensures
            r == houses_too_close(*self, *other),
    {
        let dx = if self.pos.x >= other.pos.x {
            self.pos.x - other.pos.x
        } else {
            other.pos.x - self.pos.x
        };
        let dy = if self.pos.y >= other.pos.y {
            self.pos.y - other.pos.y
        } else {
            other.pos.y - self.pos.y
        };
        dx < HOUSE_GAP_MILLI && dy < HOUSE_GAP_MILLI
    }

    /// The delivery-range test, exactly as `in_delivery_range` says.
    pub fn player_intersection(&self, player: Pos, w: u32) -> (r: bool)
        requires
            1 <= w <= 1000000,
            iabs(self.pos.x - player.x) <= 10000000,
            iabs(self.pos.y - player.y) <= 10000000,
        ensures
            r == in_delivery_range(*self, player, w as int),
    {
        screen_close(self.pos, player, w, DELIVERY_NUMER)
    }
}

/// An embargoed letter is never pickupable: while the clock has not
/// passed a letter's release timestamp, `can_pick` is false even if the
/// letter is spatially coincident with the player.
pub proof fn lemma_embargo_blocks(l: Letter, player: Pos, now_ms: u64, w: int)
    requires
        now_ms <= l.release_ms,
    ensures
        !can_pick(l, player, now_ms, w),
{
}

} // verus!
