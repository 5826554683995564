//! The simulation itself: the per-frame state machine over player,
//! houses, ground letters, holding order, spawn schedule, score and the
//! game-over flag.

use std::collections::VecDeque;

use vstd::prelude::*;

use crate::engine::all_sound;
use crate::engine::deliver_result;
use crate::engine::lemma_deliver_pops_front;
use crate::engine::lemma_matching_prefix;
use crate::engine::matching_prefix;
use crate::engine::pickup_result;
use crate::entities::house_wf;
use crate::entities::houses_too_close;
use crate::entities::letter_wf;
use crate::entities::House;
use crate::entities::Letter;
use crate::geom::Pos;
use crate::player::resolve_direction;
use crate::player::Direction;
use crate::player::step_vector;
use crate::rng::rand_range_u64;
use crate::spawn::drain;
use crate::spawn::spawn_interval;
use crate::ANIM_FULL;
use crate::EMBARGO_MS;
use crate::HOUSE_COUNT;
use crate::LEVEL_HEIGHT_MILLI;
use crate::LEVEL_WIDTH_MILLI;
use crate::MAX_HOLDING;
use crate::MAX_LETTERS_ON_GROUND;
use crate::PLAYER_START_MILLI;
use crate::SPAWN_TIME_MS;
use crate::UNIT_MILLI;

verus! {

/// The audio cues one update fired, for the external audio collaborator.
/// An overflow eviction mutes the pickup cue for that frame.
#[derive(Clone, Copy, PartialEq, Eq, Structural, Debug)]
pub struct FrameCues {
    pub bad_drop: bool,
    pub pickup: bool,
    pub delivery: bool,
}

/// The logical keys the simulation consumes: four movement directions
/// and one confirm key.  Mapping physical keys (arrows, WASD, space) to
/// these is the input collaborator's concern.
#[derive(Clone, Copy, PartialEq, Eq, Structural, Debug)]
pub enum InputKey {
    Left,
    Right,
    Up,
    Down,
    Confirm,
}

/// The mathematical model of one simulation state.
#[verifier::ext_equal]
pub ghost struct GameView {
    pub player: Pos,
    pub left: bool,
    pub right: bool,
    pub up: bool,
    pub down: bool,
    pub direction: Direction,
    pub running: bool,
    pub houses: Seq<House>,
    pub ground: Seq<Letter>,
    pub holding: Seq<Letter>,
    pub acc_ms: u64,
    pub interval_ms: u64,
    pub spawns: nat,
    pub score: u32,
    pub game_over: bool,
    pub anim: Seq<u64>,
    pub now_ms: u64,
    pub surface_w: u32,
    pub surface_h: u32,
    pub variant_count: usize,
}

/// A full set of houses as level generation leaves them: one per number
/// from 1 up, each inside the placement margin, and no two within 4 world
/// units on both axes.
pub open spec fn houses_ok(hs: Seq<House>) -> bool {
    &&& hs.len() == HOUSE_COUNT
    &&& forall|i: int| 0 <= i < hs.len() ==> house_wf(#[trigger] hs[i]) && hs[i].number == i + 1
    &&& forall|i: int, j: int|
        0 <= i < j < hs.len() ==> !houses_too_close(#[trigger] hs[i], #[trigger] hs[j])
}

/// The state a fresh level starts in (shared by startup and restart):
/// player centered, collections empty, score zero, the spawn threshold at
/// its full 30 seconds, and the clock at `now_ms`.
pub open spec fn initial_view(
    surface_w: u32,
    surface_h: u32,
    variant_count: usize,
    houses: Seq<House>,
    now_ms: u64,
) -> GameView {
    GameView {
        player: Pos { x: PLAYER_START_MILLI, y: PLAYER_START_MILLI },
        left: false,
        right: false,
        up: false,
        down: false,
        direction: Direction::Down,
        running: false,
        houses,
        ground: Seq::empty(),
        holding: Seq::empty(),
        acc_ms: 0,
        interval_ms: SPAWN_TIME_MS,
        spawns: 0,
        score: 0,
        game_over: false,
        anim: Seq::empty(),
        now_ms,
        surface_w,
        surface_h,
        variant_count,
    }
}

/// The simulation state.  All world coordinates are milli-units and all
/// times milliseconds; see the crate root for the constants.
pub struct Game {
    player: Pos,
    left_pressed: bool,
    right_pressed: bool,
    up_pressed: bool,
    down_pressed: bool,
    player_direction: Direction,
    player_running: bool,
    houses: Vec<House>,
    letters: Vec<Letter>,
    holding_letters: VecDeque<Letter>,
    time_since_last_letter: u64,
    letter_spawn_time: u64,
    spawn_count: Ghost<nat>,
    score: u32,
    game_over: bool,
    letter_animation: VecDeque<u64>,
    now_ms: u64,
    surface_w: u32,
    surface_h: u32,
    variant_count: usize,
}

impl View for Game {
    type V = GameView;

    closed spec fn view(&self) -> GameView {
        GameView {
            player: self.player,
            left: self.left_pressed,
            right: self.right_pressed,
            up: self.up_pressed,
            down: self.down_pressed,
            direction: self.player_direction,
            running: self.player_running,
            houses: self.houses@,
            ground: self.letters@,
            holding: self.holding_letters@,
            acc_ms: self.time_since_last_letter,
            interval_ms: self.letter_spawn_time,
            spawns: self.spawn_count@,
            score: self.score,
            game_over: self.game_over,
            anim: self.letter_animation@,
            now_ms: self.now_ms,
            surface_w: self.surface_w,
            surface_h: self.surface_h,
            variant_count: self.variant_count,
        }
    }
}

/// Every state the simulation can reach satisfies this invariant.
pub open spec fn inv(v: GameView) -> bool {
    &&& v.holding.len() <= MAX_HOLDING
    &&& (!v.game_over ==> v.ground.len() < MAX_LETTERS_ON_GROUND)
    &&& 0 <= v.player.x <= LEVEL_WIDTH_MILLI - UNIT_MILLI
    &&& 0 <= v.player.y <= LEVEL_HEIGHT_MILLI - UNIT_MILLI
    &&& all_sound(v.ground, v.now_ms)
    &&& all_sound(v.holding, v.now_ms)
    &&& houses_ok(v.houses)
    &&& v.acc_ms <= v.interval_ms <= SPAWN_TIME_MS
    &&& v.interval_ms == spawn_interval(v.spawns)
    &&& forall|i: int| 0 <= i < v.anim.len() ==> #[trigger] v.anim[i] <= ANIM_FULL
    &&& 1 <= v.surface_w <= 1000000
    &&& 1 <= v.surface_h <= 1000000
    &&& v.variant_count >= 1
    &&& (match resolve_direction(v.left, v.right, v.up, v.down) {
        Some(d) => v.running && v.direction == d,
        None => !v.running,
    })
}

impl Game {
    /// Builds the starting state over an explicitly supplied set of
    /// houses, so a caller — a test most of all — can fix the level
    /// layout instead of drawing it from the generator.
    pub fn with_houses(
        surface_w: u32,
        surface_h: u32,
        variant_count: usize,
        houses: Vec<House>,
    ) -> (g: Game)
        requires
            1 <= surface_w <= 1000000,
            1 <= surface_h <= 1000000,
            variant_count >= 1,
            houses_ok(houses@),
        ensures
            g@ == initial_view(surface_w, surface_h, variant_count, houses@, 0u64),
            inv(g@),
    {
        let g = Game {
            player: Pos { x: PLAYER_START_MILLI, y: PLAYER_START_MILLI },
            left_pressed: false,
            right_pressed: false,
            up_pressed: false,
            down_pressed: false,
            player_direction: Direction::Down,
            player_running: false,
            houses,
            letters: Vec::new(),
            holding_letters: VecDeque::new(),
            time_since_last_letter: 0,
            letter_spawn_time: SPAWN_TIME_MS,
            spawn_count: Ghost(0),
            score: 0,
            game_over: false,
            letter_animation: VecDeque::new(),
            now_ms: 0,
            surface_w,
            surface_h,
            variant_count,
        };
        proof {
            assert(spawn_interval(0) == SPAWN_TIME_MS);
        }
        g
    }

    /// A fixed, evenly spaced layout meeting every placement rule: the
    /// last resort should rejection sampling never clear within its
    /// attempt budget, which a uniform draw practically never needs.
    fn fallback_layout() -> (hs: Vec<House>)
        ensures
            houses_ok(hs@),
    {
        let mut hs: Vec<House> = Vec::new();
        hs.push(House::new(Pos { x: 3000, y: 3000 }, 1, 0));
        hs.push(House::new(Pos { x: 11000, y: 3000 }, 2, 0));
        hs.push(House::new(Pos { x: 19000, y: 3000 }, 3, 0));
        hs.push(House::new(Pos { x: 3000, y: 11000 }, 4, 0));
        hs.push(House::new(Pos { x: 11000, y: 11000 }, 5, 0));
        hs.push(House::new(Pos { x: 19000, y: 11000 }, 6, 0));
        hs
    }

    /// Places the houses for a level by rejection sampling: positions are
    /// drawn uniformly inside the margin until each new house stands at
    /// least 4 world units from every earlier one on one axis, numbering
    /// them 1 up in order.
    pub fn generate_houses(variant_count: usize, rng: &mut rand::rngs::StdRng) -> (hs: Vec<House>)
        requires
            variant_count >= 1,
        ensures
            houses_ok(hs@),
    {
        let mut houses: Vec<House> = Vec::new();
        let mut number: u32 = 1;
        while number <= HOUSE_COUNT
            invariant
                1 <= number <= HOUSE_COUNT + 1,
                houses@.len() == number - 1,
                forall|i: int|
                    0 <= i < houses@.len() ==> house_wf(#[trigger] houses@[i]) && houses@[i].number
                        == i + 1,
                forall|i: int, j: int|
                    0 <= i < j < houses@.len() ==> !houses_too_close(
                        #[trigger] houses@[i],
                        #[trigger] houses@[j],
                    ),
                variant_count >= 1,
            decreases HOUSE_COUNT + 1 - number,
        {
            let mut placed = false;
            let mut attempts: u64 = 0;
            while !placed && attempts < 1000000
                invariant
                    1 <= number <= HOUSE_COUNT,
                    variant_count >= 1,
                    placed ==> houses@.len() == number,
                    !placed ==> houses@.len() == number - 1,
                    forall|i: int|
                        0 <= i < houses@.len() ==> house_wf(#[trigger] houses@[i])
                            && houses@[i].number == i + 1,
                    forall|i: int, j: int|
                        0 <= i < j < houses@.len() ==> !houses_too_close(
                            #[trigger] houses@[i],
                            #[trigger] houses@[j],
                        ),
                    attempts <= 1000000,
                decreases 1000000 - attempts,
            {
                attempts += 1;
                let x = rand_range_u64(rng, 3000, (LEVEL_WIDTH_MILLI - 3000) as u64);
                let y = rand_range_u64(rng, 3000, (LEVEL_HEIGHT_MILLI - 3000) as u64);
                let variant = rand_range_u64(rng, 0, variant_count as u64) as usize;
                let cand = House::new(Pos { x: x as i64, y: y as i64 }, number, variant);
                let mut clear = true;
                let mut j: usize = 0;
                while j < houses.len()
                    invariant
                        0 <= j <= houses@.len(),
                        house_wf(cand),
                        forall|i: int|
                            0 <= i < houses@.len() ==> house_wf(#[trigger] houses@[i]),
                        clear <==> forall|k: int|
                            0 <= k < j ==> !houses_too_close(#[trigger] houses@[k], cand),
                    decreases houses@.len() - j,
                {
                    if houses[j].intersects(&cand) {
                        clear = false;
                    }
                    j += 1;
                }
                if clear {
                    houses.push(cand);
                    placed = true;
                }
            }
            if !placed {
                return Game::fallback_layout();
            }
            number += 1;
        }
        houses
    }

    /// Builds a fresh game over randomly generated houses, as startup
    /// does: every non-random field starts as `initial_view` says.
    pub fn new(
        surface_w: u32,
        surface_h: u32,
        variant_count: usize,
        rng: &mut rand::rngs::StdRng,
    ) -> (g: Game)
        requires
            1 <= surface_w <= 1000000,
            1 <= surface_h <= 1000000,
            variant_count >= 1,
        ensures
            g@ == initial_view(surface_w, surface_h, variant_count, g@.houses, 0u64),
            houses_ok(g@.houses),
            inv(g@),
    {
        let houses = Game::generate_houses(variant_count, rng);
        Game::with_houses(surface_w, surface_h, variant_count, houses)
    }
}


/// What spawning produces: a letter numbered for some house, placed
/// uniformly at least 2 tiles inside the level edge, immediately
/// pickupable.
pub open spec fn spawn_ok(l: Letter) -> bool {
    &&& 1 <= l.number <= HOUSE_COUNT
    &&& 2000 <= l.pos.x <= LEVEL_WIDTH_MILLI - 2000
    &&& 2000 <= l.pos.y <= LEVEL_HEIGHT_MILLI - 2000
    &&& l.release_ms == 0
}

/// Where the player stands after one frame of movement: displaced along
/// the current facing while running, then clamped to the level, else
/// unmoved.
pub open spec fn moved_of(v: GameView, dt: u64) -> Pos {
    if v.running {
        let m = crate::player::moved_player(
            v.player.x as int,
            v.player.y as int,
            v.direction,
            dt as int,
        );
        Pos { x: m.0 as i64, y: m.1 as i64 }
    } else {
        v.player
    }
}

impl Game {
    /// One frame of player movement: while running, the position advances
    /// along the current facing and is clamped to the level; idle leaves
    /// it untouched.
    fn apply_movement(&mut self, dt_ms: u64)
        requires
            dt_ms <= 1000000000,
            0 <= old(self)@.player.x <= LEVEL_WIDTH_MILLI - UNIT_MILLI,
            0 <= old(self)@.player.y <= LEVEL_HEIGHT_MILLI - UNIT_MILLI,
        ensures
            final(self)@ == (GameView { player: moved_of(old(self)@, dt_ms), ..old(self)@ }),
    {
        if self.player_running {
            let (dx, dy) = step_vector(self.player_direction, dt_ms);
            let nx = self.player.x + dx;
            let ny = self.player.y + dy;
            let cx = if nx < 0 {
                0
            } else if nx > LEVEL_WIDTH_MILLI - UNIT_MILLI {
                LEVEL_WIDTH_MILLI - UNIT_MILLI
            } else {
                nx
            };
            let cy = if ny < 0 {
                0
            } else if ny > LEVEL_HEIGHT_MILLI - UNIT_MILLI {
                LEVEL_HEIGHT_MILLI - UNIT_MILLI
            } else {
                ny
            };
            self.player = Pos { x: cx, y: cy };
        }
    }

    /// Advances the spawn schedule by `dt_ms` and spawns the letters it
    /// owes: while the accumulator exceeds the positive threshold, one
    /// letter appears at a uniformly random interior position with a
    /// uniformly random house number, the threshold's worth of time is
    /// consumed, and the threshold decays by 0.95.  Should the threshold
    /// decay to nothing the accumulator is cleared, as no further
    /// schedule is meaningful.  Returns the spawned letters as a ghost
    /// witness.
    fn apply_spawn(&mut self, dt_ms: u64, rng: &mut rand::rngs::StdRng) -> (sp: Ghost<
        Seq<Letter>,
    >)
        requires
            dt_ms <= 1000000000,
            old(self)@.acc_ms <= old(self)@.interval_ms <= SPAWN_TIME_MS,
            old(self)@.interval_ms == spawn_interval(old(self)@.spawns),
        ensures
            ({
                let dr = drain(old(self)@.acc_ms + dt_ms, old(self)@.spawns);
                &&& final(self)@ == (GameView {
                    acc_ms: if spawn_interval(dr.1) > 0 {
                        dr.0 as u64
                    } else {
                        0u64
                    },
                    interval_ms: spawn_interval(dr.1) as u64,
                    spawns: dr.1,
                    ground: old(self)@.ground + sp@,
                    ..old(self)@
                })
                &&& sp@.len() == dr.1 - old(self)@.spawns
                &&& (forall|i: int| 0 <= i < sp@.len() ==> spawn_ok(#[trigger] sp@[i]))
                &&& final(self)@.acc_ms <= final(self)@.interval_ms <= old(self)@.interval_ms
            }),
    {
        let ghost pre = self@;
        let ghost target = drain(pre.acc_ms + dt_ms, pre.spawns);
        proof {
            crate::spawn::lemma_drain_bounds(pre.acc_ms + dt_ms, pre.spawns);
            crate::spawn::lemma_interval_bounds(pre.spawns);
        }
        self.time_since_last_letter = self.time_since_last_letter + dt_ms;
        let mut spawned: Ghost<Seq<Letter>> = Ghost(Seq::empty());
        while self.time_since_last_letter > self.letter_spawn_time && self.letter_spawn_time > 0
            invariant
                drain(self.time_since_last_letter as int, self.spawn_count@) == target,
                self.letter_spawn_time == spawn_interval(self.spawn_count@),
                self.letter_spawn_time <= SPAWN_TIME_MS,
                self.time_since_last_letter <= pre.acc_ms + dt_ms,
                self.spawn_count@ >= pre.spawns,
                spawned@.len() == self.spawn_count@ - pre.spawns,
                forall|i: int| 0 <= i < spawned@.len() ==> spawn_ok(#[trigger] spawned@[i]),
                self@ == (GameView {
                    acc_ms: self.time_since_last_letter,
                    interval_ms: self.letter_spawn_time,
                    spawns: self.spawn_count@,
                    ground: pre.ground + spawned@,
                    ..pre
                }),
            decreases self.time_since_last_letter,
        {
            proof {
                crate::spawn::lemma_interval_bounds(self.spawn_count@);
            }
            self.time_since_last_letter = self.time_since_last_letter - self.letter_spawn_time;
            self.letter_spawn_time = self.letter_spawn_time * 95 / 100;
            self.spawn_count = Ghost(self.spawn_count@ + 1);
            let x = rand_range_u64(rng, 2000, (LEVEL_WIDTH_MILLI - 2000) as u64);
            let y = rand_range_u64(rng, 2000, (LEVEL_HEIGHT_MILLI - 2000) as u64);
            let n = rand_range_u64(rng, 1, (HOUSE_COUNT + 1) as u64);
            let l = Letter::new(Pos { x: x as i64, y: y as i64 }, n as u32);
            self.letters.push(l);
            proof {
                assert(pre.ground + spawned@.push(l) =~= (pre.ground + spawned@).push(l));
            }
            spawned = Ghost(spawned@.push(l));
        }
        if self.letter_spawn_time == 0 {
            self.time_since_last_letter = 0;
        }
        proof {
            assert(drain(self.time_since_last_letter as int, self.spawn_count@) == (
                self.time_since_last_letter as int,
                self.spawn_count@,
            ) || self.letter_spawn_time == 0);
        }
        spawned
    }
}

/// A celebration list one frame later: every value aged by `5 * dt_ms`
/// milli-progress, those past full progress discarded.
pub open spec fn anim_step(s: Seq<u64>, dt: u64) -> Seq<u64>
    decreases s.len(),
{
    if s.len() == 0 {
        Seq::empty()
    } else {
        let rest = anim_step(s.skip(1), dt);
        if s[0] + 5 * dt <= ANIM_FULL {
            seq![(s[0] + 5 * dt) as u64] + rest
        } else {
            rest
        }
    }
}

impl Game {
    /// One frame of pickup resolution, exactly as `pickup_result` says:
    /// returns whether any letter was picked up and whether any was
    /// overflow-evicted.
    fn apply_pickup(&mut self) -> (r: (bool, bool))
        requires
            1 <= old(self)@.surface_w <= 1000000,
            all_sound(old(self)@.ground, old(self)@.now_ms),
            0 <= old(self)@.player.x <= LEVEL_WIDTH_MILLI,
            0 <= old(self)@.player.y <= LEVEL_HEIGHT_MILLI,
            old(self)@.now_ms + EMBARGO_MS <= u64::MAX,
        ensures
            ({
                let pk = pickup_result(
                    old(self)@.ground,
                    old(self)@.holding,
                    old(self)@.player,
                    old(self)@.now_ms,
                    old(self)@.surface_w as int,
                );
                &&& final(self)@ == (GameView { ground: pk.0, holding: pk.1, ..old(self)@ })
                &&& r.0 == pk.2
                &&& r.1 == pk.3
            }),
    {
        let ghost pre = self@;
        let ghost target = pickup_result(
            pre.ground,
            pre.holding,
            pre.player,
            pre.now_ms,
            pre.surface_w as int,
        );
        let mut not_picked: Vec<Letter> = Vec::new();
        let mut any_picked = false;
        let mut any_dropped = false;
        while self.letters.len() > 0
            invariant
                1 <= pre.surface_w <= 1000000,
                0 <= pre.player.x <= LEVEL_WIDTH_MILLI,
                0 <= pre.player.y <= LEVEL_HEIGHT_MILLI,
                pre.now_ms + EMBARGO_MS <= u64::MAX,
                all_sound(self.letters@, pre.now_ms),
                target == pickup_result(
                    pre.ground,
                    pre.holding,
                    pre.player,
                    pre.now_ms,
                    pre.surface_w as int,
                ),
                ({
                    let cur = pickup_result(
                        self.letters@,
                        self.holding_letters@,
                        pre.player,
                        pre.now_ms,
                        pre.surface_w as int,
                    );
                    &&& target.0 == not_picked@ + cur.0
                    &&& target.1 == cur.1
                    &&& target.2 == (any_picked || cur.2)
                    &&& target.3 == (any_dropped || cur.3)
                }),
                self@ == (GameView {
                    ground: self.letters@,
                    holding: self.holding_letters@,
                    ..pre
                }),
            decreases self.letters@.len(),
        {
            let ghost gpre = self.letters@;
            let ghost hpre = self.holding_letters@;
            let letter = self.letters.pop().unwrap();
            proof {
                assert(letter == gpre.last());
                assert(self.letters@ =~= gpre.drop_last());
                assert(letter_wf(letter) && letter.release_ms <= pre.now_ms + EMBARGO_MS) by {
                    assert(gpre[gpre.len() - 1] == letter);
                }
                assert(all_sound(self.letters@, pre.now_ms)) by {
                    assert(forall|i: int|
                        0 <= i < self.letters@.len() ==> #[trigger] self.letters@[i] == gpre[i]);
                }
            }
            if letter.player_intersection(self.player, self.now_ms, self.surface_w) {
                self.holding_letters.push_front(letter);
                any_picked = true;
                let ghost grown = self.holding_letters@;
                if self.holding_letters.len() > MAX_HOLDING {
                    let oldest = match self.holding_letters.pop_back() {
                        Some(x) => x,
                        None => letter,
                    };
                    let fell = Letter {
                        number: oldest.number,
                        pos: self.player,
                        release_ms: self.now_ms + EMBARGO_MS,
                    };
                    not_picked.push(fell);
                    any_dropped = true;
                    proof {
                        assert(oldest == grown.last());
                        assert(self.holding_letters@ =~= grown.drop_last());
                        assert(fell == crate::engine::evicted(grown.last(), pre.player, pre.now_ms));
                        let cur2 = pickup_result(
                            self.letters@,
                            self.holding_letters@,
                            pre.player,
                            pre.now_ms,
                            pre.surface_w as int,
                        );
                        assert(pickup_result(
                            gpre,
                            hpre,
                            pre.player,
                            pre.now_ms,
                            pre.surface_w as int,
                        ).0 == seq![fell] + cur2.0);
                        assert(not_picked@ + cur2.0 =~= not_picked@.drop_last() + (seq![fell]
                            + cur2.0)) by {
                            assert(not_picked@.last() == fell);
                            assert(not_picked@.drop_last().push(fell) =~= not_picked@);
                        }
                    }
                }
            } else {
                not_picked.push(letter);
                proof {
                    let cur2 = pickup_result(
                        self.letters@,
                        self.holding_letters@,
                        pre.player,
                        pre.now_ms,
                        pre.surface_w as int,
                    );
                    assert(not_picked@ + cur2.0 =~= not_picked@.drop_last() + (seq![letter]
                        + cur2.0)) by {
                        assert(not_picked@.last() == letter);
                        assert(not_picked@.drop_last().push(letter) =~= not_picked@);
                    }
                }
            }
        }
        proof {
            let cur = pickup_result(
                self.letters@,
                self.holding_letters@,
                pre.player,
                pre.now_ms,
                pre.surface_w as int,
            );
            assert(target.0 =~= not_picked@ + cur.0);
            assert(target.0 =~= not_picked@);
        }
        self.letters = not_picked;
        (any_picked, any_dropped)
    }

    /// Pops held letters at a house numbered `number` from the front of
    /// the holding order while the front matches, scoring one point per
    /// letter, exactly the matching prefix.
    fn deliver_at(&mut self, number: u32) -> (c: u32)
        requires
            old(self)@.score + old(self)@.holding.len() <= u32::MAX,
        ensures
            c == matching_prefix(old(self)@.holding, number),
            final(self)@ == (GameView {
                holding: old(self)@.holding.skip(c as int),
                score: (old(self)@.score + c) as u32,
                ..old(self)@
            }),
    {
        let ghost pre = self@;
        proof {
            lemma_matching_prefix(pre.holding, number);
        }
        let mut c: u32 = 0;
        while self.holding_letters.len() > 0 && self.holding_letters[0].number == number
            invariant
                c <= pre.holding.len(),
                pre.score + pre.holding.len() <= u32::MAX,
                matching_prefix(pre.holding, number) == c + matching_prefix(
                    self.holding_letters@,
                    number,
                ),
                self.holding_letters@ =~= pre.holding.skip(c as int),
                self@ == (GameView {
                    holding: self.holding_letters@,
                    score: (pre.score + c) as u32,
                    ..pre
                }),
            decreases self.holding_letters@.len(),
        {
            let ghost hcur = self.holding_letters@;
            let popped = self.holding_letters.pop_front();
            self.score = self.score + 1;
            c = c + 1;
            proof {
                assert(matching_prefix(hcur, number) == 1 + matching_prefix(hcur.skip(1), number));
                assert(self.holding_letters@ =~= hcur.skip(1));
                assert(pre.holding.skip(c - 1).skip(1) =~= pre.holding.skip(c as int));
            }
        }
        proof {
            assert(matching_prefix(self.holding_letters@, number) == 0);
        }
        c
    }

    /// One frame of delivery resolution, exactly as `deliver_result`
    /// says: each house in delivery range, visited in order, receives the
    /// matching prefix of the holding order.  Returns how many letters
    /// were delivered.
    fn apply_delivery(&mut self) -> (c: u32)
        requires
            1 <= old(self)@.surface_w <= 1000000,
            0 <= old(self)@.player.x <= LEVEL_WIDTH_MILLI,
            0 <= old(self)@.player.y <= LEVEL_HEIGHT_MILLI,
            houses_ok(old(self)@.houses),
            old(self)@.holding.len() <= MAX_HOLDING,
            old(self)@.score + MAX_HOLDING <= u32::MAX,
        ensures
            ({
                let dv = deliver_result(
                    old(self)@.holding,
                    old(self)@.houses,
                    old(self)@.player,
                    old(self)@.surface_w as int,
                );
                &&& c == dv.1
                &&& final(self)@ == (GameView {
                    holding: dv.0,
                    score: (old(self)@.score + dv.1) as u32,
                    ..old(self)@
                })
            }),
    {
        let ghost pre = self@;
        let ghost target = deliver_result(
            pre.holding,
            pre.houses,
            pre.player,
            pre.surface_w as int,
        );
        proof {
            lemma_deliver_pops_front(pre.holding, pre.houses, pre.player, pre.surface_w as int);
            assert(pre.houses.skip(0) =~= pre.houses);
        }
        let mut i: usize = 0;
        let mut delivered: u32 = 0;
        while i < self.houses.len()
            invariant
                0 <= i <= pre.houses.len(),
                1 <= pre.surface_w <= 1000000,
                0 <= pre.player.x <= LEVEL_WIDTH_MILLI,
                0 <= pre.player.y <= LEVEL_HEIGHT_MILLI,
                houses_ok(pre.houses),
                pre.holding.len() <= MAX_HOLDING,
                pre.score + MAX_HOLDING <= u32::MAX,
                delivered + self.holding_letters@.len() <= pre.holding.len(),
                target == deliver_result(
                    pre.holding,
                    pre.houses,
                    pre.player,
                    pre.surface_w as int,
                ),
                ({
                    let cur = deliver_result(
                        self.holding_letters@,
                        pre.houses.skip(i as int),
                        pre.player,
                        pre.surface_w as int,
                    );
                    &&& target.0 == cur.0
                    &&& target.1 == delivered + cur.1
                }),
                self@ == (GameView {
                    holding: self.holding_letters@,
                    score: (pre.score + delivered) as u32,
                    ..pre
                }),
            decreases pre.houses.len() - i,
        {
            let h = self.houses[i];
            let ghost hold_pre = self.holding_letters@;
            let ghost rest_houses = pre.houses.skip(i as int);
            proof {
                assert(rest_houses[0] == pre.houses[i as int]);
                assert(rest_houses.skip(1) =~= pre.houses.skip(i as int + 1));
                lemma_matching_prefix(hold_pre, h.number);
            }
            let close = h.player_intersection(self.player, self.surface_w);
            let mut step: u32 = 0;
            if close {
                step = self.deliver_at(h.number);
            } else {
                proof {
                    assert(hold_pre.skip(0) =~= hold_pre);
                }
            }
            proof {
                lemma_deliver_pops_front(
                    self.holding_letters@,
                    pre.houses.skip(i as int + 1),
                    pre.player,
                    pre.surface_w as int,
                );
            }
            delivered = delivered + step;
            i = i + 1;
        }
        proof {
            assert(pre.houses.skip(pre.houses.len() as int) =~= Seq::<House>::empty());
        }
        delivered
    }

    /// Ages the score-celebration values by one frame — a fresh one is
    /// added first when this frame delivered — and discards those past
    /// full progress, exactly as `anim_step` says.
    fn apply_anim(&mut self, dt_ms: u64, delivered: bool)
        requires
            dt_ms <= 1000000000,
            forall|i: int| 0 <= i < old(self)@.anim.len() ==> #[trigger] old(self)@.anim[i]
                <= ANIM_FULL,
        ensures
            final(self)@ == (GameView {
                anim: anim_step(
                    if delivered {
                        seq![0u64] + old(self)@.anim
                    } else {
                        old(self)@.anim
                    },
                    dt_ms,
                ),
                ..old(self)@
            }),
            forall|i: int| 0 <= i < final(self)@.anim.len() ==> #[trigger] final(self)@.anim[i]
                <= ANIM_FULL,
    {
        let ghost pre = self@;
        if delivered {
            self.letter_animation.push_front(0);
        }
        let ghost base = self.letter_animation@;
        proof {
            assert(forall|i: int|
                0 <= i < base.len() ==> #[trigger] base[i] <= ANIM_FULL) by {
                if delivered {
                    assert(forall|i: int|
                        1 <= i < base.len() ==> #[trigger] base[i] == pre.anim[i - 1]);
                }
            }
        }
        let mut kept: VecDeque<u64> = VecDeque::new();
        while self.letter_animation.len() > 0
            invariant
                dt_ms <= 1000000000,
                forall|i: int|
                    0 <= i < self.letter_animation@.len() ==> #[trigger] self.letter_animation@[i]
                        <= ANIM_FULL,
                anim_step(base, dt_ms) == kept@ + anim_step(self.letter_animation@, dt_ms),
                forall|i: int| 0 <= i < kept@.len() ==> #[trigger] kept@[i] <= ANIM_FULL,
                self@ == (GameView { anim: self.letter_animation@, ..pre }),
            decreases self.letter_animation@.len(),
        {
            let ghost apre = self.letter_animation@;
            let v = match self.letter_animation.pop_front() {
                Some(x) => x,
                None => 0,
            };
            proof {
                assert(v == apre[0]);
                assert(self.letter_animation@ =~= apre.skip(1));
            }
            let aged = v + 5 * dt_ms;
            if aged <= ANIM_FULL {
                let ghost kpre = kept@;
                kept.push_back(aged);
                proof {
                    assert(kept@ + anim_step(self.letter_animation@, dt_ms) =~= kpre + (seq![aged]
                        + anim_step(self.letter_animation@, dt_ms)));
                }
            }
        }
        proof {
            assert(anim_step(self.letter_animation@, dt_ms) =~= Seq::<u64>::empty());
            assert(anim_step(base, dt_ms) =~= kept@);
        }
        self.letter_animation = kept;
    }
}

/// The quiet frame: no cue fired.
pub open spec fn no_cues() -> FrameCues {
    FrameCues { bad_drop: false, pickup: false, delivery: false }
}

/// What one frame does, given the letters `spawned` that the random
/// draws produced: the player moves and is clamped, the spawn schedule
/// catches up, the spawned letters join the ground, pickups then
/// deliveries resolve against the moved player, the ground count decides
/// game over, and the celebration values age.  The cues report eviction
/// (which mutes pickup), pickup, and delivery.
pub open spec fn frame_rel(
    pre: GameView,
    post: GameView,
    dt: u64,
    spawned: Seq<Letter>,
    cues: FrameCues,
) -> bool {
    let now1 = (pre.now_ms + dt) as u64;
    let pl = moved_of(pre, dt);
    let dr = drain(pre.acc_ms + dt, pre.spawns);
    let ground1 = pre.ground + spawned;
    let pk = pickup_result(ground1, pre.holding, pl, now1, pre.surface_w as int);
    let dv = deliver_result(pk.1, pre.houses, pl, pre.surface_w as int);
    let anim1 = if dv.1 > 0 {
        seq![0u64] + pre.anim
    } else {
        pre.anim
    };
    &&& spawned.len() == dr.1 - pre.spawns
    &&& (forall|i: int| 0 <= i < spawned.len() ==> spawn_ok(#[trigger] spawned[i]))
    &&& post == (GameView {
        player: pl,
        ground: pk.0,
        holding: dv.0,
        acc_ms: if spawn_interval(dr.1) > 0 {
            dr.0 as u64
        } else {
            0u64
        },
        interval_ms: spawn_interval(dr.1) as u64,
        spawns: dr.1,
        score: (pre.score + dv.1) as u32,
        game_over: pk.0.len() >= MAX_LETTERS_ON_GROUND,
        anim: anim_step(anim1, dt),
        now_ms: now1,
        ..pre
    })
    &&& cues == (FrameCues { bad_drop: pk.3, pickup: pk.2 && !pk.3, delivery: dv.1 > 0 })
}

/// One call of `update`: a game-over state is frozen — nothing changes
/// and no cue fires — until restart; otherwise some valid spawn outcome
/// relates the states as `frame_rel` says.
pub open spec fn update_rel(pre: GameView, post: GameView, dt: u64, cues: FrameCues) -> bool {
    if pre.game_over {
        &&& post == pre
        &&& cues == no_cues()
    } else {
        exists|spawned: Seq<Letter>| frame_rel(pre, post, dt, spawned, cues)
    }
}

/// The state after a restart: a fresh level as `initial_view` gives it,
/// except that the clock, the pressed keys, the facing and the surface
/// carry over.
pub open spec fn restart_rel(pre: GameView, post: GameView) -> bool {
    &&& houses_ok(post.houses)
    &&& post == (GameView {
        player: Pos { x: PLAYER_START_MILLI, y: PLAYER_START_MILLI },
        houses: post.houses,
        ground: Seq::<Letter>::empty(),
        holding: Seq::<Letter>::empty(),
        acc_ms: 0u64,
        interval_ms: SPAWN_TIME_MS,
        spawns: 0,
        score: 0u32,
        game_over: false,
        anim: Seq::<u64>::empty(),
        ..pre
    })
}

impl Game {
    /// Reinitializes the whole world — player, houses, letters, holding,
    /// spawn schedule, score, celebrations and the game-over flag — as
    /// `restart_rel` says; houses are drawn afresh.
    pub fn restart(&mut self, rng: &mut rand::rngs::StdRng)
        requires
            inv(old(self)@),
        ensures
            inv(final(self)@),
            restart_rel(old(self)@, final(self)@),
    {
        self.player = Pos { x: PLAYER_START_MILLI, y: PLAYER_START_MILLI };
        let hs = Game::generate_houses(self.variant_count, rng);
        self.houses = hs;
        self.letters = Vec::new();
        self.holding_letters = VecDeque::new();
        self.time_since_last_letter = 0;
        self.score = 0;
        self.game_over = false;
        self.letter_animation = VecDeque::new();
        self.letter_spawn_time = SPAWN_TIME_MS;
        self.spawn_count = Ghost(0);
        proof {
            assert(spawn_interval(0) == SPAWN_TIME_MS);
        }
    }

    /// Recomputes facing and the running flag from the pressed keys; an
    /// idle key state keeps the last facing.
    fn recalc_direction(&mut self)
        ensures
            final(self)@ == (GameView {
                direction: match resolve_direction(
                    old(self)@.left,
                    old(self)@.right,
                    old(self)@.up,
                    old(self)@.down,
                ) {
                    Some(d) => d,
                    None => old(self)@.direction,
                },
                running: resolve_direction(
                    old(self)@.left,
                    old(self)@.right,
                    old(self)@.up,
                    old(self)@.down,
                ) is Some,
                ..old(self)@
            }),
    {
        match crate::player::direction_from_keys(
            self.left_pressed,
            self.right_pressed,
            self.up_pressed,
            self.down_pressed,
        ) {
            Some(d) => {
                self.player_direction = d;
                self.player_running = true;
            },
            None => {
                self.player_running = false;
            },
        }
    }

    /// The pressed-key flags after `key` goes down or up; the confirm
    /// key moves no flag.
    pub open spec fn keys_with(v: GameView, key: InputKey, val: bool) -> (bool, bool, bool, bool) {
        match key {
            InputKey::Left => (val, v.right, v.up, v.down),
            InputKey::Right => (v.left, val, v.up, v.down),
            InputKey::Up => (v.left, v.right, val, v.down),
            InputKey::Down => (v.left, v.right, v.up, val),
            InputKey::Confirm => (v.left, v.right, v.up, v.down),
        }
    }

    /// The state after a key event that moved the flags to `k`: facing
    /// and running follow the resolved direction.
    pub open spec fn keyed_view(pre: GameView, k: (bool, bool, bool, bool)) -> GameView {
        GameView {
            left: k.0,
            right: k.1,
            up: k.2,
            down: k.3,
            direction: match resolve_direction(k.0, k.1, k.2, k.3) {
                Some(d) => d,
                None => pre.direction,
            },
            running: resolve_direction(k.0, k.1, k.2, k.3) is Some,
            ..pre
        }
    }

    /// A key going down.  During game over only the confirm key acts, and
    /// it restarts; otherwise a movement key sets its flag and the facing
    /// is recomputed.
    pub fn key_down(&mut self, key: InputKey, rng: &mut rand::rngs::StdRng)
        requires
            inv(old(self)@),
        ensures
            inv(final(self)@),
            old(self)@.game_over && key == InputKey::Confirm ==> restart_rel(
                old(self)@,
                final(self)@,
            ),
            old(self)@.game_over && key != InputKey::Confirm ==> final(self)@ == old(self)@,
            !old(self)@.game_over ==> final(self)@ == Game::keyed_view(
                old(self)@,
                Game::keys_with(old(self)@, key, true),
            ),
    {
        if self.game_over {
            if key == InputKey::Confirm {
                self.restart(rng);
            }
        } else {
            match key {
                InputKey::Left => self.left_pressed = true,
                InputKey::Right => self.right_pressed = true,
                InputKey::Up => self.up_pressed = true,
                InputKey::Down => self.down_pressed = true,
                InputKey::Confirm => {},
            }
            self.recalc_direction();
        }
    }

    /// A key going up: ignored during game over, else the flag clears and
    /// the facing is recomputed.
    pub fn key_up(&mut self, key: InputKey)
        requires
            inv(old(self)@),
        ensures
            inv(final(self)@),
            old(self)@.game_over ==> final(self)@ == old(self)@,
            !old(self)@.game_over ==> final(self)@ == Game::keyed_view(
                old(self)@,
                Game::keys_with(old(self)@, key, false),
            ),
    {
        if !self.game_over {
            match key {
                InputKey::Left => self.left_pressed = false,
                InputKey::Right => self.right_pressed = false,
                InputKey::Up => self.up_pressed = false,
                InputKey::Down => self.down_pressed = false,
                InputKey::Confirm => {},
            }
            self.recalc_direction();
        }
    }

    /// One frame.  A game-over state is frozen and fires no cue; any
    /// other state advances exactly as `frame_rel` says for the letters
    /// the random draws spawned, and the returned cues report eviction,
    /// pickup and delivery, eviction muting pickup.
    pub fn update(&mut self, dt_ms: u64, rng: &mut rand::rngs::StdRng) -> (cues: FrameCues)
        requires
            inv(old(self)@),
            dt_ms <= 1000000000,
            old(self)@.now_ms + dt_ms + EMBARGO_MS <= u64::MAX,
            old(self)@.score + MAX_HOLDING <= u32::MAX,
        ensures
            inv(final(self)@),
            update_rel(old(self)@, final(self)@, dt_ms, cues),
            final(self)@.interval_ms <= old(self)@.interval_ms,
            old(self)@.game_over ==> final(self)@.game_over,
    {
        if self.game_over {
            return FrameCues { bad_drop: false, pickup: false, delivery: false };
        }
        let ghost pre = self@;
        self.now_ms = self.now_ms + dt_ms;
        let ghost now1 = self.now_ms;
        self.apply_movement(dt_ms);
        proof {
            assert(moved_of(GameView { now_ms: now1, ..pre }, dt_ms) == moved_of(pre, dt_ms));
        }
        let ghost pl = moved_of(pre, dt_ms);
        let sp = self.apply_spawn(dt_ms, rng);
        let ghost dr = drain(pre.acc_ms + dt_ms, pre.spawns);
        let ghost ground1 = pre.ground + sp@;
        proof {
            crate::spawn::lemma_drain_bounds(pre.acc_ms + dt_ms, pre.spawns);
            crate::spawn::lemma_interval_bounds(dr.1);
            assert(all_sound(ground1, now1)) by {
                assert forall|i: int|
                    0 <= i < ground1.len() implies letter_wf(#[trigger] ground1[i])
                    && ground1[i].release_ms <= now1 + EMBARGO_MS by {
                    if i < pre.ground.len() {
                        assert(ground1[i] == pre.ground[i]);
                        assert(letter_wf(pre.ground[i]) && pre.ground[i].release_ms <= pre.now_ms
                            + EMBARGO_MS);
                    } else {
                        assert(ground1[i] == sp@[i - pre.ground.len()]);
                        assert(spawn_ok(sp@[i - pre.ground.len()]));
                    }
                }
            }
            assert(all_sound(pre.holding, now1)) by {
                assert(forall|i: int|
                    0 <= i < pre.holding.len() ==> letter_wf(#[trigger] pre.holding[i])
                        && pre.holding[i].release_ms <= pre.now_ms + EMBARGO_MS);
            }
        }
        let picked_dropped = self.apply_pickup();
        let ghost pk = pickup_result(ground1, pre.holding, pl, now1, pre.surface_w as int);
        proof {
            crate::engine::lemma_pickup_holding_bounded(
                ground1,
                pre.holding,
                pl,
                now1,
                pre.surface_w as int,
            );
            crate::engine::lemma_pickup_wf(ground1, pre.holding, pl, now1, pre.surface_w as int);
        }
        let c = self.apply_delivery();
        let ghost dv = deliver_result(pk.1, pre.houses, pl, pre.surface_w as int);
        proof {
            lemma_deliver_pops_front(pk.1, pre.houses, pl, pre.surface_w as int);
        }
        if self.letters.len() >= MAX_LETTERS_ON_GROUND {
            self.game_over = true;
        }
        self.apply_anim(dt_ms, c > 0);
        let cues = FrameCues {
            bad_drop: picked_dropped.1,
            pickup: picked_dropped.0 && !picked_dropped.1,
            delivery: c > 0,
        };
        proof {
            let anim1 = if dv.1 > 0 {
                seq![0u64] + pre.anim
            } else {
                pre.anim
            };
            assert(self@ =~= (GameView {
                player: pl,
                ground: pk.0,
                holding: dv.0,
                acc_ms: if spawn_interval(dr.1) > 0 {
                    dr.0 as u64
                } else {
                    0u64
                },
                interval_ms: spawn_interval(dr.1) as u64,
                spawns: dr.1,
                score: (pre.score + dv.1) as u32,
                game_over: pk.0.len() >= MAX_LETTERS_ON_GROUND,
                anim: anim_step(anim1, dt_ms),
                now_ms: now1,
                ..pre
            }));
            assert(frame_rel(pre, self@, dt_ms, sp@, cues));
            assert(all_sound(dv.0, now1)) by {
                assert forall|i: int|
                    0 <= i < dv.0.len() implies letter_wf(#[trigger] dv.0[i])
                    && dv.0[i].release_ms <= now1 + EMBARGO_MS by {
                    assert(dv.0[i] == pk.1[i + dv.1]);
                }
            }
            assert(inv(self@));
        }
        cues
    }
}

impl Game {
    /// The spawner's insertion with the random draws supplied by the
    /// caller: puts a fresh letter on the ground at `pos`, numbered
    /// `number`, immediately pickupable.  This is what keeps spawn
    /// outcomes reproducible in tests, as randomness is injected rather
    /// than drawn inside.
    pub fn place_letter(&mut self, pos: Pos, number: u32)
        requires
            inv(old(self)@),
            1 <= number <= HOUSE_COUNT,
            0 <= pos.x <= LEVEL_WIDTH_MILLI,
            0 <= pos.y <= LEVEL_HEIGHT_MILLI,
            old(self)@.ground.len() + 1 < MAX_LETTERS_ON_GROUND,
        ensures
            inv(final(self)@),
            final(self)@ == (GameView {
                ground: old(self)@.ground.push(
                    Letter { number, pos, release_ms: 0u64 },
                ),
                ..old(self)@
            }),
    {
        let l = Letter::new(pos, number);
        self.letters.push(l);
        proof {
            assert(all_sound(self@.ground, self@.now_ms)) by {
                assert(forall|i: int|
                    0 <= i < self@.ground.len() - 1 ==> #[trigger] self@.ground[i]
                        == old(self)@.ground[i]);
                assert(self@.ground.last() == l);
            }
        }
    }

    /// The score so far.
    pub fn score(&self) -> (r: u32)
        ensures
            r == self@.score,
    {
        self.score
    }

    /// Whether the run has ended.
    pub fn is_game_over(&self) -> (r: bool)
        ensures
            r == self@.game_over,
    {
        self.game_over
    }

    /// The player sprite's world position.
    pub fn player_position(&self) -> (r: Pos)
        ensures
            r == self@.player,
    {
        self.player
    }

    /// The player's current facing.
    pub fn direction(&self) -> (r: Direction)
        ensures
            r == self@.direction,
    {
        self.player_direction
    }

    /// Whether the player is currently moving.
    pub fn is_running(&self) -> (r: bool)
        ensures
            r == self@.running,
    {
        self.player_running
    }

    /// The simulation clock, in milliseconds.
    pub fn now(&self) -> (r: u64)
        ensures
            r == self@.now_ms,
    {
        self.now_ms
    }

    /// Time accumulated toward the next spawn, in milliseconds: with the
    /// threshold, the renderer's progress bar fraction.
    pub fn time_since_last_letter(&self) -> (r: u64)
        ensures
            r == self@.acc_ms,
    {
        self.time_since_last_letter
    }

    /// The current spawn threshold, in milliseconds.
    pub fn letter_spawn_time(&self) -> (r: u64)
        ensures
            r == self@.interval_ms,
    {
        self.letter_spawn_time
    }

    /// The houses, in number order.
    pub fn houses(&self) -> (hs: Vec<House>)
        ensures
            hs@ == self@.houses,
    {
        let mut out: Vec<House> = Vec::new();
        let mut i: usize = 0;
        while i < self.houses.len()
            invariant
                0 <= i <= self.houses@.len(),
                out@ =~= self.houses@.take(i as int),
            decreases self.houses@.len() - i,
        {
            out.push(self.houses[i]);
            i += 1;
        }
        proof {
            assert(self.houses@.take(self.houses@.len() as int) =~= self.houses@);
        }
        out
    }

    /// The letters on the ground.
    pub fn ground_letters(&self) -> (ls: Vec<Letter>)
        ensures
            ls@ == self@.ground,
    {
        let mut out: Vec<Letter> = Vec::new();
        let mut i: usize = 0;
        while i < self.letters.len()
            invariant
                0 <= i <= self.letters@.len(),
                out@ =~= self.letters@.take(i as int),
            decreases self.letters@.len() - i,
        {
            out.push(self.letters[i]);
            i += 1;
        }
        proof {
            assert(self.letters@.take(self.letters@.len() as int) =~= self.letters@);
        }
        out
    }

    /// The held letters, front of the holding order first.
    pub fn held_letters(&self) -> (ls: Vec<Letter>)
        ensures
            ls@ == self@.holding,
    {
        let mut out: Vec<Letter> = Vec::new();
        let mut i: usize = 0;
        while i < self.holding_letters.len()
            invariant
                0 <= i <= self.holding_letters@.len(),
                out@ =~= self.holding_letters@.take(i as int),
            decreases self.holding_letters@.len() - i,
        {
            out.push(self.holding_letters[i]);
            i += 1;
        }
        proof {
            assert(self.holding_letters@.take(self.holding_letters@.len() as int)
                =~= self.holding_letters@);
        }
        out
    }

    /// The score-celebration progress values, newest first, each in
    /// `[0, ANIM_FULL]` milli-progress.
    pub fn animations(&self) -> (vs: Vec<u64>)
        ensures
            vs@ == self@.anim,
    {
        let mut out: Vec<u64> = Vec::new();
        let mut i: usize = 0;
        while i < self.letter_animation.len()
            invariant
                0 <= i <= self.letter_animation@.len(),
                out@ =~= self.letter_animation@.take(i as int),
            decreases self.letter_animation@.len() - i,
        {
            out.push(self.letter_animation[i]);
            i += 1;
        }
        proof {
            assert(self.letter_animation@.take(self.letter_animation@.len() as int)
                =~= self.letter_animation@);
        }
        out
    }

    /// The camera translation for the current player position, in world
    /// milli-units, as the viewport mapper defines it.
    pub fn camera_offset(&self) -> (off: (i64, i64))
        requires
            inv(self@),
        ensures
            off.0 == crate::geom::camera_off_1d(
                self@.player.x - crate::geom::center_shift(
                    self@.surface_w as int,
                    self@.surface_h as int,
                ).0,
                crate::TILES_ON_WIDTH_MILLI as int,
                LEVEL_WIDTH_MILLI as int,
            ),
            off.1 == crate::geom::camera_off_1d(
                self@.player.y - crate::geom::center_shift(
                    self@.surface_w as int,
                    self@.surface_h as int,
                ).1,
                15000 * (self@.surface_h as int) / (self@.surface_w as int),
                LEVEL_HEIGHT_MILLI as int,
            ),
    {
        crate::geom::camera_offset(self.player, self.surface_w, self.surface_h)
    }
}

/// Once set, the game-over flag freezes everything: a frame that starts
/// in game over leaves the whole state — flag included — untouched and
/// fires no cue, so the flag stays true until a restart clears it.
pub proof fn lemma_game_over_freezes(pre: GameView, post: GameView, dt: u64, cues: FrameCues)
    requires
        update_rel(pre, post, dt, cues),
        pre.game_over,
    ensures
        post == pre,
        post.game_over,
        cues == no_cues(),
{
}

} // verus!
