use postal::entities::House;
use postal::entities::Letter;
use postal::game::Game;
use postal::game::InputKey;
use postal::geom::Pos;
use rand::rngs::StdRng;
use rand::SeedableRng;

fn seeded() -> StdRng {
    StdRng::seed_from_u64(7)
}

fn house(x: i64, y: i64, number: u32) -> House {
    House { pos: Pos { x, y }, number, variant: 0 }
}

/// Six houses all far from the player start at (10000, 10000).
fn away_houses() -> Vec<House> {
    vec![
        house(3000, 3000, 1),
        house(11000, 3000, 2),
        house(19000, 3000, 3),
        house(27000, 3000, 4),
        house(3000, 11000, 5),
        house(19000, 11000, 6),
    ]
}

/// Like `away_houses`, but house 3 stands at (12000, 10000), a short
/// walk right of the player start.
fn delivery_houses() -> Vec<House> {
    vec![
        house(3000, 3000, 1),
        house(11000, 3000, 2),
        house(12000, 10000, 3),
        house(27000, 3000, 4),
        house(3000, 11000, 5),
        house(19000, 11000, 6),
    ]
}

fn fresh(houses: Vec<House>) -> Game {
    Game::with_houses(800, 600, 4, houses)
}

#[test]
fn initial_state() {
    let g = fresh(away_houses());
    assert_eq!(g.score(), 0);
    assert!(!g.is_game_over());
    assert_eq!(g.player_position(), Pos { x: 10000, y: 10000 });
    assert!(!g.is_running());
    assert_eq!(g.letter_spawn_time(), 30000);
    assert_eq!(g.time_since_last_letter(), 0);
    assert!(g.ground_letters().is_empty());
    assert!(g.held_letters().is_empty());
    assert!(g.animations().is_empty());
}

#[test]
fn orthogonal_movement() {
    let mut rng = seeded();
    let mut g = fresh(away_houses());
    g.key_down(InputKey::Right, &mut rng);
    assert!(g.is_running());
    g.update(1000, &mut rng);
    // 7 milli-units per millisecond for one second.
    assert_eq!(g.player_position(), Pos { x: 17000, y: 10000 });
}

#[test]
fn diagonal_movement_is_scaled_by_070() {
    let mut rng = seeded();
    let mut g = fresh(away_houses());
    g.key_down(InputKey::Right, &mut rng);
    g.key_down(InputKey::Up, &mut rng);
    g.update(1000, &mut rng);
    // Each axis moves 70% of the orthogonal distance: 4900 of 7000.
    assert_eq!(g.player_position(), Pos { x: 14900, y: 5100 });
    // The squared diagonal magnitude stays strictly below the squared
    // orthogonal magnitude for the same frame.
    let d: i64 = 4900;
    let o: i64 = 7000;
    assert!(2 * d * d < o * o);
}

#[test]
fn opposing_keys_cancel() {
    let mut rng = seeded();
    let mut g = fresh(away_houses());
    g.key_down(InputKey::Left, &mut rng);
    g.key_down(InputKey::Right, &mut rng);
    assert!(!g.is_running());
    g.key_down(InputKey::Up, &mut rng);
    assert!(g.is_running());
    g.update(1000, &mut rng);
    assert_eq!(g.player_position(), Pos { x: 10000, y: 3000 });
}

#[test]
fn boundary_clamp_left() {
    let mut rng = seeded();
    let mut g = fresh(away_houses());
    g.key_down(InputKey::Left, &mut rng);
    g.update(2000, &mut rng);
    // 10000 - 14000 would be -4000; the clamp stops at 0.
    assert_eq!(g.player_position(), Pos { x: 0, y: 10000 });
}

#[test]
fn boundary_clamp_right() {
    let mut rng = seeded();
    let mut g = fresh(away_houses());
    g.key_down(InputKey::Right, &mut rng);
    g.update(4000, &mut rng);
    // 10000 + 28000 would be 38000; the clamp stops one tile short of
    // the level edge.
    assert_eq!(g.player_position(), Pos { x: 29000, y: 10000 });
}

#[test]
fn pickup_moves_letter_to_holding_front() {
    let mut rng = seeded();
    let mut g = fresh(away_houses());
    g.place_letter(Pos { x: 10000, y: 10000 }, 3);
    let cues = g.update(10, &mut rng);
    assert!(cues.pickup);
    assert!(!cues.bad_drop);
    assert!(!cues.delivery);
    assert!(g.ground_letters().is_empty());
    let held = g.held_letters();
    assert_eq!(held.len(), 1);
    assert_eq!(held[0].number, 3);
    assert_eq!(g.score(), 0);
}

#[test]
fn pickup_requires_proximity() {
    let mut rng = seeded();
    let mut g = fresh(away_houses());
    // 48 px at 800 px width is 900 milli-units; 1000 away is out of range.
    g.place_letter(Pos { x: 11000, y: 10000 }, 2);
    let cues = g.update(10, &mut rng);
    assert!(!cues.pickup);
    assert_eq!(g.ground_letters().len(), 1);
    assert!(g.held_letters().is_empty());
}

#[test]
fn fifth_pickup_evicts_oldest_with_embargo() {
    let mut rng = seeded();
    let mut g = fresh(away_houses());
    for n in 1u32..=4 {
        g.place_letter(Pos { x: 10000, y: 10000 }, n);
    }
    let cues = g.update(10, &mut rng);
    assert!(cues.pickup);
    assert!(!cues.bad_drop);
    assert_eq!(g.held_letters().len(), 4);
    // Ground order [1, 2, 3, 4] becomes holding order [1, 2, 3, 4]:
    // the engine takes the ground letters from the back.
    let held: Vec<u32> = g.held_letters().iter().map(|l| l.number).collect();
    assert_eq!(held, vec![1, 2, 3, 4]);

    // A fifth letter overflows the holding set: the back item (number 4,
    // the oldest held) falls at the player with a 2-second embargo, and
    // the eviction cue mutes the pickup cue.
    g.place_letter(Pos { x: 10000, y: 10000 }, 5);
    let cues = g.update(10, &mut rng);
    assert!(cues.bad_drop);
    assert!(!cues.pickup);
    let held: Vec<u32> = g.held_letters().iter().map(|l| l.number).collect();
    assert_eq!(held, vec![5, 1, 2, 3]);
    let ground = g.ground_letters();
    assert_eq!(ground.len(), 1);
    assert_eq!(ground[0].number, 4);
    assert_eq!(ground[0].pos, Pos { x: 10000, y: 10000 });
    assert_eq!(ground[0].release_ms, g.now() + 2000);
    assert!(ground[0].embargo_active(g.now()));
}

#[test]
fn embargoed_letter_is_not_picked_up_before_release() {
    let mut rng = seeded();
    let mut g = fresh(away_houses());
    for n in 1u32..=5 {
        g.place_letter(Pos { x: 10000, y: 10000 }, n);
    }
    // One frame: four picked up, the fifth processed and the oldest
    // evicted back to the ground, embargoed until now + 2000.
    let cues = g.update(10, &mut rng);
    assert!(cues.bad_drop);
    assert_eq!(g.held_letters().len(), 4);
    assert_eq!(g.ground_letters().len(), 1);
    let release = g.ground_letters()[0].release_ms;
    assert_eq!(release, g.now() + 2000);

    // Though spatially coincident with the player, it stays grounded
    // while the clock has not passed its release timestamp.
    let cues = g.update(1000, &mut rng);
    assert!(!cues.pickup && !cues.bad_drop);
    assert_eq!(g.ground_letters().len(), 1);
    assert!(g.now() < release);

    // Once the clock passes the timestamp it is picked up again (and,
    // the holding set being full, another letter is evicted in its place).
    let cues = g.update(2000, &mut rng);
    assert!(g.now() > release);
    assert!(cues.bad_drop);
    assert_eq!(g.held_letters().len(), 4);
    assert_eq!(g.ground_letters().len(), 1);
}

#[test]
fn delivery_pops_matching_prefix_only() {
    let mut rng = seeded();
    let mut g = fresh(delivery_houses());
    // Ground order [3, 3, 5, 3] becomes holding order [3, 3, 5, 3].
    g.place_letter(Pos { x: 10000, y: 10000 }, 3);
    g.place_letter(Pos { x: 10000, y: 10000 }, 3);
    g.place_letter(Pos { x: 10000, y: 10000 }, 5);
    g.place_letter(Pos { x: 10000, y: 10000 }, 3);
    let cues = g.update(10, &mut rng);
    assert!(cues.pickup);
    let held: Vec<u32> = g.held_letters().iter().map(|l| l.number).collect();
    assert_eq!(held, vec![3, 3, 5, 3]);
    // Walk right to house 3 at (12000, 10000): within 1200 milli-units
    // (64 px at 800 px width) after 300 ms.
    g.key_down(InputKey::Right, &mut rng);
    let cues = g.update(300, &mut rng);
    assert_eq!(g.player_position(), Pos { x: 12100, y: 10000 });
    assert!(cues.delivery);
    // Exactly the first two letters are delivered: the mismatched 5
    // blocks the buried 3, and neither is discarded.
    assert_eq!(g.score(), 2);
    let held: Vec<u32> = g.held_letters().iter().map(|l| l.number).collect();
    assert_eq!(held, vec![5, 3]);
}

#[test]
fn end_to_end_pickup_walk_deliver() {
    let mut rng = seeded();
    let mut g = fresh(delivery_houses());
    // A letter numbered 3 at a known position, out of initial reach.
    g.place_letter(Pos { x: 11200, y: 10000 }, 3);
    let cues = g.update(10, &mut rng);
    assert!(!cues.pickup);
    assert_eq!(g.ground_letters().len(), 1);

    // Walk onto it: it moves to the front of the holding order.
    g.key_down(InputKey::Right, &mut rng);
    let cues = g.update(100, &mut rng);
    assert_eq!(g.player_position(), Pos { x: 10700, y: 10000 });
    assert!(cues.pickup && !cues.delivery);
    assert!(g.ground_letters().is_empty());
    assert_eq!(g.held_letters().len(), 1);
    assert_eq!(g.held_letters()[0].number, 3);

    // Walk to house 3: the holding empties, the score becomes 1, one
    // delivery cue fires, and a score celebration starts.
    let cues = g.update(100, &mut rng);
    assert_eq!(g.player_position(), Pos { x: 11400, y: 10000 });
    assert!(cues.delivery);
    assert_eq!(g.score(), 1);
    assert!(g.held_letters().is_empty());
    assert_eq!(g.animations(), vec![500]);

    // The celebration ages at 5 milli-progress per millisecond and is
    // discarded once past full progress.
    g.key_up(InputKey::Right);
    g.update(50, &mut rng);
    assert_eq!(g.animations(), vec![750]);
    g.update(100, &mut rng);
    assert!(g.animations().is_empty());
}

#[test]
fn spawn_interval_decays_by_095_per_spawn() {
    let mut rng = seeded();
    let mut g = fresh(away_houses());
    assert_eq!(g.letter_spawn_time(), 30000);
    g.update(30001, &mut rng);
    // One letter spawned; the threshold decayed once: 30000 * 95 / 100.
    assert_eq!(g.letter_spawn_time(), 28500);
    assert_eq!(g.ground_letters().len() + g.held_letters().len(), 1);
    g.update(28501, &mut rng);
    assert_eq!(g.letter_spawn_time(), 27075);
    assert_eq!(g.ground_letters().len() + g.held_letters().len(), 2);
    // The interval never increases.
    let mut last = g.letter_spawn_time();
    for _ in 0..5 {
        g.update(30000, &mut rng);
        assert!(g.letter_spawn_time() <= last);
        last = g.letter_spawn_time();
    }
}

#[test]
fn ground_overflow_freezes_game_until_restart() {
    let mut rng = seeded();
    let mut g = fresh(away_houses());
    // Eight letters far from the player.
    for i in 0i64..8 {
        g.place_letter(Pos { x: 2000 + i * 1000, y: 17000 }, 1 + (i as u32 % 6) );
    }
    assert_eq!(g.ground_letters().len(), 8);
    assert!(!g.is_game_over());
    // Spawns push the ground count up to the limit of 10; until that
    // very frame the count stays below it and the run goes on.
    let mut frames: u32 = 0;
    while !g.is_game_over() {
        assert!(g.ground_letters().len() < 10);
        g.update(30000, &mut rng);
        frames += 1;
        assert!(frames < 32, "ground never filled");
    }
    assert!(g.ground_letters().len() >= 10);

    // Frozen: updates change nothing and fire no cues; movement keys are
    // ignored.
    let now = g.now();
    let count = g.ground_letters().len();
    let cues = g.update(5000, &mut rng);
    assert!(!cues.pickup && !cues.bad_drop && !cues.delivery);
    assert_eq!(g.now(), now);
    assert_eq!(g.ground_letters().len(), count);
    g.key_down(InputKey::Left, &mut rng);
    assert!(!g.is_running());

    // The confirm key restarts: score, collections, player, spawn
    // schedule and the flag all reset, and the fresh houses keep the
    // 4-unit separation on at least one axis.
    g.key_down(InputKey::Confirm, &mut rng);
    assert!(!g.is_game_over());
    assert_eq!(g.score(), 0);
    assert!(g.ground_letters().is_empty());
    assert!(g.held_letters().is_empty());
    assert_eq!(g.player_position(), Pos { x: 10000, y: 10000 });
    assert_eq!(g.letter_spawn_time(), 30000);
    assert_eq!(g.time_since_last_letter(), 0);
    let houses = g.houses();
    assert_eq!(houses.len(), 6);
    for (i, h) in houses.iter().enumerate() {
        assert_eq!(h.number, i as u32 + 1);
        assert!(3000 <= h.pos.x && h.pos.x <= 27000);
        assert!(3000 <= h.pos.y && h.pos.y <= 17000);
    }
    for i in 0..houses.len() {
        for j in (i + 1)..houses.len() {
            let dx = (houses[i].pos.x - houses[j].pos.x).abs();
            let dy = (houses[i].pos.y - houses[j].pos.y).abs();
            assert!(dx >= 4000 || dy >= 4000);
        }
    }
}

#[test]
fn generated_houses_respect_placement_rules() {
    let mut rng = seeded();
    let g = Game::new(800, 600, 4, &mut rng);
    let houses = g.houses();
    assert_eq!(houses.len(), 6);
    for (i, h) in houses.iter().enumerate() {
        assert_eq!(h.number, i as u32 + 1);
        assert!(3000 <= h.pos.x && h.pos.x <= 27000);
        assert!(3000 <= h.pos.y && h.pos.y <= 17000);
        assert!(h.variant < 4);
    }
    for i in 0..houses.len() {
        for j in (i + 1)..houses.len() {
            let dx = (houses[i].pos.x - houses[j].pos.x).abs();
            let dy = (houses[i].pos.y - houses[j].pos.y).abs();
            assert!(dx >= 4000 || dy >= 4000);
        }
    }
}

#[test]
fn fresh_letter_is_immediately_pickupable() {
    let l = Letter::new(Pos { x: 5000, y: 5000 }, 2);
    assert_eq!(l.release_ms, 0);
    assert!(!l.embargo_active(1));
}

#[test]
fn house_intersection_needs_both_axes() {
    let a = house(10000, 10000, 1);
    let b = house(13999, 10000, 2);
    let c = house(13999, 14000, 3);
    assert!(a.intersects(&b));
    assert!(!a.intersects(&c));
    assert!(!b.intersects(&c));
}
