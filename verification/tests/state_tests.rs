use postal::game::InputKey;
use postal::state::SplashScreen;
use postal::state::StateHolder;
use rand::rngs::StdRng;
use rand::SeedableRng;

fn seeded() -> StdRng {
    StdRng::seed_from_u64(11)
}

#[test]
fn splash_waits_for_confirm() {
    let mut s = SplashScreen::new();
    assert!(!s.should_start());
    s.update(3000);
    assert_eq!(s.duration_ms, 3000);
    assert!(!s.should_start());
    s.key_down(InputKey::Left);
    assert!(!s.should_start());
    s.key_down(InputKey::Confirm);
    assert!(s.should_start());
    s.update(10);
    assert!(s.should_start());
}

#[test]
fn holder_transitions_from_splash_to_game_once() {
    let mut rng = seeded();
    let mut holder = StateHolder::startup(800, 600, 4);
    // On the splash screen no game frame runs and no cues come back.
    assert!(holder.update(1000, &mut rng).is_none());
    assert!(holder.update(1000, &mut rng).is_none());
    // Confirm arms the transition; the next update enters the game.
    holder.key_down(InputKey::Confirm, &mut rng);
    assert!(holder.update(16, &mut rng).is_none());
    // From now on every update is a game frame.
    let cues = holder.update(16, &mut rng);
    assert!(cues.is_some());
    let cues = cues.unwrap();
    assert!(!cues.pickup && !cues.bad_drop && !cues.delivery);
    assert!(holder.update(16, &mut rng).is_some());
}

#[test]
fn holder_routes_keys_to_the_game() {
    let mut rng = seeded();
    let mut holder = StateHolder::startup(800, 600, 4);
    holder.key_down(InputKey::Confirm, &mut rng);
    holder.update(16, &mut rng);
    // Movement keys now reach the simulation.
    holder.key_down(InputKey::Right, &mut rng);
    holder.update(1000, &mut rng);
    holder.key_up(InputKey::Right);
    holder.update(1000, &mut rng);
    assert!(holder.update(16, &mut rng).is_some());
}
