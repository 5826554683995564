//! The top-level two-state machine: a splash screen that waits for the
//! confirm key, then the main game, with no way back.

use vstd::prelude::*;

use crate::game::houses_ok;
use crate::game::initial_view;
use crate::game::inv;
use crate::game::update_rel;
use crate::game::FrameCues;
use crate::game::Game;
use crate::game::GameView;
use crate::game::InputKey;
use crate::EMBARGO_MS;
use crate::MAX_HOLDING;

verus! {

/// The splash screen's own state: how long it has shown and whether the
/// confirm key was pressed.  Presentation is the renderer's concern.
#[derive(Clone, Copy, PartialEq, Eq, Structural, Debug)]
pub struct SplashScreen {
    pub duration_ms: u64,
    pub spacebar_pressed: bool,
}

impl SplashScreen {
    /// A splash screen that has just appeared.
    pub fn new() -> (s: SplashScreen)
        ensures
            s == (SplashScreen { duration_ms: 0u64, spacebar_pressed: false }),
    {
        SplashScreen { duration_ms: 0, spacebar_pressed: false }
    }

    /// Accumulates the frame's elapsed time.
    pub fn update(&mut self, dt_ms: u64)
        requires
            old(self).duration_ms + dt_ms <= u64::MAX,
        ensures
            *final(self) == (SplashScreen {
                duration_ms: (old(self).duration_ms + dt_ms) as u64,
                ..*old(self)
            }),
    {
        self.duration_ms = self.duration_ms + dt_ms;
    }

    /// Whether the main game should begin: true once confirm was pressed.
    pub fn should_start(&self) -> (r: bool)
        ensures
            r == self.spacebar_pressed,
    {
        self.spacebar_pressed
    }

    /// The confirm key arms the start condition; other keys do nothing.
    pub fn key_down(&mut self, key: InputKey)
        ensures
            *final(self) == (SplashScreen {
                spacebar_pressed: old(self).spacebar_pressed || key == InputKey::Confirm,
                ..*old(self)
            }),
    {
        if key == InputKey::Confirm {
            self.spacebar_pressed = true;
        }
    }
}

enum GameState {
    MainGame(Game),
    SplashScreen(SplashScreen),
}

/// The top-level dispatcher: splash first, then the game, for good.
pub struct StateHolder {
    game_state: GameState,
    surface_w: u32,
    surface_h: u32,
    variant_count: usize,
}

impl StateHolder {
    /// The splash state, while showing it.
    pub closed spec fn splash_view(&self) -> Option<SplashScreen> {
        match self.game_state {
            GameState::SplashScreen(s) => Some(s),
            GameState::MainGame(_) => None,
        }
    }

    /// The game's model, once in the main game.
    pub closed spec fn game_view(&self) -> Option<GameView> {
        match self.game_state {
            GameState::SplashScreen(_) => None,
            GameState::MainGame(ref g) => Some(g@),
        }
    }

    /// True once the main game has begun.
    pub open spec fn is_main(&self) -> bool {
        self.game_view() is Some
    }

    /// The stored surface width, in pixels.
    pub closed spec fn spec_surface_w(&self) -> u32 {
        self.surface_w
    }

    /// The stored surface height, in pixels.
    pub closed spec fn spec_surface_h(&self) -> u32 {
        self.surface_h
    }

    /// The stored number of house sprite variants.
    pub closed spec fn spec_variant_count(&self) -> usize {
        self.variant_count
    }

    /// What every reachable holder satisfies: valid configuration, and a
    /// game (once begun) that satisfies the simulation invariant and was
    /// built for this surface.
    pub open spec fn wf(&self) -> bool {
        &&& 1 <= self.spec_surface_w() <= 1000000
        &&& 1 <= self.spec_surface_h() <= 1000000
        &&& self.spec_variant_count() >= 1
        &&& (match self.game_view() {
            Some(v) => {
                &&& inv(v)
                &&& v.surface_w == self.spec_surface_w()
                &&& v.surface_h == self.spec_surface_h()
                &&& v.variant_count == self.spec_variant_count()
            },
            None => true,
        })
    }

    /// Starts at the splash screen, remembering the surface size and the
    /// number of house sprite variants for when the game begins.
    pub fn startup(surface_w: u32, surface_h: u32, variant_count: usize) -> (s: StateHolder)
        requires
            1 <= surface_w <= 1000000,
            1 <= surface_h <= 1000000,
            variant_count >= 1,
        ensures
            s.wf(),
            s.splash_view() == Some(SplashScreen { duration_ms: 0u64, spacebar_pressed: false }),
            !s.is_main(),
            s.spec_surface_w() == surface_w,
            s.spec_surface_h() == surface_h,
            s.spec_variant_count() == variant_count,
    {
        StateHolder {
            game_state: GameState::SplashScreen(SplashScreen::new()),
            surface_w,
            surface_h,
            variant_count,
        }
    }

    /// One frame.  On the splash screen the duration accumulates, and
    /// once the splash reports its start condition the main game begins
    /// fresh; in the main game the frame is the simulation's, and its
    /// cues are returned.
    pub fn update(&mut self, dt_ms: u64, rng: &mut rand::rngs::StdRng) -> (cues: Option<
        FrameCues,
    >)
        requires
            old(self).wf(),
            dt_ms <= 1000000000,
            (match old(self).splash_view() {
                Some(s) => s.duration_ms + dt_ms <= u64::MAX,
                None => true,
            }),
            (match old(self).game_view() {
                Some(v) => v.now_ms + dt_ms + EMBARGO_MS <= u64::MAX && v.score + MAX_HOLDING
                    <= u32::MAX,
                None => true,
            }),
        ensures
            final(self).wf(),
            final(self).spec_surface_w() == old(self).spec_surface_w(),
            final(self).spec_surface_h() == old(self).spec_surface_h(),
            final(self).spec_variant_count() == old(self).spec_variant_count(),
            (match old(self).splash_view() {
                Some(s) => {
                    if s.spacebar_pressed {
                        &&& final(self).is_main()
                        &&& (match final(self).game_view() {
                            Some(v) => v == initial_view(
                                old(self).spec_surface_w(),
                                old(self).spec_surface_h(),
                                old(self).spec_variant_count(),
                                v.houses,
                                0u64,
                            ) && houses_ok(v.houses),
                            None => false,
                        })
                        &&& cues is None
                    } else {
                        &&& final(self).splash_view() == Some(
                            SplashScreen {
                                duration_ms: (s.duration_ms + dt_ms) as u64,
                                ..s
                            },
                        )
                        &&& cues is None
                    }
                },
                None => true,
            }),
            (match (old(self).game_view(), final(self).game_view()) {
                (Some(v0), Some(v1)) => cues is Some && update_rel(v0, v1, dt_ms, cues->Some_0),
                (Some(_), None) => false,
                _ => true,
            }),
    {
        let mut begun: Option<Game> = None;
        let mut cues: Option<FrameCues> = None;
        match &mut self.game_state {
            GameState::SplashScreen(splash) => {
                splash.update(dt_ms);
                if splash.should_start() {
                    begun = Some(
                        Game::new(self.surface_w, self.surface_h, self.variant_count, rng),
                    );
                }
            },
            GameState::MainGame(game) => {
                cues = Some(game.update(dt_ms, rng));
            },
        }
        if let Some(g) = begun {
            self.game_state = GameState::MainGame(g);
        }
        cues
    }

    /// A key going down, routed to whichever state is active.
    pub fn key_down(&mut self, key: InputKey, rng: &mut rand::rngs::StdRng)
        requires
            old(self).wf(),
        ensures
            final(self).wf(),
            final(self).spec_surface_w() == old(self).spec_surface_w(),
            final(self).spec_surface_h() == old(self).spec_surface_h(),
            final(self).spec_variant_count() == old(self).spec_variant_count(),
            final(self).is_main() == old(self).is_main(),
            (match old(self).splash_view() {
                Some(s) => final(self).splash_view() == Some(
                    SplashScreen {
                        spacebar_pressed: s.spacebar_pressed || key == InputKey::Confirm,
                        ..s
                    },
                ),
                None => true,
            }),
            (match (old(self).game_view(), final(self).game_view()) {
                (Some(v0), Some(v1)) => {
                    &&& (v0.game_over && key == InputKey::Confirm ==> crate::game::restart_rel(
                        v0,
                        v1,
                    ))
                    &&& (v0.game_over && key != InputKey::Confirm ==> v1 == v0)
                    &&& (!v0.game_over ==> v1 == Game::keyed_view(
                        v0,
                        Game::keys_with(v0, key, true),
                    ))
                },
                _ => true,
            }),
    {
        match &mut self.game_state {
            GameState::SplashScreen(splash) => splash.key_down(key),
            GameState::MainGame(game) => game.key_down(key, rng),
        }
    }

    /// The score so far, once in the main game.
    pub fn score(&self) -> (r: Option<u32>)
        ensures
            r == (match self.game_view() {
                Some(v) => Some(v.score),
                None => None::<u32>,
            }),
    {
        match &self.game_state {
            GameState::SplashScreen(_) => None,
            GameState::MainGame(game) => Some(game.score()),
        }
    }

    /// Whether the run has ended, once in the main game.
    pub fn is_game_over(&self) -> (r: Option<bool>)
        ensures
            r == (match self.game_view() {
                Some(v) => Some(v.game_over),
                None => None::<bool>,
            }),
    {
        match &self.game_state {
            GameState::SplashScreen(_) => None,
            GameState::MainGame(game) => Some(game.is_game_over()),
        }
    }

    /// A key going up: the splash screen ignores it; the game clears the
    /// matching pressed flag.
    pub fn key_up(&mut self, key: InputKey)
        requires
            old(self).wf(),
        ensures
            final(self).wf(),
            final(self).spec_surface_w() == old(self).spec_surface_w(),
            final(self).spec_surface_h() == old(self).spec_surface_h(),
            final(self).spec_variant_count() == old(self).spec_variant_count(),
            final(self).is_main() == old(self).is_main(),
            final(self).splash_view() == old(self).splash_view(),
            (match (old(self).game_view(), final(self).game_view()) {
                (Some(v0), Some(v1)) => {
                    &&& (v0.game_over ==> v1 == v0)
                    &&& (!v0.game_over ==> v1 == Game::keyed_view(
                        v0,
                        Game::keys_with(v0, key, false),
                    ))
                },
                _ => true,
            }),
    {
        match &mut self.game_state {
            GameState::SplashScreen(_) => {},
            GameState::MainGame(game) => game.key_up(key),
        }
    }
}

} // verus!
