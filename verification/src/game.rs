//! The state machine that drives the game: the five screens, the
//! progress of a play-through, the scoreboard, and the decisions that
//! move between screens.

use vstd::prelude::*;

use crate::shared::Timer;

verus! {

/// How long a wave's entrance takes.
pub const LOAD_WAVE_DURATION_MS: u64 = 3000;

/// The last wave is followed by victory.
pub const WAVE_AFTER_LAST: u32 = 4;

/// The screens the game moves among.
#[derive(Clone, Copy, Debug, Hash, PartialEq, Eq, Structural)]
pub enum GameState {
    /// Game menu (press space to play)
    Menu,
    /// Player and enemies can move and shoot
    Playing,
    /// Player is frozen and enemies have been despawned (press r to restart)
    GameOver,
    /// Load enemies into the scene (player and enemies cannot shoot)
    LoadWaveState,
    /// You win!
    Victory,
}

/// Progress of one play-through: whether a game is on, and which wave is
/// up, if any.
pub struct Global {
    is_playing: bool,
    wave: Option<u32>,
}

impl Global {
    pub closed spec fn spec_is_playing(&self) -> bool {
        self.is_playing
    }

    pub closed spec fn spec_wave(&self) -> Option<u32> {
        self.wave
    }

    /// The state before any game has started.
    pub fn new() -> (g: Global)
        ensures
            !g.spec_is_playing(),
            g.spec_wave() is None,
    {
        Global { is_playing: false, wave: None }
    }

    pub fn reset(&mut self)
        ensures
            !final (self).spec_is_playing(),
            final (self).spec_wave() == Some(0u32),
    {
        self.is_playing = false;
        self.wave = Some(0);
    }

    /// The wave now up; only meaningful while one is.
    pub fn current_wave(&self) -> (w: u32)
        requires
            self.spec_wave() is Some,
        ensures
            w == self.spec_wave()->0,
    {
        match self.wave {
            Some(w) => w,
            None => unreached(),
        }
    }

    pub fn start_playing(&mut self)
        ensures
            final (self).spec_is_playing(),
            final (self).spec_wave() == Some(0u32),
    {
        self.is_playing = true;
        self.wave = Some(0);
    }

    pub fn wave_cleared(&mut self)
        requires
            old(self).spec_wave() is Some,
            old(self).spec_wave()->0 < u32::MAX,
        ensures
            final (self).spec_is_playing() == old(self).spec_is_playing(),
            final (self).spec_wave() == Some((old(self).spec_wave()->0 + 1) as u32),
    {
        let w = self.current_wave();
        self.wave = Some(w + 1);
    }

    pub fn stop_playing(&mut self)
        ensures
            !final (self).spec_is_playing(),
            final (self).spec_wave() is None,
    {
        self.is_playing = false;
        self.wave = None;
    }

    /// Once the last alien is gone, the wave is cleared: spent bullets go,
    /// the count advances, and the next wave loads.
    pub fn check_wave_end(&mut self, aliens_remaining: usize) -> (next: Option<GameState>)
        requires
            aliens_remaining == 0 ==> old(self).spec_wave() is Some && old(self).spec_wave()->0
                < u32::MAX,
        ensures
            aliens_remaining == 0 ==> final (self).spec_wave() == Some(
                (old(self).spec_wave()->0 + 1) as u32,
            ) && final (self).spec_is_playing() == old(self).spec_is_playing() && next == Some(
                GameState::LoadWaveState,
            ),
            aliens_remaining > 0 ==> *final (self) == *old(self) && next is None,
    {
        if aliens_remaining == 0 {
            self.wave_cleared();
            Some(GameState::LoadWaveState)
        } else {
            None
        }
    }
}

/// The running score.
pub struct Scoreboard {
    pub score: u32,
}

impl Scoreboard {
    pub fn new() -> (s: Scoreboard)
        ensures
            s.score == 0,
    {
        Scoreboard { score: 0 }
    }

    /// Award points for destroyed aliens.
    pub fn add(&mut self, points: u32)
        requires
            old(self).score + points <= u32::MAX,
        ensures
            final (self).score == old(self).score + points,
    {
        self.score = self.score + points;
    }
}

/// What entering a wave number means.
#[derive(Clone, Copy, Debug, PartialEq, Eq, Structural)]
pub enum WaveAction {
    /// Load this wave's layout and spawn it.
    Spawn(u32),
    /// All waves are cleared.
    Victory,
}

/// The decision taken on entering the loading screen: the four waves
/// spawn, and the wave after the last one is the victory.
pub fn wave_action(wave: u32) -> (a: WaveAction)
    requires
        wave <= WAVE_AFTER_LAST,
    ensures
        wave < WAVE_AFTER_LAST ==> a == WaveAction::Spawn(wave),
        wave == WAVE_AFTER_LAST ==> a is Victory,
{
    if wave < WAVE_AFTER_LAST {
        WaveAction::Spawn(wave)
    } else {
        WaveAction::Victory
    }
}

/// The game ends when the ship's health is gone, unless it already has.
pub fn check_gameover(current: GameState, ship_health: u32) -> (next: Option<GameState>)
    ensures
        next == if !(current is GameOver) && ship_health == 0 {
            Some(GameState::GameOver)
        } else {
            Option::<GameState>::None
        },
{
    if matches!(current, GameState::GameOver) {
        None
    } else if ship_health == 0 {
        Some(GameState::GameOver)
    } else {
        None
    }
}

/// The menu's decision: the play key starts a fresh game and loads the
/// first wave.
pub fn menu_update(global: &mut Global, play_pressed: bool) -> (next: Option<GameState>)
    ensures
        play_pressed ==> final (global).spec_is_playing() && final (global).spec_wave() == Some(
            0u32,
        ) && next == Some(GameState::LoadWaveState),
        !play_pressed ==> *final (global) == *old(global) && next is None,
{
    if play_pressed {
        global.start_playing();
        Some(GameState::LoadWaveState)
    } else {
        None
    }
}

/// The game-over screen's decision: the menu key wins over retry.
pub fn update_gameover_menu(restart: bool, menu: bool) -> (next: Option<GameState>)
    ensures
        menu ==> next == Some(GameState::Menu),
        !menu && restart ==> next == Some(GameState::LoadWaveState),
        !menu && !restart ==> next is None,
{
    if menu {
        Some(GameState::Menu)
    } else if restart {
        Some(GameState::LoadWaveState)
    } else {
        None
    }
}

/// The timer that paces a wave's entrance: the entrance itself and a
/// moment more.
pub fn new_load_wave_timer() -> (t: Timer)
    ensures
        t.elapsed_ms == 0,
        t.duration_ms == LOAD_WAVE_DURATION_MS + 2000,
{
    Timer::new(LOAD_WAVE_DURATION_MS + 2000)
}

/// One tick of the loading screen: advance its timer, and start play once
/// it has run down.
pub fn update_load_wave(timer: &mut Timer, delta_ms: u64) -> (next: Option<GameState>)
    ensures
        final (timer).duration_ms == old(timer).duration_ms,
        final (timer).elapsed_ms == if old(timer).elapsed_ms + delta_ms > old(timer).duration_ms {
            old(timer).duration_ms as int
        } else {
            old(timer).elapsed_ms + delta_ms
        },
        next == if final (timer).elapsed_ms >= final (timer).duration_ms {
            Some(GameState::Playing)
        } else {
            Option::<GameState>::None
        },
{
    timer.tick(delta_ms);
    if timer.finished() {
        Some(GameState::Playing)
    } else {
        None
    }
}

/// An explosion is over once its animation shows the last frame of the
/// sheet; the entity is then removed.
pub fn explosion_finished(frame_index: u32) -> (r: bool)
    ensures
        r == (frame_index == crate::shared::EXPLOSION_FRAME_COUNT - 1),
{
    frame_index == crate::shared::EXPLOSION_FRAME_COUNT - 1
}

} // verus!
