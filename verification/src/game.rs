//! The session orchestrator: one timer, one active strategem, running score
//! and streak, and the failure debounce, driven by ticks and key events.
//!
//! The outer loop (polling the terminal, rendering, persisting) lives with
//! the terminal layer; it hands this module plain key events, clock readings
//! and the restart decision, and every transition here is verified.

use vstd::prelude::*;

use crate::catalog;
use crate::debounce::{spec_ping, FreezeState, InputFreeze};
use crate::event::Key;
use crate::leaderboard::Leaderboard;
use crate::player::PlayerData;
use crate::score::{get_score_value, spec_base_value, spec_multiplier, Multiplier};
use crate::strategem::{spec_key_symbol, spec_step, Strategem, StrategemKey};
use crate::timer::{
    ms_to_i64, sat_add, spec_clip_u64_ms, spec_sat_add, spec_sat_sub, GameTimer,
};

verus! {

/// Milliseconds of timer reward granted for every completed strategem, on
/// top of the player's own reward bonus.
pub const BASE_REWARD_MILLIS: i64 = 1000;

/// A failure of the session engine itself, as opposed to gameplay.
#[derive(Debug, Clone, Copy, PartialEq, Eq, Structural)]
pub enum GameError {
    /// The reserved player entry is missing from the leaderboard.
    PlayerNotFound,
}

/// The per-round mutable state: timer, score, streak and active strategem.
pub struct GameState {
    pub game_timer: GameTimer,
    pub score: usize,
    pub streak: usize,
    pub strategem: Strategem,
}

impl GameState {
    /// Structural invariant: the timer and the strategem are well formed,
    /// the strategem's code is not empty, and the active strategem is always
    /// one of the catalog's entries.
    pub open spec fn wf(self) -> bool {
        &&& self.game_timer.wf()
        &&& self.strategem.wf()
        &&& 1 <= self.strategem.spec_code().len()
        &&& catalog::spec_is_catalog_entry(self.strategem)
    }

    /// The active strategem is untouched: cursor at the start and valid.
    pub open spec fn fresh_strategem(self) -> bool {
        self.strategem.spec_cursor() == 0 && self.strategem.spec_valid()
    }

    /// A new round: zero score and streak, the given timer, and a randomly
    /// drawn strategem.
    pub fn new(game_timer: GameTimer) -> (s: GameState)
        requires
            game_timer.wf(),
        ensures
            s.wf(),
            s.game_timer == game_timer,
            s.score == 0,
            s.streak == 0,
            s.fresh_strategem(),
    {
        GameState { game_timer, score: 0, streak: 0, strategem: catalog::random() }
    }

    /// Restarts the round in place: timer back to its initial duration from
    /// `now_ms`, score and streak cleared, a fresh random strategem.
    pub fn reset(&mut self, now_ms: i64)
        requires
            old(self).wf(),
        ensures
            final(self).wf(),
            final(self).game_timer.initial_ms == old(self).game_timer.initial_ms,
            final(self).game_timer.deadline_ms == spec_sat_add(
                now_ms as int,
                old(self).game_timer.initial_ms as int,
            ),
            final(self).score == 0,
            final(self).streak == 0,
            final(self).fresh_strategem(),
    {
        self.game_timer.reset(now_ms);
        self.score = 0;
        self.streak = 0;
        self.strategem = catalog::random();
    }
}

/// One play session: round state, the player's data, the leaderboard, the
/// failure debounce and the running flag.
pub struct Game {
    pub state: GameState,
    pub player: PlayerData,
    pub leaderboard: Leaderboard,
    pub freeze: InputFreeze,
    pub is_running: bool,
}

impl Game {
    /// Structural invariant of the whole session.
    pub open spec fn wf(self) -> bool {
        &&& self.state.wf()
        &&& self.freeze.wf()
        &&& self.leaderboard.wf()
    }

    /// A new running session over the given collaborators, with a fresh
    /// round.
    pub fn new(
        player: PlayerData,
        leaderboard: Leaderboard,
        game_timer: GameTimer,
        freeze: InputFreeze,
    ) -> (g: Game)
        requires
            game_timer.wf(),
            freeze.wf(),
            leaderboard.wf(),
        ensures
            g.wf(),
            g.player == player,
            g.leaderboard == leaderboard,
            g.freeze == freeze,
            g.is_running,
            g.state.game_timer == game_timer,
            g.state.score == 0,
            g.state.streak == 0,
            g.state.fresh_strategem(),
    {
        Game { state: GameState::new(game_timer), player, leaderboard, freeze, is_running: true }
    }

    /// Applies one input event: the escape signal stops the session at once
    /// and nothing else changes; a directional signal is fed to the active
    /// strategem's matcher, which takes one step.
    pub fn handle_input(&mut self, key: Key)
        requires
            old(self).wf(),
        ensures
            final(self).wf(),
            final(self).player == old(self).player,
            final(self).leaderboard == old(self).leaderboard,
            final(self).freeze == old(self).freeze,
            final(self).state.game_timer == old(self).state.game_timer,
            final(self).state.score == old(self).state.score,
            final(self).state.streak == old(self).state.streak,
            key == Key::Escape ==> !final(self).is_running && final(self).state.strategem == old(self).state.strategem,
            key != Key::Escape ==> {
                &&& final(self).is_running == old(self).is_running
                &&& final(self).state.strategem.same_identity(old(self).state.strategem)
                &&& (
                    final(self).state.strategem.spec_cursor(),
                    final(self).state.strategem.spec_valid(),
                ) == spec_step(
                    old(self).state.strategem.spec_code(),
                    old(self).state.strategem.spec_cursor(),
                    old(self).state.strategem.spec_valid(),
                    spec_key_symbol(key),
                )
            },
    {
        match key {
            Key::Escape => {
                self.is_running = false;
            },
            directional => {
                let symbol = StrategemKey::from_key(directional);
                self.state.strategem.assert_key(symbol);
                proof {
                    catalog::lemma_catalog_entry_identity(
                        old(self).state.strategem,
                        self.state.strategem,
                    );
                }
            },
        }
    }

    /// One simulation step on a no-input tick, at clock reading `now_ms`.
    ///
    /// On a completed strategem: the streak grows by one, the score grows by
    /// the score value of the strategem's difficulty at the new streak's
    /// tier plus the player's bonus, the timer is extended by the base
    /// reward plus the player's reward bonus, and a new strategem is drawn.
    /// On an invalidated strategem: the streak resets to zero and the
    /// debounce is pinged; only when it fires does the strategem reset and
    /// the timer lose the player's penalty. Otherwise nothing changes.
    pub fn update_state(&mut self, now_ms: i64)
        requires
            old(self).wf(),
            old(self).state.strategem.spec_completed() ==> old(self).state.streak < usize::MAX
                && old(self).state.score + spec_base_value(
                old(self).state.strategem.spec_difficulty(),
                spec_multiplier((old(self).state.streak + 1) as nat),
            ) + old(self).player.bonus_score <= usize::MAX,
        ensures
            final(self).wf(),
            final(self).player == old(self).player,
            final(self).leaderboard == old(self).leaderboard,
            final(self).is_running == old(self).is_running,
            old(self).state.strategem.spec_completed() ==> {
                &&& final(self).state.streak == old(self).state.streak + 1
                &&& final(self).state.score == old(self).state.score + spec_base_value(
                    old(self).state.strategem.spec_difficulty(),
                    spec_multiplier((old(self).state.streak + 1) as nat),
                ) + old(self).player.bonus_score
                &&& final(self).state.game_timer.initial_ms == old(self).state.game_timer.initial_ms
                &&& final(self).state.game_timer.deadline_ms == spec_sat_add(
                    old(self).state.game_timer.deadline_ms as int,
                    spec_sat_add(
                        BASE_REWARD_MILLIS as int,
                        spec_clip_u64_ms(old(self).player.time_reward_millis as int),
                    ),
                )
                &&& final(self).state.fresh_strategem()
                &&& final(self).freeze == old(self).freeze
            },
            !old(self).state.strategem.spec_completed() && !old(self).state.strategem.spec_valid()
                ==> {
                &&& final(self).state.streak == 0
                &&& final(self).state.score == old(self).state.score
                &&& final(self).freeze == spec_ping(old(self).freeze).0
                &&& (spec_ping(old(self).freeze).1 == FreezeState::Completed ==> {
                    &&& final(self).state.strategem.same_identity(old(self).state.strategem)
                    &&& final(self).state.fresh_strategem()
                    &&& final(self).state.game_timer.initial_ms == old(self).state.game_timer.initial_ms
                    &&& final(self).state.game_timer.deadline_ms == spec_sat_sub(
                        old(self).state.game_timer.deadline_ms as int,
                        spec_clip_u64_ms(old(self).player.penalty_debuff_millis as int),
                    )
                })
                &&& (spec_ping(old(self).freeze).1 != FreezeState::Completed ==> final(self).state.strategem == old(self).state.strategem && final(self).state.game_timer
                    == old(self).state.game_timer)
            },
            !old(self).state.strategem.spec_completed() && old(self).state.strategem.spec_valid()
                ==> *final(self) == *old(self),
    {
        if self.state.strategem.is_completed() {
            self.state.streak = self.state.streak + 1;
            let value = get_score_value(
                self.state.strategem.difficulty(),
                Multiplier::get(self.state.streak),
                self.player.bonus_score(),
            );
            self.state.score = self.state.score + value;
            let reward = sat_add(BASE_REWARD_MILLIS, ms_to_i64(self.player.time_reward_dur()));
            self.state.game_timer.add(reward);
            self.state.strategem = catalog::random();
        } else if !self.state.strategem.is_valid() {
            self.state.streak = 0;
            let fired = self.freeze.ping();
            if matches!(fired, FreezeState::Completed) {
                self.state.strategem.reset();
                proof {
                    catalog::lemma_catalog_entry_identity(
                        old(self).state.strategem,
                        self.state.strategem,
                    );
                }
                self.state.game_timer.sub(ms_to_i64(self.player.penalty_debuff_dur()));
            }
        }
    }

    /// Records the session score on the leaderboard when it strictly beats
    /// the reserved player's stored score; a score that does not beat it
    /// leaves the leaderboard untouched. Fails, changing nothing, when the
    /// reserved entry is missing.
    pub fn record_high_score(&mut self) -> (r: Result<(), GameError>)
        requires
            old(self).wf(),
        ensures
            final(self).wf(),
            final(self).state == old(self).state,
            final(self).player == old(self).player,
            final(self).freeze == old(self).freeze,
            final(self).is_running == old(self).is_running,
            old(self).leaderboard.spec_lookup("You"@) == Option::<usize>::None ==> r == Err::<
                (),
                GameError,
            >(GameError::PlayerNotFound) && *final(self) == *old(self),
            old(self).leaderboard.spec_lookup("You"@) != Option::<usize>::None ==> {
                &&& r == Ok::<(), GameError>(())
                &&& (old(self).state.score > old(self).leaderboard.spec_lookup("You"@).unwrap()
                    ==> final(self).leaderboard.spec_lookup("You"@) == Some(old(self).state.score)
                    && (forall|name: Seq<char>|
                    name != "You"@ ==> final(self).leaderboard.spec_lookup(name) == old(self).leaderboard.spec_lookup(name)) && final(self).leaderboard.entries@.len()
                    == old(self).leaderboard.entries@.len())
                &&& (old(self).state.score <= old(self).leaderboard.spec_lookup("You"@).unwrap()
                    ==> final(self).leaderboard == old(self).leaderboard)
            },
    {
        let current = match self.leaderboard.get("You") {
            Some(score) => score,
            None => {
                return Err(GameError::PlayerNotFound);
            },
        };
        if self.state.score > current {
            let score = self.state.score;
            self.leaderboard.insert("You", score);
        }
        Ok(())
    }

    /// Ends a settled round: a restart resets the round state and the
    /// debounce in place and keeps the session running; otherwise the
    /// session stops. The round score that remains afterwards is credited to
    /// the player's wallet — so a restart, which clears the round first,
    /// credits nothing.
    pub fn finish_round(&mut self, restart: bool, now_ms: i64)
        requires
            old(self).wf(),
            !restart ==> old(self).player.wallet + old(self).state.score <= usize::MAX,
        ensures
            final(self).wf(),
            final(self).leaderboard == old(self).leaderboard,
            restart ==> {
                &&& final(self).state.score == 0
                &&& final(self).state.streak == 0
                &&& final(self).state.game_timer.initial_ms == old(self).state.game_timer.initial_ms
                &&& final(self).state.game_timer.deadline_ms == spec_sat_add(
                    now_ms as int,
                    old(self).state.game_timer.initial_ms as int,
                )
                &&& final(self).state.fresh_strategem()
                &&& final(self).freeze == (InputFreeze {
                    counter: 0,
                    frames: old(self).freeze.frames,
                    state: FreezeState::NotActivated,
                })
                &&& final(self).is_running == old(self).is_running
                &&& final(self).player == old(self).player
            },
            !restart ==> {
                &&& final(self).state == old(self).state
                &&& final(self).freeze == old(self).freeze
                &&& !final(self).is_running
                &&& final(self).player == (PlayerData {
                    wallet: (old(self).player.wallet + old(self).state.score) as usize,
                    ..old(self).player
                })
            },
    {
        if restart {
            self.state.reset(now_ms);
            self.freeze.reset();
        } else {
            self.is_running = false;
        }
        let gained = self.state.score;
        self.player.add_to_wallet(gained);
    }
}

} // verus!
