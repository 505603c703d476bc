//! Session engine for a terminal arcade game: the player reproduces a
//! randomly drawn directional-key sequence (a "strategem") before a countdown
//! timer expires, earning score that scales with a streak multiplier and the
//! strategem's difficulty.
//!
//! The crate verifies the core of one play session: the countdown timer, the
//! sequence-matching automaton, the failure debounce, the scoring formula and
//! the leaderboard update rules. Terminal rendering, input decoding and
//! on-disk persistence live outside the library and exchange plain values
//! with it.

pub mod app;
pub mod builder;
pub mod catalog;
pub mod debounce;
pub mod defensive;
pub mod event;
pub mod game;
pub mod leaderboard;
pub mod menu;
pub mod mission;
pub mod offensive;
pub mod player;
pub mod score;
pub mod strategem;
pub mod supply;
pub mod timer;
pub mod upgrades;
