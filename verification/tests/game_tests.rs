use strategem_hero::debounce::InputFreeze;
use strategem_hero::event::Key;
use strategem_hero::game::{Game, GameError};
use strategem_hero::leaderboard::Leaderboard;
use strategem_hero::offensive;
use strategem_hero::player::PlayerData;
use strategem_hero::timer::GameTimer;

fn session() -> Game {
    Game::new(
        PlayerData::default(),
        Leaderboard::default(),
        GameTimer::start_from(30_000, 0),
        InputFreeze::new(10),
    )
}

#[test]
fn completing_then_failing_a_session_round_trip() {
    let mut game = session();
    assert!(game.is_running);
    assert_eq!(0, game.state.score);
    assert_eq!(0, game.state.streak);

    // A three-symbol Easy code, completed symbol by symbol.
    game.state.strategem = offensive::orbital_airburst_strike();
    game.handle_input(Key::ArrowRight);
    game.handle_input(Key::ArrowRight);
    game.handle_input(Key::ArrowRight);
    assert!(game.state.strategem.is_completed());
    game.update_state(1);
    assert_eq!(1, game.state.streak);
    assert_eq!(50, game.state.score);
    // Timer extended by the base completion reward (1000 ms, no player bonus).
    assert_eq!(31_000, game.state.game_timer.remaining(0));

    // A five-symbol code, mistyped at position 2 (Up expected, Down sent).
    game.state.strategem = offensive::orbital_laser();
    game.handle_input(Key::ArrowRight);
    game.handle_input(Key::ArrowDown);
    assert!(game.state.strategem.is_valid());
    game.handle_input(Key::ArrowDown);
    assert!(!game.state.strategem.is_valid());

    // First failure tick starts the debounce; ten more commit the reset.
    game.update_state(1);
    assert_eq!(0, game.state.streak);
    for _ in 0..9 {
        game.update_state(1);
        assert!(!game.state.strategem.is_valid());
        assert_eq!(31_000, game.state.game_timer.remaining(0));
    }
    game.update_state(1);
    assert!(game.state.strategem.is_valid());
    assert_eq!(0, game.state.strategem.cursor());
    // Timer reduced by the default 1000 ms penalty.
    assert_eq!(30_000, game.state.game_timer.remaining(0));
    assert_eq!(50, game.state.score);
}

#[test]
fn escape_stops_the_session() {
    let mut game = session();
    game.handle_input(Key::Escape);
    assert!(!game.is_running);
}

#[test]
fn tick_with_untouched_strategem_changes_nothing() {
    let mut game = session();
    game.state.strategem = offensive::orbital_laser();
    let remaining_before = game.state.game_timer.remaining(0);
    game.update_state(5);
    assert_eq!(0, game.state.score);
    assert_eq!(0, game.state.streak);
    assert_eq!(remaining_before, game.state.game_timer.remaining(0));
    assert_eq!(0, game.state.strategem.cursor());
}

#[test]
fn game_over_without_restart_updates_leaderboard_and_wallet() {
    let mut game = session();
    game.state.score = 1000;
    let result = game.record_high_score();
    assert_eq!(Ok(()), result);
    game.finish_round(false, 0);
    assert_eq!(Some(1000), game.leaderboard.get("You"));
    assert_eq!(1000, game.player.wallet());
    assert!(!game.is_running);
    assert_eq!(1000, game.state.score);
}

#[test]
fn game_over_keeps_better_recorded_score() {
    let mut game = session();
    game.leaderboard.insert("You", 5000);
    game.state.score = 1000;
    let result = game.record_high_score();
    assert_eq!(Ok(()), result);
    assert_eq!(Some(5000), game.leaderboard.get("You"));
}

#[test]
fn game_over_with_restart_resets_the_round() {
    let mut game = session();
    game.state.score = 700;
    game.state.streak = 3;
    game.state.game_timer.sub(40_000);
    let result = game.record_high_score();
    assert_eq!(Ok(()), result);
    game.finish_round(true, 100_000);
    assert!(game.is_running);
    assert_eq!(0, game.state.score);
    assert_eq!(0, game.state.streak);
    assert_eq!(Some(700), game.leaderboard.get("You"));
    // The round score was cleared by the reset before the wallet credit.
    assert_eq!(0, game.player.wallet());
    assert_eq!(30_000, game.state.game_timer.remaining(100_000));
    assert!(game.state.strategem.is_valid());
    assert_eq!(0, game.state.strategem.cursor());
}

#[test]
fn game_over_without_reserved_entry_fails() {
    let mut game = Game::new(
        PlayerData::default(),
        Leaderboard::new(),
        GameTimer::start_from(30_000, 0),
        InputFreeze::new(10),
    );
    let result = game.record_high_score();
    assert_eq!(Err(GameError::PlayerNotFound), result);
    assert!(game.is_running);
}
