use rust_pong::game::{menu_label, Command, Game, MenuKeys, MENU_OPTION_COUNT, WIN_SCORE};
use rust_pong::game_state::{Difficulty, GameMode, GameState, ScoreEvent, Winner};
use rust_pong::powerup::{PowerUpKind, Recipient};

fn keys(down: bool, up: bool, right: bool, enter: bool, escape: bool) -> MenuKeys {
    MenuKeys { down, up, right, enter, escape }
}

fn none() -> MenuKeys {
    keys(false, false, false, false, false)
}

fn started(mode_index: usize) -> Game<u32> {
    let mut g: Game<u32> = Game::new();
    for _ in 0..mode_index {
        g.update_menu(keys(true, false, false, false, false));
    }
    assert_eq!(g.update_menu(keys(false, false, false, true, false)), Command::Continue);
    g
}

#[test]
fn new_game_starts_in_menu() {
    let g: Game<u32> = Game::new();
    assert_eq!(g.state, GameState::MainMenu);
    assert_eq!(g.mode, GameMode::OnePlayer);
    assert_eq!(g.difficulty, Difficulty::Medium);
    assert_eq!(g.menu_index, 0);
    assert!(!g.paddle_left.is_ai);
    assert!(g.paddle_right.is_ai);
    assert_eq!(g.ball.speed, 320);
    assert_eq!((g.score.left, g.score.right), (0, 0));
    assert_eq!(g.winner, None);
    assert!(g.serve_toward_right);
}

#[test]
fn menu_navigation_is_clamped() {
    let mut g: Game<u32> = Game::new();
    g.update_menu(keys(false, true, false, false, false));
    assert_eq!(g.menu_index, 0);
    for _ in 0..10 {
        g.update_menu(keys(true, false, false, false, false));
    }
    assert_eq!(g.menu_index, MENU_OPTION_COUNT - 1);
    g.update_menu(keys(true, true, false, false, false));
    assert_eq!(g.menu_index, 2);
    assert_eq!(g.update_menu(none()), Command::Continue);
    assert_eq!(g.state, GameState::MainMenu);
}

#[test]
fn menu_difficulty_only_on_first_entry() {
    let mut g: Game<u32> = Game::new();
    g.update_menu(keys(false, false, true, false, false));
    assert_eq!(g.difficulty, Difficulty::Hard);
    g.update_menu(keys(false, false, true, false, false));
    assert_eq!(g.difficulty, Difficulty::Easy);
    g.update_menu(keys(true, false, true, false, false));
    assert_eq!(g.difficulty, Difficulty::Easy);
    assert_eq!(g.menu_index, 1);
    // up lands on the first entry in the same frame, so right applies
    g.update_menu(keys(false, true, true, false, false));
    assert_eq!(g.difficulty, Difficulty::Medium);
}

#[test]
fn menu_starts_matches_and_quits() {
    let g = started(0);
    assert_eq!(g.state, GameState::Countdown);
    assert_eq!(g.mode, GameMode::OnePlayer);
    assert!(g.paddle_right.is_ai);

    let g = started(1);
    assert_eq!(g.state, GameState::Countdown);
    assert_eq!(g.mode, GameMode::TwoPlayer);
    assert!(!g.paddle_right.is_ai);

    let g = started(2);
    assert_eq!(g.state, GameState::Controls);

    let mut g: Game<u32> = Game::new();
    for _ in 0..3 {
        g.update_menu(keys(true, false, false, false, false));
    }
    assert_eq!(g.update_menu(keys(false, false, false, true, false)), Command::Quit);
    assert_eq!(g.state, GameState::MainMenu);

    let mut g: Game<u32> = Game::new();
    assert_eq!(g.update_menu(keys(false, false, false, false, true)), Command::Quit);
    // enter and escape together: the match is set up, then the program quits
    let mut g2: Game<u32> = Game::new();
    assert_eq!(g2.update_menu(keys(false, false, false, true, true)), Command::Quit);
    assert_eq!(g2.state, GameState::Countdown);
    g.update_controls(false, false);
    assert_eq!(g.state, GameState::MainMenu);
}

#[test]
fn controls_screen_returns_to_menu() {
    let mut g = started(2);
    g.update_controls(false, false);
    assert_eq!(g.state, GameState::Controls);
    g.update_controls(true, false);
    assert_eq!(g.state, GameState::MainMenu);
    let mut g = started(2);
    g.update_controls(false, true);
    assert_eq!(g.state, GameState::MainMenu);
}

#[test]
fn countdown_then_play() {
    let mut g = started(0);
    g.update_countdown(false);
    assert_eq!(g.state, GameState::Countdown);
    g.update_countdown(true);
    assert_eq!(g.state, GameState::Playing);
    assert!(g.update_playing(false));
    assert_eq!(g.state, GameState::Playing);
    assert!(!g.update_playing(true));
    assert_eq!(g.state, GameState::MainMenu);
}

#[test]
fn point_with_nothing_recorded_goes_to_countdown() {
    let mut g = started(0);
    g.update_countdown(true);
    assert_eq!(g.settle_frame(false, false), ScoreEvent::NoScore);
    assert_eq!(g.state, GameState::Playing);
    assert_eq!(g.settle_frame(false, true), ScoreEvent::LeftScored);
    assert_eq!((g.score.left, g.score.right), (1, 0));
    assert_eq!(g.paddle_right.base_height, 88);
    assert_eq!(g.paddle_left.base_height, 100);
    assert!(!g.serve_toward_right);
    assert_eq!(g.ball.speed, 342);
    assert_eq!(g.state, GameState::Countdown);
}

#[test]
fn point_after_one_frame_is_replayed() {
    let mut g = started(0);
    g.update_countdown(true);
    g.record_frame(7);
    assert_eq!(g.settle_frame(true, false), ScoreEvent::RightScored);
    assert_eq!(g.state, GameState::Replay);
    assert_eq!(g.replay_frames, vec![7]);
    assert_eq!(g.replay_index, 0);
    assert_eq!(g.replay_frame(), Some(7));
    g.update_replay(false, true);
    assert_eq!(g.state, GameState::Countdown);
}

#[test]
fn point_with_replay() {
    let mut g = started(0);
    g.update_countdown(true);
    for i in 0..21u32 {
        g.record_frame(i);
    }
    assert_eq!(g.settle_frame(true, false), ScoreEvent::RightScored);
    assert_eq!(g.state, GameState::Replay);
    assert!(g.serve_toward_right);
    assert_eq!(g.paddle_left.base_height, 88);
    assert_eq!(g.replay_frames, (0..21u32).collect::<Vec<u32>>());
    assert_eq!(g.replay_index, 0);
    assert_eq!(g.replay_frame(), Some(0));
    g.update_replay(false, false);
    assert_eq!(g.replay_index, 0);
    g.update_replay(false, true);
    assert_eq!(g.replay_index, 1);
    assert_eq!(g.replay_frame(), Some(1));
    for _ in 1..20 {
        g.update_replay(false, true);
        assert_eq!(g.state, GameState::Replay);
    }
    assert_eq!(g.replay_index, 20);
    g.update_replay(false, true);
    assert_eq!(g.state, GameState::Countdown);
    assert_eq!(g.replay_frame(), Some(20));
}

#[test]
fn replay_can_be_skipped() {
    let mut g = started(1);
    g.update_countdown(true);
    for i in 0..30u32 {
        g.record_frame(i);
    }
    g.settle_frame(false, true);
    assert_eq!(g.state, GameState::Replay);
    g.update_replay(true, true);
    assert_eq!(g.state, GameState::Countdown);
    assert_eq!(g.replay_index, 0);
}

#[test]
fn short_rally_is_replayed() {
    let mut g = started(0);
    g.update_countdown(true);
    for i in 0..20u32 {
        g.record_frame(i);
    }
    g.settle_frame(true, false);
    assert_eq!(g.state, GameState::Replay);
    assert_eq!(g.replay_frames, (0..20u32).collect::<Vec<u32>>());
}

#[test]
fn shield_blocks_a_goal() {
    let mut g = started(0);
    g.update_countdown(true);
    assert_eq!(g.apply_powerup(PowerUpKind::Shield, false), Recipient::LeftPaddle);
    assert!(g.paddle_left.shield);
    assert_eq!(g.settle_frame(true, false), ScoreEvent::Blocked);
    assert!(!g.paddle_left.shield);
    assert_eq!((g.score.left, g.score.right), (0, 0));
    assert_eq!(g.state, GameState::Playing);
    assert_eq!(g.ball.speed, 320);
    assert_eq!(g.settle_frame(true, false), ScoreEvent::RightScored);
    assert_eq!(g.score.right, 1);
}

#[test]
fn timed_powerups_leave_state_alone() {
    let mut g = started(0);
    assert_eq!(g.apply_powerup(PowerUpKind::BigPaddle, true), Recipient::RightPaddle);
    assert_eq!(g.apply_powerup(PowerUpKind::FreezeOpponent, true), Recipient::LeftPaddle);
    assert_eq!(g.apply_powerup(PowerUpKind::MultiBall, false), Recipient::Ball);
    assert!(!g.paddle_left.shield);
    assert!(!g.paddle_right.shield);
    assert_eq!(g.apply_powerup(PowerUpKind::Shield, true), Recipient::RightPaddle);
    assert!(g.paddle_right.shield);
}

fn play_points(g: &mut Game<u32>, right_wins: &[bool]) {
    for &r in right_wins {
        if g.state == GameState::Replay {
            g.update_replay(true, false);
        }
        if g.state == GameState::Countdown {
            g.update_countdown(true);
        }
        assert_eq!(g.state, GameState::Playing);
        g.settle_frame(r, !r);
    }
}

#[test]
fn match_ends_at_win_score() {
    let mut g = started(0);
    play_points(&mut g, &[true, false, true, true, false, true]);
    assert_eq!((g.score.left, g.score.right), (2, 4));
    assert_eq!(g.state, GameState::Countdown);
    assert_eq!(g.winner, None);
    play_points(&mut g, &[true]);
    assert_eq!(g.score.right, WIN_SCORE);
    assert_eq!(g.state, GameState::GameOver);
    assert_eq!(g.winner, Some(Winner::Right));
    assert_eq!(g.paddle_left.base_height, 40);
    assert_eq!(g.paddle_right.base_height, 76);
    assert_eq!(g.ball.speed, 320 + 22 * 7);
    assert_eq!(g.update_game_over(false, false), Command::Continue);
    assert_eq!(g.state, GameState::GameOver);
    assert_eq!(g.update_game_over(true, false), Command::Continue);
    assert_eq!(g.state, GameState::MainMenu);
    assert_eq!(g.winner, Some(Winner::Right));
    assert_eq!(g.update_menu(keys(false, false, false, true, false)), Command::Continue);
    assert_eq!(g.state, GameState::Countdown);
    assert_eq!(g.winner, None);
    assert_eq!((g.score.left, g.score.right), (0, 0));
    assert_eq!(g.paddle_left.base_height, 100);
    assert_eq!(g.ball.speed, 320);
}

#[test]
fn left_side_can_win() {
    let mut g = started(1);
    play_points(&mut g, &[false, false, false, false, false]);
    assert_eq!(g.state, GameState::GameOver);
    assert_eq!(g.winner, Some(Winner::Left));
    assert!(!g.serve_toward_right);
    assert_eq!(g.update_game_over(false, true), Command::Quit);
}

#[test]
fn menu_labels() {
    assert_eq!(menu_label(0), "1 Player");
    assert_eq!(menu_label(1), "2 Player");
    assert_eq!(menu_label(2), "Controls");
    assert_eq!(menu_label(3), "Quit");
}

#[test]
fn empty_replay_shows_nothing() {
    let g: Game<u32> = Game::new();
    assert_eq!(g.replay_frame(), None);
}
