# rust_pong

Pong with an AI opponent, power-ups and slow-motion replays, built on
macroquad. The discrete rules of the game are a Verus-verified library; the
window, the keyboard, drawing and the floating-point physics are a thin
frame loop around it.

## Layout

- `src/game_state.rs` — screens, modes, difficulties (computer speed and aim,
  menu cycle), winners, score events.
- `src/paddle.rs` — a paddle's discrete state: base height that shrinks with
  every conceded point down to a minimum, shield, steering direction.
- `src/ball.rs` — the ball's base speed, which grows after every point up to a cap.
- `src/powerup.rs` — the eight power-ups: durations, labels, random draw and
  which paddle or ball each one acts on.
- `src/replay.rs` — the bounded replay buffer (last 300 frames, oldest first).
- `src/score.rs` — scoring and shields at the end of a frame.
- `src/game.rs` — the menu, countdown, play, replay and game-over screens as
  a state machine, with its invariant and the match-end rule (first to 5).
- `app/main.rs` — the macroquad frame loop: input, physics, rendering.
- `tests/` — tests of the library on concrete values.
