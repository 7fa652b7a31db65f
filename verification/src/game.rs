use vstd::prelude::*;
use crate::ball::{Ball, faster, speed_after_points, lemma_speed_up_step, BALL_BASE_SPEED};
use crate::game_state::{Difficulty, GameMode, GameState, ScoreEvent, Winner};
use crate::paddle::{
    Paddle,
    shrunk_height,
    height_after_concessions,
    lemma_shrink_step,
    PADDLE_HEIGHT_DEFAULT,
};
use crate::powerup::{PowerUpKind, Recipient};
use crate::replay::{ReplayBuffer, after_push, MAX_SNAPSHOTS};
use crate::score::{Score, score_event};

verus! {

/// Points needed to win a match.
pub const WIN_SCORE: u32 = 5;

/// Number of entries of the main menu.
pub const MENU_OPTION_COUNT: usize = 4;

/// Keys pressed in this frame, as far as the main menu reads them.
#[derive(Debug, Clone, Copy, PartialEq, Eq, Structural)]
pub struct MenuKeys {
    pub down: bool,
    pub up: bool,
    pub right: bool,
    pub enter: bool,
    pub escape: bool,
}

/// Whether the program goes on or quits after a step.
#[derive(Debug, Clone, Copy, PartialEq, Eq, Structural)]
pub enum Command {
    Continue,
    Quit,
}

/// The screens that belong to a running match.
pub open spec fn in_match(s: GameState) -> bool {
    s == GameState::Countdown || s == GameState::Playing || s == GameState::Replay
}

/// A match is over once either side has `WIN_SCORE` points.
pub open spec fn match_over(score: Score) -> bool {
    score.left >= WIN_SCORE || score.right >= WIN_SCORE
}

/// The score of a finished match: one side has exactly `WIN_SCORE` points
/// and the other fewer.
pub open spec fn final_score(score: Score) -> bool {
    ||| score.left == WIN_SCORE && score.right < WIN_SCORE
    ||| score.right == WIN_SCORE && score.left < WIN_SCORE
}

/// The winner of a finished match: the left side if it has more points,
/// otherwise the right side.
pub open spec fn match_winner(score: Score) -> Winner {
    if score.left > score.right { Winner::Left } else { Winner::Right }
}

/// Menu entry selected after the down and up keys of one frame: down moves
/// one entry further (stopping at the last), then up one entry back
/// (stopping at the first).
pub open spec fn menu_moved(index: usize, down: bool, up: bool) -> usize {
    let after_down: int = if down {
        if index + 1 <= MENU_OPTION_COUNT - 1 { index + 1 } else { MENU_OPTION_COUNT - 1 }
    } else {
        index as int
    };
    let after_up: int = if up {
        if after_down >= 1 { after_down - 1 } else { 0 }
    } else {
        after_down
    };
    after_up as usize
}

/// The discrete state of the game: which screen is shown, the menu, the
/// score, the paddles' and the ball's discrete state, and the replay.  The
/// type `S` of a recorded frame is chosen by the frame loop, which also keeps
/// positions, velocities and timers.
pub struct Game<S> {
    pub state: GameState,
    pub mode: GameMode,
    pub difficulty: Difficulty,
    pub menu_index: usize,
    pub paddle_left: Paddle,
    pub paddle_right: Paddle,
    pub ball: Ball,
    pub score: Score,
    pub winner: Option<Winner>,
    pub serve_toward_right: bool,
    pub replay_buffer: ReplayBuffer<S>,
    pub replay_frames: Vec<S>,
    pub replay_index: usize,
}

impl<S: Copy> Game<S> {
    /// What every reachable game satisfies.
    pub open spec fn inv(&self) -> bool {
        &&& self.menu_index < MENU_OPTION_COUNT
        &&& self.paddle_left.wf()
        &&& self.paddle_right.wf()
        &&& self.ball.wf()
        &&& self.replay_buffer@.len() <= MAX_SNAPSHOTS
        &&& self.ball.speed == speed_after_points((self.score.left + self.score.right) as nat)
        &&& self.paddle_left.base_height == height_after_concessions(self.score.right as nat)
        &&& self.paddle_right.base_height == height_after_concessions(self.score.left as nat)
        &&& in_match(self.state) ==> {
            &&& self.score.left < WIN_SCORE
            &&& self.score.right < WIN_SCORE
            &&& self.winner is None
        }
        &&& self.state == GameState::GameOver ==> {
            &&& final_score(self.score)
            &&& self.winner == Some(match_winner(self.score))
        }
        &&& self.state == GameState::Replay ==> self.replay_index < self.replay_frames@.len()
    }

    /// `self` is the state right after a new match was set up from `before`:
    /// scores at nil, full-size paddles without shields, the ball at its
    /// starting speed, an empty replay buffer, the serve going right and the
    /// countdown running.  The right paddle is the computer's exactly in
    /// single-player mode.
    pub open spec fn is_new_match_of(&self, before: Self) -> bool {
        &&& self.state == GameState::Countdown
        &&& self.score == Score { left: 0, right: 0 }
        &&& self.winner is None
        &&& self.paddle_left == Paddle {
            base_height: PADDLE_HEIGHT_DEFAULT,
            shield: false,
            ..before.paddle_left
        }
        &&& self.paddle_right == Paddle {
            base_height: PADDLE_HEIGHT_DEFAULT,
            shield: false,
            is_ai: self.mode == GameMode::OnePlayer,
        }
        &&& self.ball.speed == BALL_BASE_SPEED
        &&& self.replay_buffer@ == Seq::<S>::empty()
        &&& self.serve_toward_right
        &&& self.replay_frames == before.replay_frames
        &&& self.replay_index == before.replay_index
    }

    /// The game as the program starts: the main menu, single player, medium
    /// difficulty, the computer on the right.
    pub fn new() -> (g: Game<S>)
        ensures
            g.inv(),
            g.state == GameState::MainMenu,
            g.mode == GameMode::OnePlayer,
            g.difficulty == Difficulty::Medium,
            g.menu_index == 0,
            g.paddle_left == (Paddle { base_height: PADDLE_HEIGHT_DEFAULT, is_ai: false, shield: false }),
            g.paddle_right == (Paddle { base_height: PADDLE_HEIGHT_DEFAULT, is_ai: true, shield: false }),
            g.ball.speed == BALL_BASE_SPEED,
            g.score == (Score { left: 0, right: 0 }),
            (g.winner is None),
            g.serve_toward_right,
            g.replay_buffer@ == Seq::<S>::empty(),
            g.replay_frames@ == Seq::<S>::empty(),
            g.replay_index == 0,
    {
        proof {
            lemma_speed_up_step(0);
            lemma_shrink_step(0);
        }
        Game {
            state: GameState::MainMenu,
            mode: GameMode::OnePlayer,
            difficulty: Difficulty::Medium,
            menu_index: 0,
            paddle_left: Paddle::new(false),
            paddle_right: Paddle::new(true),
            ball: Ball::new(),
            score: Score::new(),
            winner: None,
            serve_toward_right: true,
            replay_buffer: ReplayBuffer::new(),
            replay_frames: Vec::new(),
            replay_index: 0,
        }
    }

    /// Sets up a new match in the current mode and starts its countdown.
    pub fn start_new_match(&mut self)
        requires
            old(self).inv(),
        ensures
            final(self).inv(),
            final(self).is_new_match_of(*old(self)),
            final(self).mode == old(self).mode,
            final(self).difficulty == old(self).difficulty,
            final(self).menu_index == old(self).menu_index,
    {
        proof {
            lemma_speed_up_step(0);
            lemma_shrink_step(0);
        }
        self.score.reset();
        self.winner = None;
        self.paddle_left.reset_for_new_match();
        self.paddle_right.reset_for_new_match();
        self.paddle_right.is_ai = self.mode == GameMode::OnePlayer;
        self.ball.reset_for_new_match();
        self.replay_buffer.clear();
        self.serve_toward_right = true;
        self.state = GameState::Countdown;
    }

    /// One frame of the main menu.  Down and up move the selection, right
    /// on the first entry changes the difficulty, enter takes the selected
    /// entry (single player, two players, the controls screen, or quit) and
    /// escape quits.
    #[verifier::rlimit(40)]
    #[verifier::spinoff_prover]
    pub fn update_menu(&mut self, keys: MenuKeys) -> (cmd: Command)
        requires
            old(self).inv(),
        ensures
            final(self).inv(),
            ({
                let idx = menu_moved(old(self).menu_index, keys.down, keys.up);
                let diff = if idx == 0 && keys.right {
                    old(self).difficulty.next()
                } else {
                    old(self).difficulty
                };
                &&& (cmd == Command::Quit) <==> (keys.escape || (keys.enter && idx == 3))
                &&& (!keys.enter || idx == 3) ==> *final(self) == (Game {
                    menu_index: idx,
                    difficulty: diff,
                    ..*old(self)
                })
                &&& (keys.enter && idx == 2) ==> *final(self) == (Game {
                    menu_index: idx,
                    difficulty: diff,
                    state: GameState::Controls,
                    ..*old(self)
                })
                &&& (keys.enter && idx < 2) ==> {
                    &&& final(self).is_new_match_of(*old(self))
                    &&& final(self).menu_index == idx
                    &&& final(self).difficulty == diff
                    &&& final(self).mode == if idx == 0 {
                        GameMode::OnePlayer
                    } else {
                        GameMode::TwoPlayer
                    }
                }
            }),
    {
        if keys.down {
            if self.menu_index + 1 <= MENU_OPTION_COUNT - 1 {
                self.menu_index = self.menu_index + 1;
            } else {
                self.menu_index = MENU_OPTION_COUNT - 1;
            }
        }
        if keys.up {
            if self.menu_index >= 1 {
                self.menu_index = self.menu_index - 1;
            } else {
                self.menu_index = 0;
            }
        }
        if self.menu_index == 0 && keys.right {
            self.difficulty = self.difficulty.cycle();
        }
        if keys.enter {
            if self.menu_index == 0 {
                self.mode = GameMode::OnePlayer;
                self.start_new_match();
            } else if self.menu_index == 1 {
                self.mode = GameMode::TwoPlayer;
                self.start_new_match();
            } else if self.menu_index == 2 {
                self.state = GameState::Controls;
            } else {
                return Command::Quit;
            }
        }
        if keys.escape {
            return Command::Quit;
        }
        Command::Continue
    }

    /// One frame of the controls screen: escape or enter go back to the menu.
    pub fn update_controls(&mut self, escape: bool, enter: bool)
        requires
            old(self).inv(),
        ensures
            final(self).inv(),
            (escape || enter) ==> *final(self) == (Game { state: GameState::MainMenu, ..*old(self) }),
            !(escape || enter) ==> *final(self) == *old(self),
    {
        if escape || enter {
            self.state = GameState::MainMenu;
        }
    }

    /// One frame of the countdown before a serve; `expired` tells whether
    /// the countdown has run out, in which case play starts (and the caller
    /// serves the ball towards the side given by `serve_toward_right`).
    pub fn update_countdown(&mut self, expired: bool)
        requires
            old(self).inv(),
            old(self).state == GameState::Countdown,
        ensures
            final(self).inv(),
            expired ==> *final(self) == (Game { state: GameState::Playing, ..*old(self) }),
            !expired ==> *final(self) == *old(self),
    {
        if expired {
            self.state = GameState::Playing;
        }
    }

    /// Start of a frame of play: escape goes back to the menu.  Tells whether
    /// the frame goes on.
    pub fn update_playing(&mut self, escape: bool) -> (goes_on: bool)
        requires
            old(self).inv(),
        ensures
            final(self).inv(),
            goes_on == !escape,
            escape ==> *final(self) == (Game { state: GameState::MainMenu, ..*old(self) }),
            !escape ==> *final(self) == *old(self),
    {
        if escape {
            self.state = GameState::MainMenu;
            return false;
        }
        true
    }

    /// Records a frame of play for the replay.
    pub fn record_frame(&mut self, snap: S)
        requires
            old(self).inv(),
        ensures
            final(self).inv(),
            final(self).replay_buffer@ == after_push(old(self).replay_buffer@, snap),
            *final(self) == (Game { replay_buffer: final(self).replay_buffer, ..*old(self) }),
    {
        self.replay_buffer.push(snap);
    }

    /// Paddle or ball effect of a collected power-up.  A shield is raised
    /// here; the timed effects are started by the caller on the returned
    /// recipient.
    pub fn apply_powerup(&mut self, kind: PowerUpKind, heading_right: bool) -> (r: Recipient)
        requires
            old(self).inv(),
        ensures
            final(self).inv(),
            r == kind.recipient_of(heading_right),
            kind != PowerUpKind::Shield ==> *final(self) == *old(self),
            (kind == PowerUpKind::Shield && heading_right) ==> *final(self) == (Game {
                paddle_right: Paddle { shield: true, ..old(self).paddle_right },
                ..*old(self)
            }),
            (kind == PowerUpKind::Shield && !heading_right) ==> *final(self) == (Game {
                paddle_left: Paddle { shield: true, ..old(self).paddle_left },
                ..*old(self)
            }),
    {
        let r = kind.recipient(heading_right);
        if kind == PowerUpKind::Shield {
            if heading_right {
                self.paddle_right.apply_shield();
            } else {
                self.paddle_left.apply_shield();
            }
        }
        r
    }

    /// Consequences of a point: the conceding paddle shrinks, the next
    /// serve goes towards the scorer's side, the ball speeds up, and the
    /// match ends, a replay starts, or the countdown to the next serve starts.
    fn handle_score(&mut self, right_scored: bool)
        requires
            old(self).state == GameState::Playing,
            old(self).paddle_left.wf(),
            old(self).paddle_right.wf(),
            old(self).ball.wf(),
            old(self).menu_index < MENU_OPTION_COUNT,
            old(self).replay_buffer@.len() <= MAX_SNAPSHOTS,
            (old(self).winner is None),
            old(self).score.left <= WIN_SCORE,
            old(self).score.right <= WIN_SCORE,
            old(self).score.left < WIN_SCORE || old(self).score.right < WIN_SCORE,
            right_scored ==> old(self).score.right >= 1,
            !right_scored ==> old(self).score.left >= 1,
            old(self).ball.speed == speed_after_points(
                (old(self).score.left + old(self).score.right - 1) as nat,
            ),
            old(self).paddle_left.base_height == height_after_concessions(
                (if right_scored { old(self).score.right - 1 } else { old(self).score.right as int }) as nat,
            ),
            old(self).paddle_right.base_height == height_after_concessions(
                (if right_scored { old(self).score.left as int } else { old(self).score.left - 1 }) as nat,
            ),
        ensures
            final(self).inv(),
            final(self).paddle_left == (if right_scored {
                Paddle { base_height: shrunk_height(old(self).paddle_left.base_height), ..old(self).paddle_left }
            } else {
                old(self).paddle_left
            }),
            final(self).paddle_right == (if right_scored {
                old(self).paddle_right
            } else {
                Paddle { base_height: shrunk_height(old(self).paddle_right.base_height), ..old(self).paddle_right }
            }),
            final(self).serve_toward_right == right_scored,
            final(self).ball.speed == faster(old(self).ball.speed),
            final(self).score == old(self).score,
            final(self).mode == old(self).mode,
            final(self).difficulty == old(self).difficulty,
            final(self).menu_index == old(self).menu_index,
            final(self).replay_buffer == old(self).replay_buffer,
            match_over(old(self).score) ==> {
                &&& final(self).state == GameState::GameOver
                &&& final(self).winner == Some(match_winner(old(self).score))
                &&& final(self).replay_frames == old(self).replay_frames
                &&& final(self).replay_index == old(self).replay_index
            },
            !match_over(old(self).score) ==> (final(self).winner is None),
            (!match_over(old(self).score) && old(self).replay_buffer@.len() > 0) ==> {
                &&& final(self).state == GameState::Replay
                &&& final(self).replay_frames@ == old(self).replay_buffer@
                &&& final(self).replay_index == 0
            },
            (!match_over(old(self).score) && old(self).replay_buffer@.len() == 0) ==> {
                &&& final(self).state == GameState::Countdown
                &&& final(self).replay_frames == old(self).replay_frames
                &&& final(self).replay_index == old(self).replay_index
            },
    {
        proof {
            lemma_speed_up_step((self.score.left + self.score.right - 1) as nat);
            if right_scored {
                lemma_shrink_step((self.score.right - 1) as nat);
            } else {
                lemma_shrink_step((self.score.left - 1) as nat);
            }
        }
        if right_scored {
            self.paddle_left.shrink_on_concede();
            self.serve_toward_right = true;
        } else {
            self.paddle_right.shrink_on_concede();
            self.serve_toward_right = false;
        }
        self.ball.speed_up();

        if self.score.left >= WIN_SCORE || self.score.right >= WIN_SCORE {
            self.winner = Some(
                if self.score.left > self.score.right {
                    Winner::Left
                } else {
                    Winner::Right
                },
            );
            self.state = GameState::GameOver;
            return;
        }
        if self.replay_buffer.len() > 0 {
            self.replay_frames = self.replay_buffer.snapshot_vec();
            self.replay_index = 0;
            self.state = GameState::Replay;
        } else {
            self.state = GameState::Countdown;
        }
    }

    /// End of a frame of play: settles whether the ball left the field
    /// (`ball_past_left` / `ball_past_right`, as in `Score::update`) and, on
    /// a point, applies its consequences: the conceding paddle shrinks, the
    /// next serve goes towards the scorer's side, the ball speeds up, and
    /// then the match ends once a side has `WIN_SCORE` points, or else a
    /// the recorded frames of the rally are replayed (the frame loop records
    /// a frame before settling it, so every point gets its replay); only with
    /// nothing recorded does the countdown to the next serve start at once.
    pub fn settle_frame(&mut self, ball_past_left: bool, ball_past_right: bool) -> (event: ScoreEvent)
        requires
            old(self).inv(),
            old(self).state == GameState::Playing,
        ensures
            final(self).inv(),
            event == score_event(
                ball_past_left,
                ball_past_right,
                old(self).paddle_left.shield,
                old(self).paddle_right.shield,
            ),
            final(self).score.left == old(self).score.left + (if event == ScoreEvent::LeftScored { 1int } else { 0int }),
            final(self).score.right == old(self).score.right + (if event == ScoreEvent::RightScored { 1int } else { 0int }),
            final(self).paddle_left.shield == (old(self).paddle_left.shield && !ball_past_left),
            final(self).paddle_right.shield == (old(self).paddle_right.shield && (ball_past_left || !ball_past_right)),
            final(self).paddle_left.is_ai == old(self).paddle_left.is_ai,
            final(self).paddle_right.is_ai == old(self).paddle_right.is_ai,
            final(self).mode == old(self).mode,
            final(self).difficulty == old(self).difficulty,
            final(self).menu_index == old(self).menu_index,
            final(self).replay_buffer == old(self).replay_buffer,
            (event == ScoreEvent::NoScore || event == ScoreEvent::Blocked) ==> *final(self) == (Game {
                paddle_left: final(self).paddle_left,
                paddle_right: final(self).paddle_right,
                ..*old(self)
            }),
            (event == ScoreEvent::LeftScored || event == ScoreEvent::RightScored) ==> {
                let right_scored = event == ScoreEvent::RightScored;
                &&& final(self).paddle_left.base_height == (if right_scored {
                    shrunk_height(old(self).paddle_left.base_height)
                } else {
                    old(self).paddle_left.base_height
                })
                &&& final(self).paddle_right.base_height == (if right_scored {
                    old(self).paddle_right.base_height
                } else {
                    shrunk_height(old(self).paddle_right.base_height)
                })
                &&& final(self).serve_toward_right == right_scored
                &&& final(self).ball.speed == faster(old(self).ball.speed)
                &&& match_over(final(self).score) ==> {
                    &&& final(self).state == GameState::GameOver
                    &&& final(self).winner == Some(match_winner(final(self).score))
                    &&& final(self).replay_frames == old(self).replay_frames
                    &&& final(self).replay_index == old(self).replay_index
                }
                &&& (!match_over(final(self).score) && old(self).replay_buffer@.len()
                    > 0) ==> {
                    &&& final(self).state == GameState::Replay
                    &&& final(self).replay_frames@ == old(self).replay_buffer@
                    &&& final(self).replay_index == 0
                }
                &&& (!match_over(final(self).score) && old(self).replay_buffer@.len()
                    == 0) ==> {
                    &&& final(self).state == GameState::Countdown
                    &&& final(self).replay_frames == old(self).replay_frames
                    &&& final(self).replay_index == old(self).replay_index
                }
            },
    {
        let event = self.score.update(
            ball_past_left,
            ball_past_right,
            &mut self.paddle_left,
            &mut self.paddle_right,
        );
        match event {
            ScoreEvent::NoScore | ScoreEvent::Blocked => {},
            ScoreEvent::LeftScored => self.handle_score(false),
            ScoreEvent::RightScored => self.handle_score(true),
        }
        event
    }

    /// One frame of the replay.  `skip` ends it at once; otherwise, when the
    /// next frame is due (`frame_due`), the replay moves on by one frame and
    /// ends after the last one.  A replay ends in the countdown to the next
    /// serve.
    pub fn update_replay(&mut self, skip: bool, frame_due: bool)
        requires
            old(self).inv(),
            old(self).state == GameState::Replay,
        ensures
            final(self).inv(),
            skip ==> *final(self) == (Game { state: GameState::Countdown, ..*old(self) }),
            (!skip && !frame_due) ==> *final(self) == *old(self),
            (!skip && frame_due) ==> *final(self) == (Game {
                replay_index: (old(self).replay_index + 1) as usize,
                state: if old(self).replay_index + 1 >= old(self).replay_frames@.len() {
                    GameState::Countdown
                } else {
                    GameState::Replay
                },
                ..*old(self)
            }),
    {
        if skip {
            self.finish_replay();
            return;
        }
        if frame_due {
            let n = self.replay_frames.len();
            let next = self.replay_index + 1;
            if next >= n {
                self.finish_replay();
            }
            self.replay_index = next;
        }
    }

    /// Ends the replay: the countdown to the next serve starts.
    pub fn finish_replay(&mut self)
        requires
            old(self).inv(),
            old(self).state == GameState::Replay || old(self).state == GameState::Countdown,
        ensures
            final(self).inv(),
            *final(self) == (Game { state: GameState::Countdown, ..*old(self) }),
    {
        self.state = GameState::Countdown;
    }

    /// One frame of the game-over screen: enter goes back to the menu and
    /// escape quits.
    pub fn update_game_over(&mut self, enter: bool, escape: bool) -> (cmd: Command)
        requires
            old(self).inv(),
        ensures
            final(self).inv(),
            (cmd == Command::Quit) <==> escape,
            enter ==> *final(self) == (Game { state: GameState::MainMenu, ..*old(self) }),
            !enter ==> *final(self) == *old(self),
    {
        if enter {
            self.state = GameState::MainMenu;
        }
        if escape {
            return Command::Quit;
        }
        Command::Continue
    }

    /// The recorded frame the replay shows now: the current one, or the last
    /// one once the replay has run past the end; none when nothing was
    /// recorded.
    pub fn replay_frame(&self) -> (f: Option<S>)
        ensures
            self.replay_frames@.len() == 0 ==> (f is None),
            self.replay_frames@.len() > 0 ==> f == Some(
                self.replay_frames@[if self.replay_index < self.replay_frames@.len() {
                    self.replay_index as int
                } else {
                    self.replay_frames@.len() - 1
                }],
            ),
    {
        let n = self.replay_frames.len();
        if n == 0 {
            return None;
        }
        let idx = if self.replay_index < n {
            self.replay_index
        } else {
            n - 1
        };
        Some(self.replay_frames[idx])
    }
}

/// Text of a main-menu entry.
pub fn menu_label(index: usize) -> (r: &'static str)
    requires
        index < MENU_OPTION_COUNT,
    ensures
        index == 0 ==> r@ == "1 Player"@,
        index == 1 ==> r@ == "2 Player"@,
        index == 2 ==> r@ == "Controls"@,
        index == 3 ==> r@ == "Quit"@,
{
    if index == 0 {
        "1 Player"
    } else if index == 1 {
        "2 Player"
    } else if index == 2 {
        "Controls"
    } else {
        "Quit"
    }
}

/// The side named winner of a finished match is the one that reached
/// `WIN_SCORE` points first; the other side has fewer.
pub proof fn lemma_winner_reached_win_score<S: Copy>(g: Game<S>)
    requires
        g.inv(),
        g.state == GameState::GameOver,
    ensures
        g.winner == Some(Winner::Left) ==> g.score.left == WIN_SCORE && g.score.right < WIN_SCORE,
        g.winner == Some(Winner::Right) ==> g.score.right == WIN_SCORE && g.score.left < WIN_SCORE,
        (g.winner is Some),
{
}

/// Throughout the game the ball's speed and the paddles' heights follow the
/// score: after `p` points in all the ball moves at `min(320 + 22 p, 750)`
/// pixels per second, and a paddle whose side has conceded `c` points is
/// `max(100 - 12 c, 30)` pixels high.
pub proof fn lemma_speed_and_heights_follow_score<S: Copy>(g: Game<S>)
    requires
        g.inv(),
    ensures
        g.ball.speed == (if 320 + 22 * (g.score.left + g.score.right) <= 750 {
            320 + 22 * (g.score.left + g.score.right)
        } else {
            750
        }),
        g.paddle_left.base_height == (if 100 - 12 * g.score.right >= 30 {
            100 - 12 * g.score.right
        } else {
            30
        }),
        g.paddle_right.base_height == (if 100 - 12 * g.score.left >= 30 {
            100 - 12 * g.score.left
        } else {
            30
        }),
{
    reveal(speed_after_points);
    reveal(height_after_concessions);
}

/// Every speed and base height the game reaches is even, so halving them
/// for the slow-ball and small-paddle effects loses nothing.
pub proof fn lemma_speed_and_heights_even<S: Copy>(g: Game<S>)
    requires
        g.inv(),
    ensures
        g.ball.speed % 2 == 0,
        g.paddle_left.base_height % 2 == 0,
        g.paddle_right.base_height % 2 == 0,
{
    reveal(speed_after_points);
    reveal(height_after_concessions);
    let p = (g.score.left + g.score.right) as int;
    let l = g.score.right as int;
    let r = g.score.left as int;
    assert((320 + 22 * p) % 2 == 0) by (nonlinear_arith);
    assert((100 - 12 * l) % 2 == 0) by (nonlinear_arith);
    assert((100 - 12 * r) % 2 == 0) by (nonlinear_arith);
}

/// Menu keys move the selection one entry at a time: up alone goes exactly
/// one entry back (staying on the first), down alone exactly one entry
/// further (staying on the last), no key keeps it, and down with up returns
/// to the same entry except from the last one.
pub proof fn lemma_menu_moves_one_step(i: usize)
    requires
        i < MENU_OPTION_COUNT,
    ensures
        i >= 1 ==> menu_moved(i, false, true) + 1 == i,
        i == 0 ==> menu_moved(i, false, true) == 0,
        i + 1 < MENU_OPTION_COUNT ==> menu_moved(i, true, false) == i + 1,
        i + 1 == MENU_OPTION_COUNT ==> menu_moved(i, true, false) == i,
        menu_moved(i, false, false) == i,
        i + 1 < MENU_OPTION_COUNT ==> menu_moved(i, true, true) == i,
        menu_moved(i, true, true) < MENU_OPTION_COUNT,
        menu_moved(i, false, true) < MENU_OPTION_COUNT,
{
}

} // verus!
