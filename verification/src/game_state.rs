use vstd::prelude::*;

verus! {

/// The screen the game is showing.
#[derive(Debug, Clone, Copy, PartialEq, Eq, Structural)]
pub enum GameState {
    MainMenu,
    Controls,
    Countdown,
    Playing,
    Replay,
    GameOver,
}

/// Whether the right paddle is driven by the computer or by a second player.
#[derive(Debug, Clone, Copy, PartialEq, Eq, Structural)]
pub enum GameMode {
    OnePlayer,
    TwoPlayer,
}

/// Strength of the computer opponent.
#[derive(Debug, Clone, Copy, PartialEq, Eq, Structural)]
pub enum Difficulty {
    Easy,
    Medium,
    Hard,
}

impl Difficulty {
    /// The difficulty that follows `self` in the menu: Easy, Medium, Hard, then Easy again.
    pub open spec fn next(self) -> Difficulty {
        match self {
            Difficulty::Easy => Difficulty::Medium,
            Difficulty::Medium => Difficulty::Hard,
            Difficulty::Hard => Difficulty::Easy,
        }
    }

    /// Speed of the computer paddle, in pixels per second.
    pub fn ai_speed(&self) -> (r: u32)
        ensures
            r == match *self {
                Difficulty::Easy => 200u32,
                Difficulty::Medium => 320u32,
                Difficulty::Hard => 460u32,
            },
    {
        match self {
            Difficulty::Easy => 200,
            Difficulty::Medium => 320,
            Difficulty::Hard => 460,
        }
    }

    /// Largest distance, in pixels, by which the computer misses its aim.
    pub fn aim_error(&self) -> (r: u32)
        ensures
            r == match *self {
                Difficulty::Easy => 40u32,
                Difficulty::Medium => 18u32,
                Difficulty::Hard => 6u32,
            },
    {
        match self {
            Difficulty::Easy => 40,
            Difficulty::Medium => 18,
            Difficulty::Hard => 6,
        }
    }

    /// Name shown in the menu.
    pub fn label(&self) -> (r: &'static str)
        ensures
            r@ == match *self {
                Difficulty::Easy => "Easy"@,
                Difficulty::Medium => "Medium"@,
                Difficulty::Hard => "Hard"@,
            },
    {
        match self {
            Difficulty::Easy => "Easy",
            Difficulty::Medium => "Medium",
            Difficulty::Hard => "Hard",
        }
    }

    /// The next difficulty in the menu's cycle.
    pub fn cycle(&self) -> (r: Difficulty)
        ensures
            r == self.next(),
    {
        match self {
            Difficulty::Easy => Difficulty::Medium,
            Difficulty::Medium => Difficulty::Hard,
            Difficulty::Hard => Difficulty::Easy,
        }
    }
}

/// Cycling through the difficulties visits every one of them and comes back
/// to the start after three steps.
pub proof fn lemma_cycle_returns_after_three(d: Difficulty)
    ensures
        d.next() != d,
        d.next().next() != d,
        d.next().next().next() == d,
        d.next() != d.next().next(),
{
}

/// Side that won a match.
#[derive(Debug, Clone, Copy, PartialEq, Eq, Structural)]
pub enum Winner {
    Left,
    Right,
}

/// What became of the ball at the end of a frame.
#[derive(Debug, Clone, Copy, PartialEq, Eq, Structural)]
pub enum ScoreEvent {
    NoScore,
    LeftScored,
    RightScored,
    Blocked,
}

} // verus!
