use vstd::prelude::*;

verus! {

/// Number of kinds of power-up.
pub const POWERUP_KIND_COUNT: u32 = 8;

/// The eight power-ups that can appear at the centre of the field.
#[derive(Debug, Clone, Copy, PartialEq, Eq, Structural)]
pub enum PowerUpKind {
    BigPaddle,
    ShrinkOpponent,
    SlowBall,
    FastBall,
    FreezeOpponent,
    ReverseControls,
    Shield,
    MultiBall,
}

/// What a collected power-up acts on.
#[derive(Debug, Clone, Copy, PartialEq, Eq, Structural)]
pub enum Recipient {
    LeftPaddle,
    RightPaddle,
    Ball,
}

/// The kind drawn for index `i` of a uniform draw in `0..8`.
pub open spec fn kind_of_index(i: u32) -> PowerUpKind {
    if i == 0 {
        PowerUpKind::BigPaddle
    } else if i == 1 {
        PowerUpKind::ShrinkOpponent
    } else if i == 2 {
        PowerUpKind::SlowBall
    } else if i == 3 {
        PowerUpKind::FastBall
    } else if i == 4 {
        PowerUpKind::FreezeOpponent
    } else if i == 5 {
        PowerUpKind::ReverseControls
    } else if i == 6 {
        PowerUpKind::Shield
    } else {
        PowerUpKind::MultiBall
    }
}

/// A pseudo-random integer in `0..high` from macroquad's global generator
/// (`macroquad::rand::gen_range`, that is `quad_rand::gen_range`).  The
/// generator scales a 32-bit draw `k` to `high * k / 2^32` and truncates; for
/// `high` up to 2^20 that product is exact, so the result lies below `high`.
/// Which value comes out depends on the generator's hidden state and is not
/// stated.
#[verifier::external_body]
fn random_below(high: u32) -> (r: u32)
    requires
        0 < high <= 0x10_0000,
    ensures
        r < high,
{
    macroquad::rand::gen_range(0u32, high)
}

impl PowerUpKind {
    /// Whether the power-up helps the paddle that collects it (rather than
    /// hindering its opponent or changing the ball).
    pub open spec fn helps_collector(self) -> bool {
        self == PowerUpKind::BigPaddle || self == PowerUpKind::Shield
    }

    /// Whether the power-up hinders the opponent of the collecting paddle.
    pub open spec fn hinders_opponent(self) -> bool {
        self == PowerUpKind::ShrinkOpponent || self == PowerUpKind::FreezeOpponent
            || self == PowerUpKind::ReverseControls
    }

    /// Paddle or ball that the power-up acts on, given whether the ball that
    /// collected it was heading right.  Helpful effects go to the paddle the
    /// ball heads towards, hindering ones to the other paddle, and the ball
    /// effects to the ball.
    pub open spec fn recipient_of(self, heading_right: bool) -> Recipient {
        if self.helps_collector() {
            if heading_right { Recipient::RightPaddle } else { Recipient::LeftPaddle }
        } else if self.hinders_opponent() {
            if heading_right { Recipient::LeftPaddle } else { Recipient::RightPaddle }
        } else {
            Recipient::Ball
        }
    }

    /// How long the effect lasts, in whole seconds (0 for the shield, which
    /// lasts until it blocks a goal).
    pub fn duration(&self) -> (secs: u32)
        ensures
            secs == match *self {
                PowerUpKind::BigPaddle => 5u32,
                PowerUpKind::ShrinkOpponent => 5u32,
                PowerUpKind::SlowBall => 5u32,
                PowerUpKind::FastBall => 4u32,
                PowerUpKind::FreezeOpponent => 3u32,
                PowerUpKind::ReverseControls => 4u32,
                PowerUpKind::Shield => 0u32,
                PowerUpKind::MultiBall => 6u32,
            },
    {
        match self {
            PowerUpKind::BigPaddle => 5,
            PowerUpKind::ShrinkOpponent => 5,
            PowerUpKind::SlowBall => 5,
            PowerUpKind::FastBall => 4,
            PowerUpKind::FreezeOpponent => 3,
            PowerUpKind::ReverseControls => 4,
            PowerUpKind::Shield => 0,
            PowerUpKind::MultiBall => 6,
        }
    }

    /// Short name drawn above the power-up.
    pub fn label(&self) -> (r: &'static str)
        ensures
            r@ == match *self {
                PowerUpKind::BigPaddle => "BIG"@,
                PowerUpKind::ShrinkOpponent => "SHRINK"@,
                PowerUpKind::SlowBall => "SLOW"@,
                PowerUpKind::FastBall => "FAST"@,
                PowerUpKind::FreezeOpponent => "FREEZE"@,
                PowerUpKind::ReverseControls => "REVERSE"@,
                PowerUpKind::Shield => "SHIELD"@,
                PowerUpKind::MultiBall => "MULTI"@,
            },
    {
        match self {
            PowerUpKind::BigPaddle => "BIG",
            PowerUpKind::ShrinkOpponent => "SHRINK",
            PowerUpKind::SlowBall => "SLOW",
            PowerUpKind::FastBall => "FAST",
            PowerUpKind::FreezeOpponent => "FREEZE",
            PowerUpKind::ReverseControls => "REVERSE",
            PowerUpKind::Shield => "SHIELD",
            PowerUpKind::MultiBall => "MULTI",
        }
    }

    /// The kind for a drawn index: 0 to 6 in declaration order, anything
    /// larger the multi-ball.
    pub fn from_index(i: u32) -> (k: PowerUpKind)
        ensures
            k == kind_of_index(i),
    {
        match i {
            0 => PowerUpKind::BigPaddle,
            1 => PowerUpKind::ShrinkOpponent,
            2 => PowerUpKind::SlowBall,
            3 => PowerUpKind::FastBall,
            4 => PowerUpKind::FreezeOpponent,
            5 => PowerUpKind::ReverseControls,
            6 => PowerUpKind::Shield,
            _ => PowerUpKind::MultiBall,
        }
    }

    /// A draw from macroquad's generator over the eight indices, together
    /// with the kind that this index stands for.
    pub fn random_with_index() -> (r: (u32, PowerUpKind))
        ensures
            r.0 < POWERUP_KIND_COUNT,
            r.1 == kind_of_index(r.0),
    {
        let i = random_below(POWERUP_KIND_COUNT);
        (i, PowerUpKind::from_index(i))
    }

    /// A kind drawn from macroquad's generator, each of the eight with one
    /// chance in eight.
    pub fn random() -> (k: PowerUpKind)
        ensures
            exists|i: u32| i < POWERUP_KIND_COUNT && k == kind_of_index(i),
    {
        let (_, k) = PowerUpKind::random_with_index();
        k
    }

    /// What the power-up acts on when the collecting ball heads right
    /// (`heading_right`) or left.
    pub fn recipient(&self, heading_right: bool) -> (r: Recipient)
        ensures
            r == self.recipient_of(heading_right),
    {
        match self {
            PowerUpKind::BigPaddle | PowerUpKind::Shield => {
                if heading_right {
                    Recipient::RightPaddle
                } else {
                    Recipient::LeftPaddle
                }
            },
            PowerUpKind::ShrinkOpponent | PowerUpKind::FreezeOpponent
            | PowerUpKind::ReverseControls => {
                if heading_right {
                    Recipient::LeftPaddle
                } else {
                    Recipient::RightPaddle
                }
            },
            PowerUpKind::SlowBall | PowerUpKind::FastBall | PowerUpKind::MultiBall => Recipient::Ball,
        }
    }
}

/// Every kind can be drawn: the eight indices map onto the eight kinds.
pub proof fn lemma_every_kind_drawable(k: PowerUpKind)
    ensures
        exists|i: u32| i < POWERUP_KIND_COUNT && kind_of_index(i) == k,
{
    match k {
        PowerUpKind::BigPaddle => assert(kind_of_index(0) == k),
        PowerUpKind::ShrinkOpponent => assert(kind_of_index(1) == k),
        PowerUpKind::SlowBall => assert(kind_of_index(2) == k),
        PowerUpKind::FastBall => assert(kind_of_index(3) == k),
        PowerUpKind::FreezeOpponent => assert(kind_of_index(4) == k),
        PowerUpKind::ReverseControls => assert(kind_of_index(5) == k),
        PowerUpKind::Shield => assert(kind_of_index(6) == k),
        PowerUpKind::MultiBall => assert(kind_of_index(7) == k),
    }
}

/// The paddle that a helpful power-up goes to and the one that a hindering
/// power-up hits are never the same: for a given heading, helping and
/// hindering effects land on opposite paddles.
pub proof fn lemma_help_and_hinder_opposite(help: PowerUpKind, hinder: PowerUpKind, heading_right: bool)
    requires
        help.helps_collector(),
        hinder.hinders_opponent(),
    ensures
        help.recipient_of(heading_right) != hinder.recipient_of(heading_right),
        help.recipient_of(heading_right) != Recipient::Ball,
        hinder.recipient_of(heading_right) != Recipient::Ball,
{
}

/// Distinct draws give distinct kinds: the eight indices are never folded
/// onto fewer kinds, so each kind comes from exactly one index and is drawn
/// with one chance in eight.
pub proof fn lemma_draws_distinct(i: u32, j: u32)
    requires
        i < POWERUP_KIND_COUNT,
        j < POWERUP_KIND_COUNT,
        i != j,
    ensures
        kind_of_index(i) != kind_of_index(j),
{
}

/// Every index from 8 on gives the multi-ball, like the last index.
pub proof fn lemma_large_draw_is_multi_ball(i: u32)
    requires
        i >= POWERUP_KIND_COUNT - 1,
    ensures
        kind_of_index(i) == PowerUpKind::MultiBall,
{
}

/// The ball power-ups (slow, fast, multi-ball) act on the ball whatever the
/// heading of the ball that collected them, and only they do; every other
/// power-up acts on a paddle.
pub proof fn lemma_ball_powerups_act_on_ball(k: PowerUpKind, heading_right: bool)
    ensures
        (k.recipient_of(heading_right) == Recipient::Ball) <==> (k == PowerUpKind::SlowBall
            || k == PowerUpKind::FastBall || k == PowerUpKind::MultiBall),
        k.recipient_of(heading_right) == Recipient::Ball ==> k.recipient_of(!heading_right)
            == Recipient::Ball,
{
}

/// A paddle power-up goes to the other paddle when the collecting ball heads
/// the other way: turning the heading round swaps left and right.  The big
/// paddle and the shield go to the paddle the ball heads towards (the right
/// one when heading right); the shrink, freeze and reverse effects to the
/// paddle it heads away from.
pub proof fn lemma_paddle_powerups_follow_heading(k: PowerUpKind, heading_right: bool)
    ensures
        k.recipient_of(heading_right) == Recipient::LeftPaddle <==> k.recipient_of(!heading_right)
            == Recipient::RightPaddle,
        (k == PowerUpKind::BigPaddle || k == PowerUpKind::Shield) ==> k.recipient_of(heading_right)
            == (if heading_right { Recipient::RightPaddle } else { Recipient::LeftPaddle }),
        (k == PowerUpKind::ShrinkOpponent || k == PowerUpKind::FreezeOpponent || k
            == PowerUpKind::ReverseControls) ==> k.recipient_of(heading_right) == (if heading_right {
            Recipient::LeftPaddle
        } else {
            Recipient::RightPaddle
        }),
{
}

} // verus!
