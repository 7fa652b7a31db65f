use vstd::prelude::*;

verus! {

/// Height, in pixels, of a paddle at the start of a match.
pub const PADDLE_HEIGHT_DEFAULT: u32 = 100;

/// Smallest height, in pixels, that conceding points can shrink a paddle to.
pub const PADDLE_HEIGHT_MIN: u32 = 30;

/// Pixels a paddle loses each time its side concedes a point.
pub const PADDLE_SHRINK_AMOUNT: u32 = 12;

/// Base height after one more conceded point: twelve pixels less, but never
/// below the minimum.
pub open spec fn shrunk_height(h: u32) -> u32 {
    if h - PADDLE_SHRINK_AMOUNT >= PADDLE_HEIGHT_MIN {
        (h - PADDLE_SHRINK_AMOUNT) as u32
    } else {
        PADDLE_HEIGHT_MIN
    }
}

/// Base height after `n` conceded points in a match.
#[verifier::opaque]
pub open spec fn height_after_concessions(n: nat) -> int {
    if PADDLE_HEIGHT_DEFAULT - PADDLE_SHRINK_AMOUNT * n >= PADDLE_HEIGHT_MIN {
        PADDLE_HEIGHT_DEFAULT - PADDLE_SHRINK_AMOUNT * n
    } else {
        PADDLE_HEIGHT_MIN as int
    }
}

/// Which size effect is running on a paddle (its remaining time is kept by
/// the frame loop).
#[derive(Debug, Clone, Copy, PartialEq, Eq, Structural)]
pub enum SizeKind {
    Normal,
    Big,
    Small,
}

/// The discrete state of a paddle: its base height, who steers it and
/// whether a shield guards its goal.  Where it stands and the timers of the
/// effects on it are continuous quantities that the frame loop keeps.
#[derive(Debug, Clone, Copy, PartialEq, Eq, Structural)]
pub struct Paddle {
    pub base_height: u32,
    pub is_ai: bool,
    pub shield: bool,
}

impl Paddle {
    /// The base height lies between the minimum and the starting height and
    /// is even (the starting height, the shrink amount and the minimum all are).
    pub open spec fn wf(&self) -> bool {
        &&& PADDLE_HEIGHT_MIN <= self.base_height <= PADDLE_HEIGHT_DEFAULT
        &&& self.base_height % 2 == 0
    }

    /// A fresh paddle at full height and without shield.
    pub fn new(is_ai: bool) -> (p: Paddle)
        ensures
            p.base_height == PADDLE_HEIGHT_DEFAULT,
            p.is_ai == is_ai,
            !p.shield,
            p.wf(),
    {
        Paddle { base_height: PADDLE_HEIGHT_DEFAULT, is_ai, shield: false }
    }

    /// Raises a shield in front of this paddle's goal.
    pub fn apply_shield(&mut self)
        ensures
            *final(self) == (Paddle { shield: true, ..*old(self) }),
    {
        self.shield = true;
    }

    /// Spends the shield, if there is one; tells whether there was.
    pub fn consume_shield(&mut self) -> (had_shield: bool)
        ensures
            had_shield == old(self).shield,
            *final(self) == (Paddle { shield: false, ..*old(self) }),
    {
        if self.shield {
            self.shield = false;
            true
        } else {
            false
        }
    }

    /// Makes the paddle smaller after its side has conceded a point.
    pub fn shrink_on_concede(&mut self)
        ensures
            *final(self) == (Paddle { base_height: shrunk_height(old(self).base_height), ..*old(self) }),
    {
        if self.base_height >= PADDLE_HEIGHT_MIN + PADDLE_SHRINK_AMOUNT {
            self.base_height = self.base_height - PADDLE_SHRINK_AMOUNT;
        } else {
            self.base_height = PADDLE_HEIGHT_MIN;
        }
    }

    /// Height of the paddle under a size effect, before it is clamped to the
    /// window: the base height, doubled while big, halved while small.  A
    /// valid paddle's base height is even, so the halved height is exact.
    pub fn height(&self, size: SizeKind) -> (h: u64)
        requires
            self.wf(),
        ensures
            h == match size {
                SizeKind::Normal => self.base_height as int,
                SizeKind::Big => 2 * self.base_height,
                SizeKind::Small => (self.base_height / 2) as int,
            },
            size == SizeKind::Small ==> 2 * h == self.base_height,
            PADDLE_HEIGHT_MIN / 2 <= h,
    {
        let base = self.base_height as u64;
        match size {
            SizeKind::Normal => base,
            SizeKind::Big => base * 2,
            SizeKind::Small => base / 2,
        }
    }

    /// Whether conceding has shrunk the paddle to its minimum height (the
    /// paddle then flashes).
    pub fn at_minimum_height(&self) -> (r: bool)
        ensures
            r == (self.base_height <= PADDLE_HEIGHT_MIN),
    {
        self.base_height <= PADDLE_HEIGHT_MIN
    }

    /// Restores full height and drops the shield; who steers is kept.
    pub fn reset_for_new_match(&mut self)
        ensures
            final(self).base_height == PADDLE_HEIGHT_DEFAULT,
            !final(self).shield,
            final(self).is_ai == old(self).is_ai,
            final(self).wf(),
    {
        self.base_height = PADDLE_HEIGHT_DEFAULT;
        self.shield = false;
    }
}

/// Direction a paddle moves in this frame: -1 up, 1 down, 0 still.  Up and
/// down held together cancel out; reversed controls swap the two.
pub open spec fn steering(up: bool, down: bool, reversed: bool) -> int {
    let d = (if down { 1int } else { 0int }) - (if up { 1int } else { 0int });
    if reversed { -d } else { d }
}

/// Direction of travel chosen from the two held keys (or, for the computer,
/// from whether its target lies above or below), with reversed controls
/// applied.
pub fn steer_direction(up: bool, down: bool, reversed: bool) -> (dir: i32)
    ensures
        dir == steering(up, down, reversed),
        -1 <= dir <= 1,
{
    let mut dir: i32 = 0;
    if up {
        dir = dir - 1;
    }
    if down {
        dir = dir + 1;
    }
    if reversed {
        dir = -dir;
    }
    dir
}

/// Conceding never shrinks a paddle below the minimum nor grows it, and
/// shrinks it strictly while it is above the minimum.
pub proof fn lemma_shrink_bounded(h: u32)
    requires
        PADDLE_HEIGHT_MIN <= h <= PADDLE_HEIGHT_DEFAULT,
    ensures
        PADDLE_HEIGHT_MIN <= shrunk_height(h) <= h,
        h % 2 == 0 ==> shrunk_height(h) % 2 == 0,
        h > PADDLE_HEIGHT_MIN ==> shrunk_height(h) < h,
        h == PADDLE_HEIGHT_MIN ==> shrunk_height(h) == h,
{
}

/// After `n` conceded points from the start of a match the base height is
/// `max(100 - 12 n, 30)`, and one more point brings it to the value for `n + 1`.
pub proof fn lemma_shrink_step(n: nat)
    ensures
        PADDLE_HEIGHT_MIN <= height_after_concessions(n) <= PADDLE_HEIGHT_DEFAULT,
        height_after_concessions(n) % 2 == 0,
        shrunk_height(height_after_concessions(n) as u32) == height_after_concessions(n + 1),
        height_after_concessions(0) == PADDLE_HEIGHT_DEFAULT,
{
    reveal(height_after_concessions);
    assert(PADDLE_SHRINK_AMOUNT * (n + 1) == PADDLE_SHRINK_AMOUNT * n + PADDLE_SHRINK_AMOUNT) by (nonlinear_arith);
    assert(PADDLE_SHRINK_AMOUNT * n >= 0) by (nonlinear_arith);
    assert((PADDLE_HEIGHT_DEFAULT - PADDLE_SHRINK_AMOUNT * n) % 2 == 0) by (nonlinear_arith);
}

/// Reversed controls only flip the direction: for the same keys the reversed
/// direction is the opposite of the normal one, so with no key held (or both
/// held) the paddle stays still either way.  Up alone moves up, down alone
/// moves down.
pub proof fn lemma_reversal_flips(up: bool, down: bool)
    ensures
        steering(up, down, true) == -steering(up, down, false),
        (up == down) ==> steering(up, down, false) == 0 && steering(up, down, true) == 0,
        steering(true, false, false) == -1,
        steering(false, true, false) == 1,
        -1 <= steering(up, down, false) <= 1,
{
}

} // verus!
