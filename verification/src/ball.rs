use vstd::prelude::*;

verus! {

/// Speed, in pixels per second, of the ball at the start of a match.
pub const BALL_BASE_SPEED: u32 = 320;

/// Highest speed, in pixels per second, that the ball reaches.
pub const BALL_MAX_SPEED: u32 = 750;

/// Speed, in pixels per second, that the ball gains after each point.
pub const BALL_SPEED_INCREMENT: u32 = 22;

/// Speed after one more point: 22 pixels per second faster, capped at 750.
pub open spec fn faster(speed: u32) -> u32 {
    if speed + BALL_SPEED_INCREMENT <= BALL_MAX_SPEED {
        (speed + BALL_SPEED_INCREMENT) as u32
    } else {
        BALL_MAX_SPEED
    }
}

/// Speed after `n` points of a match: `min(320 + 22 n, 750)`.
#[verifier::opaque]
pub open spec fn speed_after_points(n: nat) -> int {
    if BALL_BASE_SPEED + BALL_SPEED_INCREMENT * n <= BALL_MAX_SPEED {
        BALL_BASE_SPEED + BALL_SPEED_INCREMENT * n
    } else {
        BALL_MAX_SPEED as int
    }
}

/// The discrete state of the ball: its base speed.  Its position, heading and
/// the timers of the slow and fast effects are continuous quantities that the
/// frame loop keeps.
#[derive(Debug, Clone, Copy, PartialEq, Eq, Structural)]
pub struct Ball {
    pub speed: u32,
}

impl Ball {
    /// The speed lies between the starting speed and the cap and is even
    /// (the starting speed, the increment and the cap all are).
    pub open spec fn wf(&self) -> bool {
        &&& BALL_BASE_SPEED <= self.speed <= BALL_MAX_SPEED
        &&& self.speed % 2 == 0
    }

    /// A ball at the starting speed.
    pub fn new() -> (b: Ball)
        ensures
            b.speed == BALL_BASE_SPEED,
            b.wf(),
    {
        Ball { speed: BALL_BASE_SPEED }
    }

    /// Back to the starting speed for a new match.
    pub fn reset_for_new_match(&mut self)
        ensures
            final(self).speed == BALL_BASE_SPEED,
            final(self).wf(),
    {
        self.speed = BALL_BASE_SPEED;
    }

    /// Speed at which the ball actually travels: halved while slowed, doubled
    /// while hastened, and unchanged when both effects run at once.  A valid
    /// ball's speed is even, so the halved speed is exact.
    pub fn effective_speed(&self, slowed: bool, hastened: bool) -> (s: u64)
        requires
            self.wf(),
        ensures
            s == (if slowed && !hastened {
                (self.speed / 2) as int
            } else if hastened && !slowed {
                2 * self.speed
            } else {
                self.speed as int
            }),
            slowed && !hastened ==> 2 * s == self.speed,
    {
        let base = self.speed as u64;
        if slowed && !hastened {
            base / 2
        } else if hastened && !slowed {
            base * 2
        } else {
            base
        }
    }

    /// Makes the ball faster after a point, up to the cap.
    pub fn speed_up(&mut self)
        ensures
            final(self).speed == faster(old(self).speed),
    {
        if self.speed <= BALL_MAX_SPEED - BALL_SPEED_INCREMENT {
            self.speed = self.speed + BALL_SPEED_INCREMENT;
        } else {
            self.speed = BALL_MAX_SPEED;
        }
    }
}

/// Speeding up never slows the ball, never passes the cap, and strictly
/// speeds it up while it is below the cap.
pub proof fn lemma_speed_up_bounded(s: u32)
    requires
        BALL_BASE_SPEED <= s <= BALL_MAX_SPEED,
    ensures
        s <= faster(s) <= BALL_MAX_SPEED,
        s % 2 == 0 ==> faster(s) % 2 == 0,
        s < BALL_MAX_SPEED ==> s < faster(s),
        s == BALL_MAX_SPEED ==> faster(s) == s,
{
}

/// After `n` points the speed is `min(320 + 22 n, 750)`, and one more point
/// brings it to the value for `n + 1`.
pub proof fn lemma_speed_up_step(n: nat)
    ensures
        BALL_BASE_SPEED <= speed_after_points(n) <= BALL_MAX_SPEED,
        speed_after_points(n) % 2 == 0,
        faster(speed_after_points(n) as u32) == speed_after_points(n + 1),
        speed_after_points(0) == BALL_BASE_SPEED,
{
    reveal(speed_after_points);
    assert(BALL_SPEED_INCREMENT * (n + 1) == BALL_SPEED_INCREMENT * n + BALL_SPEED_INCREMENT) by (nonlinear_arith);
    assert(BALL_SPEED_INCREMENT * n >= 0) by (nonlinear_arith);
    assert((BALL_BASE_SPEED + BALL_SPEED_INCREMENT * n) % 2 == 0) by (nonlinear_arith);
}

} // verus!
