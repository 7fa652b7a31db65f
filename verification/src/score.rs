use vstd::prelude::*;
use crate::game_state::ScoreEvent;
use crate::paddle::Paddle;

verus! {

/// Points won by each side in the current match.
#[derive(Debug, Clone, Copy, PartialEq, Eq, Structural)]
pub struct Score {
    pub left: u32,
    pub right: u32,
}

/// What the end of a frame does to the ball: `past_left` when it has left the
/// field on the left, `past_right` when on the right (the left side is looked
/// at first).  A shield on the side the ball left by blocks the goal and is
/// spent; otherwise the other side scores.
pub open spec fn score_event(
    past_left: bool,
    past_right: bool,
    left_shield: bool,
    right_shield: bool,
) -> ScoreEvent {
    if past_left {
        if left_shield { ScoreEvent::Blocked } else { ScoreEvent::RightScored }
    } else if past_right {
        if right_shield { ScoreEvent::Blocked } else { ScoreEvent::LeftScored }
    } else {
        ScoreEvent::NoScore
    }
}

impl Score {
    /// A fresh score of nil to nil.
    pub fn new() -> (s: Score)
        ensures
            s.left == 0,
            s.right == 0,
    {
        Score { left: 0, right: 0 }
    }

    /// Back to nil to nil.
    pub fn reset(&mut self)
        ensures
            final(self).left == 0,
            final(self).right == 0,
    {
        self.left = 0;
        self.right = 0;
    }

    /// Settles the end of a frame.  `ball_past_left` / `ball_past_right` tell
    /// whether the ball has gone beyond the left or right edge of the field.
    /// A shield guarding that goal is spent and the goal is blocked (the
    /// caller then sends the ball back into play); otherwise the opposing
    /// side gets a point.
    pub fn update(
        &mut self,
        ball_past_left: bool,
        ball_past_right: bool,
        paddle_left: &mut Paddle,
        paddle_right: &mut Paddle,
    ) -> (event: ScoreEvent)
        requires
            ball_past_left && !old(paddle_left).shield ==> old(self).right < u32::MAX,
            !ball_past_left && ball_past_right && !old(paddle_right).shield ==> old(self).left
                < u32::MAX,
        ensures
            event == score_event(
                ball_past_left,
                ball_past_right,
                old(paddle_left).shield,
                old(paddle_right).shield,
            ),
            final(self).left == old(self).left + (if event == ScoreEvent::LeftScored { 1int } else { 0int }),
            final(self).right == old(self).right + (if event == ScoreEvent::RightScored { 1int } else { 0int }),
            *final(paddle_left) == (Paddle {
                shield: old(paddle_left).shield && !ball_past_left,
                ..*old(paddle_left)
            }),
            *final(paddle_right) == (Paddle {
                shield: old(paddle_right).shield && (ball_past_left || !ball_past_right),
                ..*old(paddle_right)
            }),
    {
        if ball_past_left {
            if paddle_left.consume_shield() {
                return ScoreEvent::Blocked;
            }
            self.right = self.right + 1;
            return ScoreEvent::RightScored;
        }
        if ball_past_right {
            if paddle_right.consume_shield() {
                return ScoreEvent::Blocked;
            }
            self.left = self.left + 1;
            return ScoreEvent::LeftScored;
        }
        ScoreEvent::NoScore
    }
}

/// A frame adds at most one point in all, and adds one exactly when a goal
/// was neither missed nor blocked.
pub proof fn lemma_at_most_one_point(
    past_left: bool,
    past_right: bool,
    left_shield: bool,
    right_shield: bool,
)
    ensures
        ({
            let e = score_event(past_left, past_right, left_shield, right_shield);
            &&& (e == ScoreEvent::LeftScored || e == ScoreEvent::RightScored) <==> ((past_left
                && !left_shield) || (!past_left && past_right && !right_shield))
            &&& e == ScoreEvent::Blocked <==> ((past_left && left_shield) || (!past_left
                && past_right && right_shield))
            &&& e == ScoreEvent::NoScore <==> (!past_left && !past_right)
        }),
{
}

/// A shield blocks exactly one goal: the first ball past a shielded goal is
/// blocked and spends the shield, the next one scores.
pub proof fn lemma_shield_blocks_one_goal(right_shield: bool)
    ensures
        score_event(true, false, true, right_shield) == ScoreEvent::Blocked,
        score_event(true, false, false, right_shield) == ScoreEvent::RightScored,
        score_event(false, true, right_shield, true) == ScoreEvent::Blocked,
        score_event(false, true, right_shield, false) == ScoreEvent::LeftScored,
{
}

} // verus!
