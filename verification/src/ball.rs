//! The ball's lifecycle: a restart takes the ball off the course and puts a
//! fresh one on the tee.

use vstd::prelude::*;

verus! {

/// What a frame does to the balls on the course.
#[derive(Debug, Clone, Copy, Eq, PartialEq, Hash, Structural)]
pub struct RestartPlan {
    /// Take the one ball that is on the course off it.
    pub despawn: bool,
    /// Put a fresh ball on the tee.
    pub spawn: bool,
}

impl RestartPlan {
    /// The number of balls on a course that held `balls` of them, once the
    /// plan is carried out.
    pub open spec fn balls_after(self, balls: nat) -> nat {
        let left: nat = if self.despawn && balls > 0 {
            (balls - 1) as nat
        } else {
            balls
        };
        if self.spawn {
            left + 1
        } else {
            left
        }
    }
}

/// The plan for a frame in which the restart key was or was not just
/// pressed, on a course that holds `balls` balls.
///
/// A ball is taken off only where it is the only one: with none there is
/// nothing to take, and with several none of them is singled out.
pub open spec fn restart_plan(pressed: bool, balls: nat) -> RestartPlan {
    RestartPlan { despawn: pressed && balls == 1, spawn: pressed }
}

/// Decides what the restart key does in this frame.
///
/// `pressed` says whether the key went down in this frame, `balls` how many
/// balls are on the course.
pub fn restart(pressed: bool, balls: usize) -> (plan: RestartPlan)
    ensures
        plan == restart_plan(pressed, balls as nat),
{
    RestartPlan { despawn: pressed && balls == 1, spawn: pressed }
}

/// A restart on a course with at most one ball leaves exactly one ball.
pub proof fn lemma_restart_leaves_one_ball(balls: nat)
    requires
        balls <= 1,
    ensures
        restart_plan(true, balls).balls_after(balls) == 1,
{
}

/// A frame without a restart leaves the balls as they are.
pub proof fn lemma_no_restart_keeps_balls(balls: nat)
    ensures
        restart_plan(false, balls).balls_after(balls) == balls,
{
}

/// A course that holds several balls is not mended by a restart: it gains
/// one more.
pub proof fn lemma_restart_adds_to_several(balls: nat)
    requires
        balls >= 2,
    ensures
        restart_plan(true, balls).balls_after(balls) == balls + 1,
{
}

} // verus!
