//! Aiming and striking with the left mouse button.

use vstd::prelude::*;

verus! {

/// The number of markers laid out between the ball and the aim point, and
/// the number of equal parts into which they divide that stretch.
pub const POWER_SEGMENTS: usize = 4;

/// What the left mouse button asks for in a frame.
#[derive(Debug, Clone, Copy, Eq, PartialEq, Hash, Structural)]
pub enum ClickPhase {
    /// The button is held: the aim point follows the cursor, and where the
    /// cursor's ray meets the course the markers are laid out anew.
    Aim,
    /// The button has just been let go: the ball is struck and the markers
    /// are cleared.
    Strike,
    /// Neither: nothing happens.
    Idle,
}

/// Decides what the left mouse button asks for in this frame.
///
/// `pressed` says whether the button is down, `just_released` whether it
/// went up in this frame. A held button wins: where both are reported, the
/// frame aims.
pub fn click(pressed: bool, just_released: bool) -> (phase: ClickPhase)
    ensures
        phase is Aim <==> pressed,
        phase is Strike <==> !pressed && just_released,
        phase is Idle <==> !pressed && !just_released,
{
    if pressed {
        ClickPhase::Aim
    } else if just_released {
        ClickPhase::Strike
    } else {
        ClickPhase::Idle
    }
}

/// The steps at which markers are laid out, counted in segments from the
/// ball: one marker at the end of each segment. The first lies one segment
/// away from the ball, the last on the aim point, and none on the ball.
pub fn marker_steps() -> (steps: Vec<usize>)
    ensures
        steps@.len() == POWER_SEGMENTS,
        forall|i: int| 0 <= i < steps@.len() ==> steps@[i] == i + 1,
{
    let mut steps: Vec<usize> = Vec::new();
    let mut step: usize = 1;
    while step <= POWER_SEGMENTS
        invariant
            1 <= step <= POWER_SEGMENTS + 1,
            steps@.len() == step - 1,
            forall|i: int| 0 <= i < steps@.len() ==> steps@[i] == i + 1,
        decreases POWER_SEGMENTS + 1 - step,
    {
        steps.push(step);
        step = step + 1;
    }
    steps
}

} // verus!
