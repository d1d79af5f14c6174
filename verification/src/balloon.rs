//! Balloons: the moving targets that traverse the lane.

use crate::config::Config;
use crate::config::MAX_STEP;
use vstd::prelude::*;

verus! {

/// Which way a balloon moves along the lane.
#[derive(Clone, Copy, PartialEq, Eq, Structural, Debug)]
pub enum Direction {
    Right,
    Left,
}

/// A balloon's lifecycle. `Popped` and `Escaped` are terminal: the world
/// removes such balloons at the end of the frame that set them.
#[derive(Clone, Copy, PartialEq, Eq, Structural, Debug)]
pub enum BalloonState {
    Alive,
    Popped,
    Escaped,
}

/// A moving target at a lane position, in milliunits.
#[derive(Clone, Copy, PartialEq, Eq, Structural, Debug)]
pub struct Balloon {
    pub position_x: i64,
    pub position_y: i64,
    pub direction: Direction,
    pub state: BalloonState,
}

/// The mathematical value of a [`Balloon`]: the same fields over `int`.
pub ghost struct BalloonView {
    pub position_x: int,
    pub position_y: int,
    pub direction: Direction,
    pub state: BalloonState,
}

impl View for Balloon {
    type V = BalloonView;

    open spec fn view(&self) -> BalloonView {
        BalloonView {
            position_x: self.position_x as int,
            position_y: self.position_y as int,
            direction: self.direction,
            state: self.state,
        }
    }
}

/// A freshly spawned balloon: at the lane entry (one balloon size in from the
/// left edge, vertically centered), heading right, alive.
pub open spec fn spec_new_balloon(c: Config) -> BalloonView {
    BalloonView {
        position_x: c.balloon_size as int,
        position_y: c.height as int / 2,
        direction: Direction::Right,
        state: BalloonState::Alive,
    }
}

/// The balloon moved along its direction for `delta_time` milliseconds at the
/// configured speed. Movement never touches the lifecycle state.
pub open spec fn spec_update_balloon(b: BalloonView, c: Config, delta_time: int) -> BalloonView {
    let step = c.balloon_speed * delta_time;
    BalloonView {
        position_x: if b.direction is Right {
            b.position_x + step
        } else {
            b.position_x - step
        },
        ..b
    }
}

/// Whether the balloon has crossed beyond the play area, extended outward by
/// its collider radius, on either side.
pub open spec fn spec_has_escaped(b: BalloonView, c: Config) -> bool {
    ||| b.position_x > c.width + c.spec_balloon_collider()
    ||| b.position_x < -c.spec_balloon_collider()
}

/// Positions a balloon can hold between frames: within the lane extended by
/// the collider radius (anything farther out escaped and was removed), on the
/// lane's center line.
pub open spec fn balloon_in_lane(b: BalloonView, c: Config) -> bool {
    &&& -c.spec_balloon_collider() <= b.position_x <= c.width + c.spec_balloon_collider()
    &&& b.position_y == c.height as int / 2
}

/// Creates a balloon at the lane's entry edge, heading right, alive.
pub fn new_balloon(c: &Config) -> (b: Balloon)
    requires
        c.wf(),
    ensures
        b@ == spec_new_balloon(*c),
{
    Balloon {
        position_x: c.balloon_size,
        position_y: crate::arith::half(c.height),
        direction: Direction::Right,
        state: BalloonState::Alive,
    }
}

/// Moves a balloon along its direction for `delta_time` milliseconds.
pub fn update_balloon(balloon: Balloon, c: &Config, delta_time: u32) -> (r: Balloon)
    requires
        c.wf(),
        -2 * MAX_STEP <= balloon.position_x <= 2 * MAX_STEP,
    ensures
        r@ == spec_update_balloon(balloon@, *c, delta_time as int),
{
    proof {
        crate::arith::lemma_mul_le(
            c.balloon_speed as int,
            delta_time as int,
            crate::config::MAX_SPEED as int,
            u32::MAX as int,
        );
    }
    let step = c.balloon_speed * (delta_time as i64);
    let position_x = match balloon.direction {
        Direction::Right => balloon.position_x + step,
        Direction::Left => balloon.position_x - step,
    };
    Balloon { position_x, ..balloon }
}

/// Whether the balloon has left the play area on either side, with the bounds
/// extended outward by its collider radius.
pub fn has_escaped(balloon: Balloon, c: &Config) -> (r: bool)
    requires
        c.wf(),
    ensures
        r == spec_has_escaped(balloon@, *c),
{
    let size = c.balloon_collider();
    balloon.position_x > c.width + size || balloon.position_x < -size
}

} // verus!
