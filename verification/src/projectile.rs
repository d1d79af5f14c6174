//! Projectiles: short-lived ranged attacks fired by towers.

use crate::arith::spec_div_milli;
use crate::balloon::Balloon;
use crate::balloon::BalloonView;
use crate::config::Config;
use crate::config::MAX_STEP;
use vstd::math::abs;
use vstd::prelude::*;

verus! {

/// A projectile's lifecycle. `Dead` is reached only by leaving the visible
/// bounds, `Hit` only by a collision with a balloon; both are terminal and
/// trigger removal at the end of the frame.
#[derive(Clone, Copy, PartialEq, Eq, Structural, Debug)]
pub enum ProjectileState {
    Alive,
    Dead,
    Hit,
}

/// A projectile: a position in milliunits and a fixed per-mille unit heading.
#[derive(Clone, Copy, PartialEq, Eq, Structural, Debug)]
pub struct Projectile {
    pub position_x: i64,
    pub position_y: i64,
    pub direction_x: i64,
    pub direction_y: i64,
    pub state: ProjectileState,
}

/// The mathematical value of a [`Projectile`]: the same fields over `int`.
pub ghost struct ProjectileView {
    pub position_x: int,
    pub position_y: int,
    pub direction_x: int,
    pub direction_y: int,
    pub state: ProjectileState,
}

impl View for Projectile {
    type V = ProjectileView;

    open spec fn view(&self) -> ProjectileView {
        ProjectileView {
            position_x: self.position_x as int,
            position_y: self.position_y as int,
            direction_x: self.direction_x as int,
            direction_y: self.direction_y as int,
            state: self.state,
        }
    }
}

/// A freshly fired projectile at the given position with the given per-mille
/// heading, alive.
pub open spec fn spec_new_projectile(x: int, y: int, dx: int, dy: int) -> ProjectileView {
    ProjectileView { position_x: x, position_y: y, direction_x: dx, direction_y: dy, state: ProjectileState::Alive }
}

/// Whether a position lies outside the visible play area.
pub open spec fn spec_out_of_bounds(x: int, y: int, c: Config) -> bool {
    ||| x < 0
    ||| x > c.width
    ||| y < 0
    ||| y > c.height
}

/// One axis of projectile movement: the per-mille heading component times the
/// speed times the delta, scaled back down by a thousand.
pub open spec fn spec_projectile_step(dir: int, c: Config, delta_time: int) -> int {
    spec_div_milli(dir * c.projectile_speed * delta_time)
}

/// The projectile moved along its heading for `delta_time` milliseconds; it
/// is marked `Dead` exactly when its position *before* the move had already
/// left the visible play area (the move is applied regardless).
pub open spec fn spec_update_projectile(p: ProjectileView, c: Config, delta_time: int) -> ProjectileView {
    ProjectileView {
        position_x: p.position_x + spec_projectile_step(p.direction_x, c, delta_time),
        position_y: p.position_y + spec_projectile_step(p.direction_y, c, delta_time),
        state: if spec_out_of_bounds(p.position_x, p.position_y, c) {
            ProjectileState::Dead
        } else {
            p.state
        },
        ..p
    }
}

/// Axis-aligned proximity test: the projectile and the balloon collide
/// exactly when both the horizontal and the vertical distance between their
/// centers are within the sum of the balloon collider radius and the
/// projectile radius.
pub open spec fn spec_check_collision(p: ProjectileView, b: BalloonView, c: Config) -> bool {
    &&& abs(p.position_x - b.position_x) <= c.spec_collision_range()
    &&& abs(p.position_y - b.position_y) <= c.spec_collision_range()
}

/// Positions a live projectile can hold mid-frame: at most one frame's
/// movement beyond the visible play area, with a per-mille unit heading.
pub open spec fn projectile_in_flight(p: ProjectileView, c: Config) -> bool {
    &&& -MAX_STEP <= p.position_x <= c.width + MAX_STEP
    &&& -MAX_STEP <= p.position_y <= c.height + MAX_STEP
    &&& -1000 <= p.direction_x <= 1000
    &&& -1000 <= p.direction_y <= 1000
}

/// Creates a projectile at a tower's position with a fixed per-mille heading.
pub fn new_projectile(x: i64, y: i64, dx: i64, dy: i64) -> (p: Projectile)
    ensures
        p@ == spec_new_projectile(x as int, y as int, dx as int, dy as int),
{
    Projectile { position_x: x, position_y: y, direction_x: dx, direction_y: dy, state: ProjectileState::Alive }
}

/// Moves a projectile along its heading for `delta_time` milliseconds,
/// marking it `Dead` if its pre-move position had left the play area.
pub fn update_projectile(projectile: Projectile, c: &Config, delta_time: u32) -> (r: Projectile)
    requires
        c.wf(),
        projectile_in_flight(projectile@, *c),
    ensures
        r@ == spec_update_projectile(projectile@, *c, delta_time as int),
        r@.state is Alive ==> projectile_in_flight(r@, *c),
        -2 * MAX_STEP <= r@.position_x <= c.width + 2 * MAX_STEP,
        -2 * MAX_STEP <= r@.position_y <= c.height + 2 * MAX_STEP,
        r@.direction_x == projectile@.direction_x,
        r@.direction_y == projectile@.direction_y,
        r@.state is Alive ==> projectile@.state is Alive,
{
    let dead = projectile.position_x < 0 || projectile.position_x > c.width
        || projectile.position_y < 0 || projectile.position_y > c.height;
    proof {
        crate::arith::lemma_mul_signed_le(
            projectile@.direction_x,
            c.projectile_speed as int,
            1000,
            crate::config::MAX_SPEED as int,
        );
        crate::arith::lemma_mul_signed_le(
            projectile@.direction_y,
            c.projectile_speed as int,
            1000,
            crate::config::MAX_SPEED as int,
        );
        crate::arith::lemma_mul_signed_le(
            projectile@.direction_x * c.projectile_speed,
            delta_time as int,
            1000 * crate::config::MAX_SPEED as int,
            u32::MAX as int,
        );
        crate::arith::lemma_mul_signed_le(
            projectile@.direction_y * c.projectile_speed,
            delta_time as int,
            1000 * crate::config::MAX_SPEED as int,
            u32::MAX as int,
        );
        crate::arith::lemma_div_milli_bound(
            projectile@.direction_x * c.projectile_speed * delta_time,
            MAX_STEP as int,
        );
        crate::arith::lemma_div_milli_bound(
            projectile@.direction_y * c.projectile_speed * delta_time,
            MAX_STEP as int,
        );
    }
    let step_x = crate::arith::div_milli(projectile.direction_x * c.projectile_speed * (delta_time as i64));
    let step_y = crate::arith::div_milli(projectile.direction_y * c.projectile_speed * (delta_time as i64));
    Projectile {
        position_x: projectile.position_x + step_x,
        position_y: projectile.position_y + step_y,
        state: if dead {
            ProjectileState::Dead
        } else {
            projectile.state
        },
        ..projectile
    }
}

/// Whether the projectile is still alive.
pub fn is_projectile_alive(projectile: &Projectile) -> (r: bool)
    ensures
        r == (projectile.state is Alive),
{
    match projectile.state {
        ProjectileState::Alive => true,
        _ => false,
    }
}

/// Whether the projectile has hit a balloon this frame.
pub fn is_projectile_hit(projectile: &Projectile) -> (r: bool)
    ensures
        r == (projectile.state is Hit),
{
    match projectile.state {
        ProjectileState::Hit => true,
        _ => false,
    }
}

/// The projectile after a successful collision: marked `Hit`.
pub fn hit_projectile(projectile: Projectile) -> (r: Projectile)
    ensures
        r@ == (ProjectileView { state: ProjectileState::Hit, ..projectile@ }),
{
    Projectile { state: ProjectileState::Hit, ..projectile }
}

/// Axis-aligned proximity test between a projectile and a balloon.
pub fn check_collision(projectile: Projectile, balloon: Balloon, c: &Config) -> (r: bool)
    requires
        c.wf(),
        -4 * MAX_STEP <= projectile.position_x <= 4 * MAX_STEP,
        -4 * MAX_STEP <= projectile.position_y <= 4 * MAX_STEP,
        -4 * MAX_STEP <= balloon.position_x <= 4 * MAX_STEP,
        -4 * MAX_STEP <= balloon.position_y <= 4 * MAX_STEP,
    ensures
        r == spec_check_collision(projectile@, balloon@, *c),
{
    let range = c.collision_range();
    let dx = projectile.position_x - balloon.position_x;
    let dy = projectile.position_y - balloon.position_y;
    let dist_x = if dx < 0 { -dx } else { dx };
    let dist_y = if dy < 0 { -dy } else { dy };
    !(dist_x > range || dist_y > range)
}

} // verus!
