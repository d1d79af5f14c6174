//! Towers: stationary shooters that fire projectiles along their facing,
//! accumulate pops and level up.

use crate::arith::cap_u32;
use crate::arith::cap_u64;
use crate::arith::floor_i64;
use crate::config::Config;
use crate::config::FIRE_BASE;
use crate::config::POPS_PER_LEVEL;
use crate::projectile::spec_new_projectile;
use crate::projectile::Projectile;
use crate::projectile::ProjectileView;
use crate::trig::spec_cos_milli;
use crate::trig::spec_sin_milli;
use crate::trig::TAU_MRAD;
use vstd::prelude::*;

verus! {

/// A stationary tower: a fixed position, a facing angle in milliradians, a
/// firing cooldown in milliseconds, the projectiles it owns, and its score.
#[derive(Clone, Debug, PartialEq)]
pub struct Tower {
    pub position_x: i64,
    pub position_y: i64,
    pub angle: i64,
    pub shot_cooldown: i64,
    pub projectiles: Vec<Projectile>,
    pub pop_count: u64,
    pub level: u32,
}

/// The mathematical value of a [`Tower`]: the same fields over `int`, with
/// the projectiles as a sequence of their views.
pub ghost struct TowerView {
    pub position_x: int,
    pub position_y: int,
    pub angle: int,
    pub shot_cooldown: int,
    pub projectiles: Seq<ProjectileView>,
    pub pop_count: int,
    pub level: int,
}

impl View for Tower {
    type V = TowerView;

    open spec fn view(&self) -> TowerView {
        TowerView {
            position_x: self.position_x as int,
            position_y: self.position_y as int,
            angle: self.angle as int,
            shot_cooldown: self.shot_cooldown as int,
            projectiles: self.projectiles@.map_values(|p: Projectile| p@),
            pop_count: self.pop_count as int,
            level: self.level as int,
        }
    }
}

/// A freshly placed tower: facing right (angle zero), ready to fire at once,
/// with no projectiles, no pops, level one.
pub open spec fn spec_new_tower(x: int, y: int) -> TowerView {
    TowerView {
        position_x: x,
        position_y: y,
        angle: 0,
        shot_cooldown: 0,
        projectiles: Seq::empty(),
        pop_count: 0,
        level: 1,
    }
}

/// The firing period of a tower at the given level: the base period divided
/// by the level, so higher levels fire faster.
pub open spec fn spec_fire_period(level: int) -> int {
    FIRE_BASE as int / level
}

/// One firing tick: the cooldown drops by the delta; when that takes it below
/// zero the tower appends exactly one projectile — at the tower's position,
/// heading along its facing — and the cooldown recovers by one firing period.
/// At most one projectile is fired per tick, however large the delta.
pub open spec fn spec_update_tower(t: TowerView, delta_time: int) -> TowerView {
    let dropped = floor_i64(t.shot_cooldown - delta_time);
    if dropped < 0 {
        TowerView {
            shot_cooldown: dropped + spec_fire_period(t.level),
            projectiles: t.projectiles.push(
                spec_new_projectile(
                    t.position_x,
                    t.position_y,
                    spec_cos_milli(t.angle),
                    spec_sin_milli(t.angle),
                ),
            ),
            ..t
        }
    } else {
        TowerView { shot_cooldown: dropped, ..t }
    }
}

/// The tower after `count` pops are credited: the pop count grows by `count`
/// (saturating), and when the new count is an exact multiple of
/// [`POPS_PER_LEVEL`] the level rises by exactly one — by one only, even when
/// a large batch jumps the count across several multiples at once.
pub open spec fn spec_increase_pop_count(t: TowerView, count: int) -> TowerView {
    let pops = cap_u64(t.pop_count + count);
    TowerView {
        pop_count: pops,
        level: if pops % (POPS_PER_LEVEL as int) == 0 {
            cap_u32(t.level + 1)
        } else {
            t.level
        },
        ..t
    }
}

/// Tower states that hold between frames: placed inside the play area, a
/// normalized facing, a recovered cooldown, a valid level.
pub open spec fn tower_wf(t: TowerView, c: Config) -> bool {
    &&& 0 <= t.position_x <= c.width
    &&& 0 <= t.position_y <= c.height
    &&& 0 <= t.angle < TAU_MRAD
    &&& t.shot_cooldown <= FIRE_BASE
    &&& 1 <= t.level <= u32::MAX
    &&& 0 <= t.pop_count <= u64::MAX
}

/// Creates a tower at the given position: facing right, cooldown zero, no
/// projectiles, no pops, level one.
pub fn new_tower(position_x: i64, position_y: i64) -> (t: Tower)
    ensures
        t@ == spec_new_tower(position_x as int, position_y as int),
{
    let t = Tower {
        position_x,
        position_y,
        angle: 0,
        shot_cooldown: 0,
        projectiles: Vec::new(),
        pop_count: 0,
        level: 1,
    };
    proof {
        assert(t@.projectiles =~= Seq::<ProjectileView>::empty());
    }
    t
}

/// One firing tick of `delta_time` milliseconds: decrements the cooldown and,
/// when it crosses below zero, fires exactly one projectile along the tower's
/// facing and adds one firing period back.
pub fn update_tower(tower: Tower, delta_time: u32) -> (r: Tower)
    requires
        0 <= tower.angle < TAU_MRAD,
        tower.shot_cooldown <= FIRE_BASE,
        tower.level >= 1,
    ensures
        r@ == spec_update_tower(tower@, delta_time as int),
        r.shot_cooldown <= FIRE_BASE,
{
    let mut tower = tower;
    let ghost pre = tower@;
    tower.shot_cooldown = crate::arith::sat_sub_i64(tower.shot_cooldown, delta_time);
    if tower.shot_cooldown < 0 {
        let heading = crate::trig::heading_of(tower.angle);
        let p = crate::projectile::new_projectile(
            tower.position_x,
            tower.position_y,
            heading.0,
            heading.1,
        );
        tower.projectiles.push(p);
        let period = ((FIRE_BASE) / (tower.level as u64)) as i64;
        tower.shot_cooldown = tower.shot_cooldown + period;
        proof {
            assert(tower@.projectiles =~= spec_update_tower(pre, delta_time as int).projectiles);
        }
    }
    tower
}

/// Credits `count` pops to the tower and applies the level-up rule.
pub fn increase_tower_pop_count(tower: Tower, count: u64) -> (r: Tower)
    ensures
        r@ == spec_increase_pop_count(tower@, count as int),
{
    let mut tower = tower;
    tower.pop_count = crate::arith::sat_add_u64(tower.pop_count, count);
    if tower.pop_count % POPS_PER_LEVEL == 0 {
        tower.level = crate::arith::sat_inc_u32(tower.level);
    }
    tower
}

} // verus!
