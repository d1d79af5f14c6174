//! The world and its per-frame update pipeline.
//!
//! Each frame the driver hands the scene one input snapshot and one time
//! delta; the scene threads the state through a fixed sequence of stages —
//! placement input, spawning, balloon movement, tower firing, collision
//! resolution, projectile cleanup, escape accounting, balloon cleanup — and
//! emits the frame's draw requests as a side channel.

use crate::arith::cap_u64;
use crate::arith::floor_i64;
use crate::balloon::spec_has_escaped;
use crate::balloon::spec_new_balloon;
use crate::balloon::spec_update_balloon;
use crate::balloon::Balloon;
use crate::balloon::BalloonState;
use crate::balloon::BalloonView;
use crate::config::Config;
use crate::config::INITIAL_COINS;
use crate::config::INITIAL_LIVES;
use crate::config::MAX_SIZE;
use crate::config::MAX_STEP;
use crate::config::SPAWN_PERIOD;
use crate::projectile::projectile_in_flight;
use crate::projectile::Projectile;
use crate::projectile::spec_check_collision;
use crate::projectile::spec_update_projectile;
use crate::projectile::ProjectileState;
use crate::projectile::ProjectileView;
use crate::tower::spec_increase_pop_count;
use crate::tower::spec_new_tower;
use crate::tower::spec_update_tower;
use crate::tower::tower_wf;
use crate::tower::Tower;
use crate::tower::TowerView;
use crate::trig::spec_rotate_angle;
use vstd::prelude::*;

verus! {

/// One frame's input snapshot: what the player asked for this frame, plus
/// the pointer position in milliunits.
#[derive(Clone, Copy, PartialEq, Eq, Structural, Debug)]
pub struct Keys {
    /// Begin placing a new tower at the pointer (edge-triggered).
    pub tower_placement: bool,
    /// Abort an in-progress placement (edge-triggered).
    pub cancel_tower_placement: bool,
    /// Confirm the placement (level-triggered: true while held).
    pub place_tower: bool,
    /// Rotate the preview clockwise (level-triggered).
    pub rotate_tower_clockwise: bool,
    /// Rotate the preview counter-clockwise (level-triggered).
    pub rotate_tower_counter_clockwise: bool,
    /// Restart after a game over (edge-triggered).
    pub reset: bool,
    /// Pointer x in milliunits.
    pub pointer_x: i64,
    /// Pointer y in milliunits.
    pub pointer_y: i64,
}

/// The pointer stays inside the play area: the driver clamps it.
pub open spec fn keys_wf(keys: Keys, c: Config) -> bool {
    &&& 0 <= keys.pointer_x <= c.width
    &&& 0 <= keys.pointer_y <= c.height
}

/// The whole world: economy, timers, placement state and the entity
/// collections, together with the immutable configuration.
#[derive(Clone, Debug, PartialEq)]
pub struct GameState {
    pub config: Config,
    pub coins: u64,
    pub lives: i64,
    pub game_over: bool,
    pub spawn_timer: i64,
    pub is_placing_tower: bool,
    pub preview_tower: Option<Tower>,
    pub balloons: Vec<Balloon>,
    pub towers: Vec<Tower>,
}

/// The mathematical value of a [`GameState`]: integers, sequences and views.
pub ghost struct GameView {
    pub config: Config,
    pub coins: int,
    pub lives: int,
    pub game_over: bool,
    pub spawn_timer: int,
    pub is_placing_tower: bool,
    pub preview_tower: Option<TowerView>,
    pub balloons: Seq<BalloonView>,
    pub towers: Seq<TowerView>,
}

impl View for GameState {
    type V = GameView;

    open spec fn view(&self) -> GameView {
        GameView {
            config: self.config,
            coins: self.coins as int,
            lives: self.lives as int,
            game_over: self.game_over,
            spawn_timer: self.spawn_timer as int,
            is_placing_tower: self.is_placing_tower,
            preview_tower: match self.preview_tower {
                Option::Some(t) => Option::Some(t@),
                Option::None => Option::None,
            },
            balloons: self.balloons@.map_values(|b: Balloon| b@),
            towers: self.towers@.map_values(|t: Tower| t@),
        }
    }
}

/// All balloons sit on the lane's center line within `margin` of the play
/// area's horizontal extent.
pub open spec fn balloons_within(bs: Seq<BalloonView>, c: Config, margin: int) -> bool {
    forall|i: int|
        0 <= i < bs.len() ==> {
            &&& -margin <= #[trigger] bs[i].position_x <= c.width + margin
            &&& bs[i].position_y == c.height as int / 2
        }
}

/// Mid-frame soundness of one projectile: bounded position and heading, and
/// a live one is at most one frame's step beyond the play area.
pub open spec fn projectile_ok_mid(p: ProjectileView, c: Config) -> bool {
    &&& p.state is Alive ==> projectile_in_flight(p, c)
    &&& -2 * MAX_STEP <= p.position_x <= c.width + 2 * MAX_STEP
    &&& -2 * MAX_STEP <= p.position_y <= c.height + 2 * MAX_STEP
    &&& -1000 <= p.direction_x <= 1000
    &&& -1000 <= p.direction_y <= 1000
}

/// Between-frames soundness of a tower: well placed, and all its
/// projectiles alive and in flight.
pub open spec fn tower_ready(t: TowerView, c: Config) -> bool {
    &&& tower_wf(t, c)
    &&& forall|i: int|
        0 <= i < t.projectiles.len() ==> {
            &&& (#[trigger] t.projectiles[i]).state is Alive
            &&& projectile_in_flight(t.projectiles[i], c)
        }
}

/// Between-frames soundness of every tower.
pub open spec fn towers_ready(ts: Seq<TowerView>, c: Config) -> bool {
    forall|i: int| 0 <= i < ts.len() ==> tower_ready(#[trigger] ts[i], c)
}

/// Mid-frame soundness of a tower: well placed, projectiles bounded.
pub open spec fn tower_mid(t: TowerView, c: Config) -> bool {
    &&& tower_wf(t, c)
    &&& forall|i: int| 0 <= i < t.projectiles.len() ==> projectile_ok_mid(
        #[trigger] t.projectiles[i],
        c,
    )
}

/// Mid-frame soundness of every tower.
pub open spec fn towers_mid(ts: Seq<TowerView>, c: Config) -> bool {
    forall|i: int| 0 <= i < ts.len() ==> tower_mid(#[trigger] ts[i], c)
}

/// The invariant the world satisfies between frames.
pub open spec fn scene_wf(v: GameView) -> bool {
    &&& v.config.wf()
    &&& 0 <= v.coins <= u64::MAX
    &&& i64::MIN <= v.lives <= i64::MAX
    &&& (v.lives <= 0 ==> v.game_over)
    &&& 0 <= v.spawn_timer <= SPAWN_PERIOD
    &&& v.is_placing_tower == (v.preview_tower is Some)
    &&& (v.preview_tower matches Some(t) ==> tower_wf(t, v.config) && t.projectiles.len() == 0)
    &&& forall|i: int|
        0 <= i < v.balloons.len() ==> crate::balloon::balloon_in_lane(
            #[trigger] v.balloons[i],
            v.config,
        ) && v.balloons[i].state is Alive
    &&& towers_ready(v.towers, v.config)
}

/// The state every session starts from and every reset returns to: the
/// initial economy, no entities, no placement in progress, timers at zero.
pub open spec fn spec_initial_state(c: Config) -> GameView {
    GameView {
        config: c,
        coins: INITIAL_COINS as int,
        lives: INITIAL_LIVES as int,
        game_over: false,
        spawn_timer: 0,
        is_placing_tower: false,
        preview_tower: Option::None,
        balloons: Seq::empty(),
        towers: Seq::empty(),
    }
}

/// A reset returns the world to the initial state, keeping only the
/// configuration (and, in the driver, the loaded assets).
pub open spec fn spec_reset(v: GameView) -> GameView {
    spec_initial_state(v.config)
}

/// Resetting twice in a row is the same as resetting once.
pub proof fn lemma_reset_idempotent(v: GameView)
    ensures
        spec_reset(spec_reset(v)) == spec_reset(v),
{
}

/// Creates a fresh world under the given configuration.
pub fn new_scene(config: Config) -> (r: GameState)
    requires
        config.wf(),
    ensures
        r@ == spec_initial_state(config),
        scene_wf(r@),
{
    let r = GameState {
        config,
        coins: INITIAL_COINS,
        lives: INITIAL_LIVES,
        game_over: false,
        spawn_timer: 0,
        is_placing_tower: false,
        preview_tower: Option::None,
        balloons: Vec::new(),
        towers: Vec::new(),
    };
    proof {
        assert(r@.balloons =~= Seq::<BalloonView>::empty());
        assert(r@.towers =~= Seq::<TowerView>::empty());
    }
    r
}

/// Resets the world to the initial constants, clearing all balloons and
/// towers and any placement in progress; the configuration is kept.
pub fn reset(state: GameState) -> (r: GameState)
    ensures
        r@ == spec_reset(state@),
        state@.config.wf() ==> scene_wf(r@),
{
    let r = GameState {
        config: state.config,
        coins: INITIAL_COINS,
        lives: INITIAL_LIVES,
        game_over: false,
        spawn_timer: 0,
        is_placing_tower: false,
        preview_tower: Option::None,
        balloons: Vec::new(),
        towers: Vec::new(),
    };
    proof {
        assert(r@.balloons =~= Seq::<BalloonView>::empty());
        assert(r@.towers =~= Seq::<TowerView>::empty());
    }
    r
}

/// The spawn loop: each time the accumulated timer exceeds the spawn period,
/// one period is paid back and one balloon appears at the lane entry — a
/// large delta spawns several balloons, one per period crossed.
pub open spec fn spec_spawn_loop(timer: int, bs: Seq<BalloonView>, c: Config) -> (int, Seq<
    BalloonView,
>)
    decreases timer,
{
    if timer > SPAWN_PERIOD {
        spec_spawn_loop(timer - SPAWN_PERIOD, bs.push(spec_new_balloon(c)), c)
    } else {
        (timer, bs)
    }
}

/// The spawn stage: the delta accumulates into the spawn timer, which then
/// pays out one balloon per full period crossed.
pub open spec fn spec_handle_spawn_timer(v: GameView, delta_time: int) -> GameView {
    let r = spec_spawn_loop(v.spawn_timer + delta_time, v.balloons, v.config);
    GameView { spawn_timer: r.0, balloons: r.1, ..v }
}

/// The spawn loop never moves existing balloons and leaves the timer in
/// `[0, SPAWN_PERIOD]`; every balloon it appends is the fresh spawn.
pub proof fn lemma_spawn_loop_sound(timer: int, bs: Seq<BalloonView>, c: Config)
    requires
        timer >= 0,
    ensures
        ({
            let r = spec_spawn_loop(timer, bs, c);
            &&& 0 <= r.0 <= SPAWN_PERIOD
            &&& r.1.len() >= bs.len()
            &&& forall|i: int| 0 <= i < bs.len() ==> r.1[i] == bs[i]
            &&& forall|i: int| bs.len() <= i < r.1.len() ==> r.1[i] == spec_new_balloon(c)
        }),
    decreases timer,
{
    if timer > SPAWN_PERIOD {
        let bs2 = bs.push(spec_new_balloon(c));
        lemma_spawn_loop_sound(timer - SPAWN_PERIOD, bs2, c);
        assert(forall|i: int| 0 <= i < bs.len() ==> bs2[i] == bs[i]);
        assert(bs2[bs.len() as int] == spec_new_balloon(c));
    }
}

/// Runs the spawn stage: accumulates the delta and spawns one balloon per
/// period crossed, so that long stalls catch up instead of starving spawns.
pub fn handle_spawn_timer(state: GameState, delta_time: u32) -> (r: GameState)
    requires
        state@.config.wf(),
        0 <= state@.spawn_timer <= SPAWN_PERIOD,
    ensures
        r@ == spec_handle_spawn_timer(state@, delta_time as int),
        0 <= r@.spawn_timer <= SPAWN_PERIOD,
        r@.balloons.len() >= state@.balloons.len(),
        forall|i: int| 0 <= i < state@.balloons.len() ==> r@.balloons[i] == state@.balloons[i],
        forall|i: int|
            state@.balloons.len() <= i < r@.balloons.len() ==> r@.balloons[i] == spec_new_balloon(
                state@.config,
            ),
{
    let ghost v0 = state@;
    let mut state = state;
    state.spawn_timer = state.spawn_timer + (delta_time as i64);
    let ghost timer1 = state@.spawn_timer;
    proof {
        lemma_spawn_loop_sound(timer1, v0.balloons, v0.config);
    }
    while state.spawn_timer > SPAWN_PERIOD
        invariant
            state@.config.wf(),
            0 <= state@.spawn_timer,
            spec_spawn_loop(state@.spawn_timer, state@.balloons, state@.config)
                == spec_spawn_loop(timer1, v0.balloons, v0.config),
            state@ == (GameView {
                spawn_timer: state@.spawn_timer,
                balloons: state@.balloons,
                ..v0
            }),
        decreases state@.spawn_timer,
    {
        state.spawn_timer = state.spawn_timer - SPAWN_PERIOD;
        let ghost before = state@.balloons;
        let b = crate::balloon::new_balloon(&state.config);
        state.balloons.push(b);
        proof {
            assert(state@.balloons =~= before.push(spec_new_balloon(state@.config)));
        }
    }
    proof {
        lemma_spawn_loop_sound(timer1, v0.balloons, v0.config);
        assert(spec_spawn_loop(state@.spawn_timer, state@.balloons, state@.config) == (
        state@.spawn_timer,
        state@.balloons,
        ));
    }
    state
}

/// The movement stage: every balloon advances along its direction for the
/// frame's delta; lifecycle states are untouched.
pub open spec fn spec_update_balloons(v: GameView, delta_time: int) -> GameView {
    GameView {
        balloons: Seq::new(
            v.balloons.len(),
            |i: int| spec_update_balloon(v.balloons[i], v.config, delta_time),
        ),
        ..v
    }
}

/// Advances every balloon by the frame's delta.
pub fn update_balloons(state: GameState, delta_time: u32) -> (r: GameState)
    requires
        state@.config.wf(),
        balloons_within(state@.balloons, state@.config, MAX_SIZE as int),
    ensures
        r@ == spec_update_balloons(state@, delta_time as int),
        balloons_within(r@.balloons, r@.config, MAX_SIZE + MAX_STEP as int),
{
    let ghost v0 = state@;
    let GameState {
        config,
        coins,
        lives,
        game_over,
        spawn_timer,
        is_placing_tower,
        preview_tower,
        balloons,
        towers,
    } = state;
    let mut moved: Vec<Balloon> = Vec::new();
    let mut i: usize = 0;
    while i < balloons.len()
        invariant
            config.wf(),
            config == v0.config,
            balloons@.map_values(|b: Balloon| b@) == v0.balloons,
            balloons_within(v0.balloons, config, MAX_SIZE as int),
            i <= balloons.len(),
            moved.len() == i,
            forall|j: int|
                0 <= j < i ==> (#[trigger] moved@[j])@ == spec_update_balloon(
                    v0.balloons[j],
                    config,
                    delta_time as int,
                ),
            balloons_within(
                moved@.map_values(|b: Balloon| b@),
                config,
                MAX_SIZE + MAX_STEP as int,
            ),
        decreases balloons.len() - i,
    {
        let b = balloons[i];
        proof {
            assert(v0.balloons[i as int] == b@);
            assert(-(MAX_SIZE as int) <= v0.balloons[i as int].position_x <= config.width
                + MAX_SIZE);
            crate::arith::lemma_mul_le(
                config.balloon_speed as int,
                delta_time as int,
                crate::config::MAX_SPEED as int,
                u32::MAX as int,
            );
        }
        let nb = crate::balloon::update_balloon(b, &config, delta_time);
        moved.push(nb);
        i = i + 1;
    }
    let r = GameState {
        config,
        coins,
        lives,
        game_over,
        spawn_timer,
        is_placing_tower,
        preview_tower,
        balloons: moved,
        towers,
    };
    proof {
        assert(r@.balloons =~= spec_update_balloons(v0, delta_time as int).balloons);
        assert(r@.towers =~= v0.towers);
        assert(r@ == spec_update_balloons(v0, delta_time as int));
    }
    r
}

/// The placement stage's input handling: a cancel aborts any placement in
/// progress, then a start begins a new one with a fresh preview tower at the
/// pointer.
pub open spec fn spec_placement_inputs(v: GameView, keys: Keys) -> GameView {
    let v1 = if keys.cancel_tower_placement {
        GameView { is_placing_tower: false, preview_tower: Option::None, ..v }
    } else {
        v
    };
    if keys.tower_placement {
        GameView {
            is_placing_tower: true,
            preview_tower: Option::Some(
                spec_new_tower(keys.pointer_x as int, keys.pointer_y as int),
            ),
            ..v1
        }
    } else {
        v1
    }
}

/// The preview tower shown this frame, if a placement is in progress after
/// the input handling: the previous preview rotated by the frame's rotation
/// input and snapped to the pointer.
pub open spec fn spec_placement_preview(v: GameView, keys: Keys, delta_time: int) -> Option<
    TowerView,
> {
    let v2 = spec_placement_inputs(v, keys);
    if v2.is_placing_tower {
        let t0 = v2.preview_tower->0;
        let t1 = if keys.rotate_tower_clockwise {
            TowerView { angle: spec_rotate_angle(t0.angle, delta_time, true), ..t0 }
        } else if keys.rotate_tower_counter_clockwise {
            TowerView { angle: spec_rotate_angle(t0.angle, delta_time, false), ..t0 }
        } else {
            t0
        };
        Option::Some(
            TowerView { position_x: keys.pointer_x as int, position_y: keys.pointer_y as int, ..t1 },
        )
    } else {
        Option::None
    }
}

/// The placement stage: after the input handling, an in-progress preview is
/// rotated and snapped to the pointer; a held confirm with enough coins moves
/// it into the tower collection and deducts the tower cost, while a confirm
/// without enough coins changes nothing and the placement stays in progress.
pub open spec fn spec_handle_tower_placement(v: GameView, keys: Keys, delta_time: int) -> GameView {
    let v2 = spec_placement_inputs(v, keys);
    match spec_placement_preview(v, keys, delta_time) {
        Option::Some(t2) => {
            if keys.place_tower && v2.coins >= v.config.tower_cost {
                GameView {
                    towers: v2.towers.push(t2),
                    coins: v2.coins - v.config.tower_cost,
                    is_placing_tower: false,
                    preview_tower: Option::None,
                    ..v2
                }
            } else {
                GameView { preview_tower: Option::Some(t2), ..v2 }
            }
        },
        Option::None => v2,
    }
}

/// The placement stage's draws: the preview tower, grayed out when the
/// player cannot afford it.
pub open spec fn spec_placement_draws(v: GameView, keys: Keys, delta_time: int) -> Seq<
    crate::draw::DrawView,
> {
    let v2 = spec_placement_inputs(v, keys);
    match spec_placement_preview(v, keys, delta_time) {
        Option::Some(t2) => crate::draw::spec_draw_tower(t2, v2.coins < v.config.tower_cost),
        Option::None => Seq::empty(),
    }
}

/// Runs the placement stage and emits the preview draw, if any.
pub fn handle_tower_placement(
    state: GameState,
    keys: Keys,
    delta_time: u32,
    out: &mut Vec<crate::draw::DrawRequest>,
) -> (r: GameState)
    requires
        scene_wf(state@),
        keys_wf(keys, state@.config),
    ensures
        r@ == spec_handle_tower_placement(state@, keys, delta_time as int),
        crate::draw::spec_draws(final(out)@) == crate::draw::spec_draws(old(out)@)
            + spec_placement_draws(state@, keys, delta_time as int),
        r@.config == state@.config,
        r@.is_placing_tower == (r@.preview_tower is Some),
        (r@.preview_tower matches Some(t) ==> tower_wf(t, r@.config) && t.projectiles.len() == 0),
        towers_ready(r@.towers, r@.config),
        r@.balloons == state@.balloons,
        r@.lives == state@.lives,
        r@.game_over == state@.game_over,
        r@.spawn_timer == state@.spawn_timer,
        0 <= r@.coins <= state@.coins,
{
    let ghost v0 = state@;
    let GameState {
        config,
        mut coins,
        lives,
        game_over,
        spawn_timer,
        mut is_placing_tower,
        mut preview_tower,
        balloons,
        mut towers,
    } = state;
    if keys.cancel_tower_placement {
        is_placing_tower = false;
        preview_tower = Option::None;
    }
    if keys.tower_placement {
        is_placing_tower = true;
        preview_tower = Option::Some(crate::tower::new_tower(keys.pointer_x, keys.pointer_y));
    }
    let ghost v2 = spec_placement_inputs(v0, keys);
    proof {
        assert(is_placing_tower == v2.is_placing_tower);
        assert(v2.is_placing_tower ==> preview_tower is Some && preview_tower->0@
            == v2.preview_tower->0);
        assert(v2.preview_tower matches Some(t) ==> tower_wf(t, config) && t.projectiles.len()
            == 0);
    }
    if is_placing_tower {
        let mut t = match preview_tower {
            Option::Some(t) => t,
            Option::None => vstd::pervasive::unreached(),
        };
        if keys.rotate_tower_clockwise {
            t.angle = crate::trig::rotate_angle(t.angle, delta_time, true);
        } else if keys.rotate_tower_counter_clockwise {
            t.angle = crate::trig::rotate_angle(t.angle, delta_time, false);
        }
        t.position_x = keys.pointer_x;
        t.position_y = keys.pointer_y;
        proof {
            assert(t@ == spec_placement_preview(v0, keys, delta_time as int)->0);
        }
        crate::draw::draw_tower(&t, coins < config.tower_cost, out);
        if keys.place_tower && coins >= config.tower_cost {
            let ghost before = towers@.map_values(|x: Tower| x@);
            towers.push(t);
            coins = coins - config.tower_cost;
            is_placing_tower = false;
            preview_tower = Option::None;
            proof {
                assert(towers@.map_values(|x: Tower| x@) =~= before.push(
                    spec_placement_preview(v0, keys, delta_time as int)->0,
                ));
            }
        } else {
            preview_tower = Option::Some(t);
        }
    }
    let r = GameState {
        config,
        coins,
        lives,
        game_over,
        spawn_timer,
        is_placing_tower,
        preview_tower,
        balloons,
        towers,
    };
    proof {
        assert(r@ == spec_handle_tower_placement(v0, keys, delta_time as int));
        assert forall|i: int| 0 <= i < r@.towers.len() implies tower_ready(
            #[trigger] r@.towers[i],
            config,
        ) by {
            if i < v0.towers.len() {
                assert(tower_ready(v0.towers[i], config));
            } else {
                assert(r@.towers[i].projectiles.len() == 0);
            }
        }
    }
    r
}

/// One tower's whole frame: the firing tick, then every projectile it owns
/// (a just-fired one included) advances by the frame's delta.
pub open spec fn spec_tower_frame(t: TowerView, c: Config, delta_time: int) -> TowerView {
    let t1 = spec_update_tower(t, delta_time);
    TowerView {
        projectiles: Seq::new(
            t1.projectiles.len(),
            |i: int| spec_update_projectile(t1.projectiles[i], c, delta_time),
        ),
        ..t1
    }
}

/// The firing stage: every tower ticks, then all its projectiles advance.
pub open spec fn spec_update_towers(v: GameView, delta_time: int) -> GameView {
    GameView {
        towers: Seq::new(
            v.towers.len(),
            |i: int| spec_tower_frame(v.towers[i], v.config, delta_time),
        ),
        ..v
    }
}

/// Runs the firing stage: ticks every tower and advances every projectile.
pub fn update_towers(state: GameState, delta_time: u32) -> (r: GameState)
    requires
        state@.config.wf(),
        towers_ready(state@.towers, state@.config),
    ensures
        r@ == spec_update_towers(state@, delta_time as int),
        towers_mid(r@.towers, r@.config),
{
    let ghost v0 = state@;
    let GameState {
        config,
        coins,
        lives,
        game_over,
        spawn_timer,
        is_placing_tower,
        preview_tower,
        balloons,
        towers,
    } = state;
    let mut ts = towers;
    let mut done: Vec<Tower> = Vec::new();
    proof {
        assert(ts@.map_values(|x: Tower| x@) == v0.towers);
    }
    while ts.len() > 0
        invariant
            config.wf(),
            done.len() + ts.len() == v0.towers.len(),
            forall|j: int|
                0 <= j < ts@.len() ==> (#[trigger] ts@[j])@ == v0.towers[done@.len() + j],
            forall|j: int|
                0 <= j < done@.len() ==> (#[trigger] done@[j])@ == spec_tower_frame(
                    v0.towers[j],
                    config,
                    delta_time as int,
                ),
            forall|j: int| 0 <= j < done@.len() ==> tower_mid((#[trigger] done@[j])@, config),
            towers_ready(v0.towers, config),
        decreases ts.len(),
    {
        let ghost k = done@.len() as int;
        let t = ts.remove(0);
        proof {
            assert(t@ == v0.towers[k]);
            assert(tower_ready(v0.towers[k], config));
        }
        let t1 = crate::tower::update_tower(t, delta_time);
        let ghost t1v = t1@;
        proof {
            crate::trig::lemma_cos_milli_bounds(t@.angle);
            crate::trig::lemma_sin_milli_bounds(t@.angle);
            assert forall|i: int| 0 <= i < t1v.projectiles.len() implies projectile_in_flight(
                #[trigger] t1v.projectiles[i],
                config,
            ) by {
                if i < t@.projectiles.len() {
                    assert(t@.projectiles[i].state is Alive && projectile_in_flight(
                        t@.projectiles[i],
                        config,
                    ));
                }
            }
        }
        let Tower {
            position_x,
            position_y,
            angle,
            shot_cooldown,
            projectiles,
            pop_count,
            level,
        } = t1;
        let mut advanced: Vec<Projectile> = Vec::new();
        let mut i: usize = 0;
        while i < projectiles.len()
            invariant
                config.wf(),
                projectiles@.map_values(|p: Projectile| p@) == t1v.projectiles,
                forall|j: int|
                    0 <= j < t1v.projectiles.len() ==> projectile_in_flight(
                        #[trigger] t1v.projectiles[j],
                        config,
                    ),
                i <= projectiles.len(),
                advanced.len() == i,
                forall|j: int|
                    0 <= j < i ==> (#[trigger] advanced@[j])@ == spec_update_projectile(
                        t1v.projectiles[j],
                        config,
                        delta_time as int,
                    ),
                forall|j: int| 0 <= j < i ==> projectile_ok_mid((#[trigger] advanced@[j])@, config),
            decreases projectiles.len() - i,
        {
            let p = projectiles[i];
            proof {
                assert(t1v.projectiles[i as int] == p@);
            }
            let np = crate::projectile::update_projectile(p, &config, delta_time);
            advanced.push(np);
            i = i + 1;
        }
        let nt = Tower {
            position_x,
            position_y,
            angle,
            shot_cooldown,
            projectiles: advanced,
            pop_count,
            level,
        };
        proof {
            assert(nt@.projectiles =~= spec_tower_frame(v0.towers[k], config, delta_time as int)
                .projectiles);
            assert(nt@ == spec_tower_frame(v0.towers[k], config, delta_time as int));
            assert(tower_mid(nt@, config));
        }
        done.push(nt);
    }
    let r = GameState {
        config,
        coins,
        lives,
        game_over,
        spawn_timer,
        is_placing_tower,
        preview_tower,
        balloons,
        towers: done,
    };
    proof {
        assert(r@.towers =~= spec_update_towers(v0, delta_time as int).towers);
        assert(r@ == spec_update_towers(v0, delta_time as int));
    }
    r
}

/// Whether this projectile–balloon pair collides this frame: both must
/// still be alive and their axis-aligned distance within collision range.
pub open spec fn spec_pop_hits(p: ProjectileView, b: BalloonView, c: Config) -> bool {
    &&& p.state is Alive
    &&& b.state is Alive
    &&& spec_check_collision(p, b, c)
}

/// One projectile sweeping the balloons from index `j` on: at the first
/// live colliding balloon the projectile is marked `Hit`, the balloon
/// `Popped`, and one coin is credited; the projectile, no longer alive,
/// registers no further hit, and popped balloons are skipped by later
/// projectiles.
pub open spec fn spec_pop_balloons(
    p: ProjectileView,
    bs: Seq<BalloonView>,
    coins: int,
    c: Config,
    j: int,
) -> (ProjectileView, Seq<BalloonView>, int)
    decreases bs.len() - j,
{
    if j < 0 || j >= bs.len() {
        (p, bs, coins)
    } else if spec_pop_hits(p, bs[j], c) {
        spec_pop_balloons(
            ProjectileView { state: ProjectileState::Hit, ..p },
            bs.update(j, BalloonView { state: BalloonState::Popped, ..bs[j] }),
            cap_u64(coins + 1),
            c,
            j + 1,
        )
    } else {
        spec_pop_balloons(p, bs, coins, c, j + 1)
    }
}

/// One tower's projectiles sweeping the balloons in order, threading the
/// balloon states and the coin total through.
pub open spec fn spec_pop_projectiles(
    ps: Seq<ProjectileView>,
    bs: Seq<BalloonView>,
    coins: int,
    c: Config,
) -> (Seq<ProjectileView>, Seq<BalloonView>, int)
    decreases ps.len(),
{
    if ps.len() == 0 {
        (ps, bs, coins)
    } else {
        let head = spec_pop_balloons(ps[0], bs, coins, c, 0);
        let rest = spec_pop_projectiles(ps.skip(1), head.1, head.2, c);
        (seq![head.0] + rest.0, rest.1, rest.2)
    }
}

/// Every tower's projectiles sweeping the balloons, tower by tower in order.
pub open spec fn spec_pop_towers(ts: Seq<TowerView>, bs: Seq<BalloonView>, coins: int, c: Config)
    -> (Seq<TowerView>, Seq<BalloonView>, int)
    decreases ts.len(),
{
    if ts.len() == 0 {
        (ts, bs, coins)
    } else {
        let head = spec_pop_projectiles(ts[0].projectiles, bs, coins, c);
        let rest = spec_pop_towers(ts.skip(1), head.1, head.2, c);
        (seq![TowerView { projectiles: head.0, ..ts[0] }] + rest.0, rest.1, rest.2)
    }
}

/// The collision stage: every live projectile of every tower is tested
/// against every live balloon in iteration order; each hit pops one balloon,
/// retires one projectile and credits one coin.
pub open spec fn spec_handle_popping(v: GameView) -> GameView {
    let r = spec_pop_towers(v.towers, v.balloons, v.coins, v.config);
    GameView { towers: r.0, balloons: r.1, coins: r.2, ..v }
}

/// Runs the collision stage.
pub fn handle_popping(state: GameState) -> (r: GameState)
    requires
        state@.config.wf(),
        towers_mid(state@.towers, state@.config),
        balloons_within(state@.balloons, state@.config, MAX_SIZE + MAX_STEP as int),
    ensures
        r@ == spec_handle_popping(state@),
        towers_mid(r@.towers, r@.config),
        balloons_within(r@.balloons, r@.config, MAX_SIZE + MAX_STEP as int),
{
    let ghost v0 = state@;
    let GameState {
        config,
        mut coins,
        lives,
        game_over,
        spawn_timer,
        is_placing_tower,
        preview_tower,
        mut balloons,
        towers,
    } = state;
    let ghost goal = spec_pop_towers(v0.towers, v0.balloons, v0.coins as int, config);
    let mut ts = towers;
    let mut done: Vec<Tower> = Vec::new();
    proof {
        assert(ts@.map_values(|x: Tower| x@) == v0.towers);
        assert(balloons@.map_values(|b: Balloon| b@) == v0.balloons);
        assert(done@.map_values(|x: Tower| x@) + goal.0 =~= goal.0);
        assert forall|k: int| 0 <= k < ts@.len() implies tower_mid((#[trigger] ts@[k])@, config) by {
            assert(v0.towers[k] == (ts@[k])@);
        }
    }
    while ts.len() > 0
        invariant
            config.wf(),
            goal == (
                done@.map_values(|x: Tower| x@) + spec_pop_towers(
                    ts@.map_values(|x: Tower| x@),
                    balloons@.map_values(|b: Balloon| b@),
                    coins as int,
                    config,
                ).0,
                spec_pop_towers(
                    ts@.map_values(|x: Tower| x@),
                    balloons@.map_values(|b: Balloon| b@),
                    coins as int,
                    config,
                ).1,
                spec_pop_towers(
                    ts@.map_values(|x: Tower| x@),
                    balloons@.map_values(|b: Balloon| b@),
                    coins as int,
                    config,
                ).2,
            ),
            forall|k: int| 0 <= k < ts@.len() ==> tower_mid((#[trigger] ts@[k])@, config),
            forall|k: int| 0 <= k < done@.len() ==> tower_mid((#[trigger] done@[k])@, config),
            balloons_within(
                balloons@.map_values(|b: Balloon| b@),
                config,
                MAX_SIZE + MAX_STEP as int,
            ),
        decreases ts.len(),
    {
        let ghost ts_pre = ts@.map_values(|x: Tower| x@);
        let ghost bs_pre = balloons@.map_values(|b: Balloon| b@);
        let ghost coins_pre = coins as int;
        let t = ts.remove(0);
        proof {
            assert(t@ == ts_pre[0]);
            assert(ts@.map_values(|x: Tower| x@) =~= ts_pre.skip(1));
            assert(tower_mid(t@, config));
        }
        let Tower {
            position_x,
            position_y,
            angle,
            shot_cooldown,
            projectiles,
            pop_count,
            level,
        } = t;
        let ghost phead = spec_pop_projectiles(t@.projectiles, bs_pre, coins_pre, config);
        let mut ps = projectiles;
        let mut pdone: Vec<Projectile> = Vec::new();
        proof {
            assert(ps@.map_values(|p: Projectile| p@) == t@.projectiles);
            assert(pdone@.map_values(|p: Projectile| p@) + phead.0 =~= phead.0);
            assert forall|k: int| 0 <= k < ps@.len() implies projectile_ok_mid(
                (#[trigger] ps@[k])@,
                config,
            ) by {
                assert(t@.projectiles[k] == (ps@[k])@);
            }
        }
        while ps.len() > 0
            invariant
                config.wf(),
                phead == (
                    pdone@.map_values(|p: Projectile| p@) + spec_pop_projectiles(
                        ps@.map_values(|p: Projectile| p@),
                        balloons@.map_values(|b: Balloon| b@),
                        coins as int,
                        config,
                    ).0,
                    spec_pop_projectiles(
                        ps@.map_values(|p: Projectile| p@),
                        balloons@.map_values(|b: Balloon| b@),
                        coins as int,
                        config,
                    ).1,
                    spec_pop_projectiles(
                        ps@.map_values(|p: Projectile| p@),
                        balloons@.map_values(|b: Balloon| b@),
                        coins as int,
                        config,
                    ).2,
                ),
                forall|k: int|
                    0 <= k < ps@.len() ==> projectile_ok_mid((#[trigger] ps@[k])@, config),
                forall|k: int|
                    0 <= k < pdone@.len() ==> projectile_ok_mid((#[trigger] pdone@[k])@, config),
                balloons_within(
                    balloons@.map_values(|b: Balloon| b@),
                    config,
                    MAX_SIZE + MAX_STEP as int,
                ),
            decreases ps.len(),
        {
            let ghost ps_pre = ps@.map_values(|p: Projectile| p@);
            let mut p = ps.remove(0);
            proof {
                assert(p@ == ps_pre[0]);
                assert(ps@.map_values(|x: Projectile| x@) =~= ps_pre.skip(1));
            }
            let ghost bgoal = spec_pop_balloons(
                p@,
                balloons@.map_values(|b: Balloon| b@),
                coins as int,
                config,
                0,
            );
            let mut j: usize = 0;
            while j < balloons.len()
                invariant
                    config.wf(),
                    j <= balloons.len(),
                    bgoal == spec_pop_balloons(
                        p@,
                        balloons@.map_values(|b: Balloon| b@),
                        coins as int,
                        config,
                        j as int,
                    ),
                    projectile_ok_mid(p@, config),
                    balloons_within(
                        balloons@.map_values(|b: Balloon| b@),
                        config,
                        MAX_SIZE + MAX_STEP as int,
                    ),
                decreases balloons.len() - j,
            {
                let ghost bs_j = balloons@.map_values(|b: Balloon| b@);
                let b = balloons[j];
                proof {
                    assert(bs_j[j as int] == b@);
                }
                let b_alive = match b.state {
                    BalloonState::Alive => true,
                    _ => false,
                };
                if crate::projectile::is_projectile_alive(&p) && b_alive {
                    if crate::projectile::check_collision(p, b, &config) {
                        p = crate::projectile::hit_projectile(p);
                        balloons.set(j, Balloon { state: BalloonState::Popped, ..b });
                        coins = crate::arith::sat_add_u64(coins, 1);
                        proof {
                            assert(balloons@.map_values(|x: Balloon| x@) =~= bs_j.update(
                                j as int,
                                BalloonView { state: BalloonState::Popped, ..bs_j[j as int] },
                            ));
                        }
                    }
                }
                j = j + 1;
            }
            let ghost pre_pdone = pdone@.map_values(|x: Projectile| x@);
            pdone.push(p);
            proof {
                assert(spec_pop_balloons(
                    p@,
                    balloons@.map_values(|b: Balloon| b@),
                    coins as int,
                    config,
                    balloons@.len() as int,
                ) == (p@, balloons@.map_values(|b: Balloon| b@), coins as int));
                assert(pdone@.map_values(|x: Projectile| x@) =~= pre_pdone.push(p@));
                let cur = spec_pop_projectiles(
                    ps@.map_values(|x: Projectile| x@),
                    balloons@.map_values(|b: Balloon| b@),
                    coins as int,
                    config,
                );
                assert(pre_pdone + (seq![bgoal.0] + cur.0) =~= (pre_pdone.push(bgoal.0)) + cur.0);
            }
        }
        let nt = Tower {
            position_x,
            position_y,
            angle,
            shot_cooldown,
            projectiles: pdone,
            pop_count,
            level,
        };
        let ghost pre_done = done@.map_values(|x: Tower| x@);
        done.push(nt);
        proof {
            assert(spec_pop_projectiles(
                Seq::<ProjectileView>::empty(),
                balloons@.map_values(|b: Balloon| b@),
                coins as int,
                config,
            ) == (
                Seq::<ProjectileView>::empty(),
                balloons@.map_values(|b: Balloon| b@),
                coins as int,
            ));
            assert(ps@.map_values(|x: Projectile| x@) =~= Seq::<ProjectileView>::empty());
            assert(pdone@.map_values(|x: Projectile| x@) + Seq::<ProjectileView>::empty()
                =~= pdone@.map_values(|x: Projectile| x@));
            assert(nt@.projectiles == phead.0);
            assert(nt@ == (TowerView { projectiles: phead.0, ..ts_pre[0] }));
            assert(done@.map_values(|x: Tower| x@) =~= pre_done.push(nt@));
            let cur = spec_pop_towers(
                ts@.map_values(|x: Tower| x@),
                balloons@.map_values(|b: Balloon| b@),
                coins as int,
                config,
            );
            assert(pre_done + (seq![nt@] + cur.0) =~= (pre_done.push(nt@)) + cur.0);
            assert(tower_mid(nt@, config));
        }
    }
    let r = GameState {
        config,
        coins,
        lives,
        game_over,
        spawn_timer,
        is_placing_tower,
        preview_tower,
        balloons,
        towers: done,
    };
    proof {
        assert(spec_pop_towers(
            Seq::<TowerView>::empty(),
            balloons@.map_values(|b: Balloon| b@),
            coins as int,
            config,
        ) == (Seq::<TowerView>::empty(), balloons@.map_values(|b: Balloon| b@), coins as int));
        assert(ts@.map_values(|x: Tower| x@) =~= Seq::<TowerView>::empty());
        assert(done@.map_values(|x: Tower| x@) + Seq::<TowerView>::empty() =~= done@.map_values(
            |x: Tower| x@,
        ));
        assert(r@.towers == goal.0);
        assert(r@ == spec_handle_popping(v0));
    }
    r
}

/// Filtering a sequence extended by one element keeps the element exactly
/// when it satisfies the predicate.
proof fn lemma_filter_push<A>(s: Seq<A>, e: A, pred: spec_fn(A) -> bool)
    ensures
        (s.push(e)).filter(pred) == if pred(e) {
            s.filter(pred).push(e)
        } else {
            s.filter(pred)
        },
{
    reveal(Seq::filter);
    assert(s.push(e).drop_last() =~= s);
    assert(s.push(e).last() == e);
}

/// One tower's projectile cleanup: the `Hit` projectiles leave and are
/// counted as pops, the `Dead` ones leave uncounted, the live ones stay in
/// order; when at least one pop was counted the tower's pop count and
/// level-up rule apply.
pub open spec fn spec_clean_tower(t: TowerView) -> TowerView {
    let hits = t.projectiles.filter(|p: ProjectileView| p.state is Hit).len();
    let kept = t.projectiles.filter(|p: ProjectileView| p.state is Alive);
    let t2 = if hits > 0 {
        spec_increase_pop_count(t, hits as int)
    } else {
        t
    };
    TowerView { projectiles: kept, ..t2 }
}

/// The projectile-cleanup stage, tower by tower.
pub open spec fn spec_clean_projectiles(v: GameView) -> GameView {
    GameView { towers: Seq::new(v.towers.len(), |i: int| spec_clean_tower(v.towers[i])), ..v }
}

/// Runs the projectile-cleanup stage: removes each tower's `Hit`
/// projectiles, credits their count as pops, then removes the `Dead` ones.
pub fn clean_projectiles(state: GameState) -> (r: GameState)
    requires
        state@.config.wf(),
        towers_mid(state@.towers, state@.config),
    ensures
        r@ == spec_clean_projectiles(state@),
        towers_ready(r@.towers, r@.config),
        r@.balloons == state@.balloons,
{
    let ghost v0 = state@;
    let GameState {
        config,
        coins,
        lives,
        game_over,
        spawn_timer,
        is_placing_tower,
        preview_tower,
        balloons,
        towers,
    } = state;
    let ghost alive_pred = |p: ProjectileView| p.state is Alive;
    let ghost hit_pred = |p: ProjectileView| p.state is Hit;
    let mut ts = towers;
    let mut done: Vec<Tower> = Vec::new();
    proof {
        assert(ts@.map_values(|x: Tower| x@) == v0.towers);
        assert forall|k: int| 0 <= k < ts@.len() implies tower_mid((#[trigger] ts@[k])@, config) by {
            assert(v0.towers[k] == (ts@[k])@);
        }
    }
    while ts.len() > 0
        invariant
            config.wf(),
            done.len() + ts.len() == v0.towers.len(),
            forall|j: int|
                0 <= j < ts@.len() ==> (#[trigger] ts@[j])@ == v0.towers[done@.len() + j],
            forall|j: int|
                0 <= j < done@.len() ==> (#[trigger] done@[j])@ == spec_clean_tower(v0.towers[j]),
            forall|j: int| 0 <= j < done@.len() ==> tower_ready((#[trigger] done@[j])@, config),
            forall|k: int| 0 <= k < ts@.len() ==> tower_mid((#[trigger] ts@[k])@, config),
        decreases ts.len(),
    {
        let ghost k = done@.len() as int;
        let t = ts.remove(0);
        proof {
            assert(t@ == v0.towers[k]);
            assert(tower_mid(t@, config));
        }
        let Tower {
            position_x,
            position_y,
            angle,
            shot_cooldown,
            projectiles,
            pop_count,
            level,
        } = t;
        let ghost pv = t@.projectiles;
        let mut kept: Vec<Projectile> = Vec::new();
        let mut hits: u64 = 0;
        let mut i: usize = 0;
        proof {
            reveal(Seq::filter);
            assert(pv.take(0) =~= Seq::<ProjectileView>::empty());
            assert(kept@.map_values(|p: Projectile| p@) =~= Seq::<ProjectileView>::empty());
        }
        while i < projectiles.len()
            invariant
                config.wf(),
                i <= projectiles.len(),
                projectiles@.map_values(|p: Projectile| p@) == pv,
                forall|j: int| 0 <= j < pv.len() ==> projectile_ok_mid(#[trigger] pv[j], config),
                hits == pv.take(i as int).filter(|p: ProjectileView| p.state is Hit).len(),
                hits <= i,
                kept@.map_values(|p: Projectile| p@) == pv.take(i as int).filter(
                    |p: ProjectileView| p.state is Alive,
                ),
                forall|j: int|
                    0 <= j < kept@.len() ==> (#[trigger] kept@[j])@.state is Alive
                        && projectile_in_flight((kept@[j])@, config),
            decreases projectiles.len() - i,
        {
            let p = projectiles[i];
            proof {
                assert(pv[i as int] == p@);
                assert(pv.take(i as int + 1) =~= pv.take(i as int).push(pv[i as int]));
                lemma_filter_push(
                    pv.take(i as int),
                    pv[i as int],
                    |x: ProjectileView| x.state is Hit,
                );
                lemma_filter_push(
                    pv.take(i as int),
                    pv[i as int],
                    |x: ProjectileView| x.state is Alive,
                );
            }
            if crate::projectile::is_projectile_hit(&p) {
                hits = hits + 1;
            }
            if crate::projectile::is_projectile_alive(&p) {
                let ghost pre_kept = kept@.map_values(|x: Projectile| x@);
                kept.push(p);
                proof {
                    assert(kept@.map_values(|x: Projectile| x@) =~= pre_kept.push(p@));
                }
            }
            i = i + 1;
        }
        proof {
            assert(pv.take(pv.len() as int) =~= pv);
        }
        let mut nt = Tower {
            position_x,
            position_y,
            angle,
            shot_cooldown,
            projectiles: kept,
            pop_count,
            level,
        };
        if hits > 0 {
            nt = crate::tower::increase_tower_pop_count(nt, hits);
        }
        proof {
            assert(nt@ == spec_clean_tower(v0.towers[k]));
            assert(tower_ready(nt@, config));
        }
        done.push(nt);
    }
    let r = GameState {
        config,
        coins,
        lives,
        game_over,
        spawn_timer,
        is_placing_tower,
        preview_tower,
        balloons,
        towers: done,
    };
    proof {
        assert(r@.towers =~= spec_clean_projectiles(v0).towers);
        assert(r@ == spec_clean_projectiles(v0));
        assert forall|i: int| 0 <= i < r@.towers.len() implies tower_ready(
            #[trigger] r@.towers[i],
            config,
        ) by {
            assert(r@.towers[i] == (done@[i])@);
        }
    }
    r
}

/// The escape marking: every live balloon that has crossed beyond the play
/// area becomes `Escaped`; every other balloon is untouched.
pub open spec fn spec_mark_escaped(bs: Seq<BalloonView>, c: Config) -> Seq<BalloonView> {
    Seq::new(
        bs.len(),
        |i: int|
            if bs[i].state is Alive && spec_has_escaped(bs[i], c) {
                BalloonView { state: BalloonState::Escaped, ..bs[i] }
            } else {
                bs[i]
            },
    )
}

/// The escape-accounting and balloon-cleanup stage: escaped balloons are
/// marked, one life is lost per escaped balloon (the count saturates at the
/// type's floor), a non-positive life total flips the game over, and only
/// the balloons still alive survive into the next frame.
pub open spec fn spec_clear_balloons(v: GameView) -> GameView {
    let marked = spec_mark_escaped(v.balloons, v.config);
    let escaped = marked.filter(|b: BalloonView| b.state is Escaped).len();
    let lives2 = floor_i64(v.lives - escaped);
    GameView {
        balloons: marked.filter(|b: BalloonView| b.state is Alive),
        lives: lives2,
        game_over: v.game_over || lives2 <= 0,
        ..v
    }
}

/// Runs the escape-accounting and balloon-cleanup stage.
pub fn clear_balloons(state: GameState) -> (r: GameState)
    requires
        state@.config.wf(),
        i64::MIN <= state@.lives <= i64::MAX,
        balloons_within(state@.balloons, state@.config, MAX_SIZE + MAX_STEP as int),
    ensures
        r@ == spec_clear_balloons(state@),
        forall|i: int|
            0 <= i < r@.balloons.len() ==> crate::balloon::balloon_in_lane(
                #[trigger] r@.balloons[i],
                r@.config,
            ) && r@.balloons[i].state is Alive,
        r@.lives <= 0 ==> r@.game_over,
        r@.towers == state@.towers,
{
    let ghost v0 = state@;
    let GameState {
        config,
        coins,
        mut lives,
        mut game_over,
        spawn_timer,
        is_placing_tower,
        preview_tower,
        balloons,
        towers,
    } = state;
    let ghost marked = spec_mark_escaped(v0.balloons, config);
    let mut kept: Vec<Balloon> = Vec::new();
    let mut j: usize = 0;
    proof {
        reveal(Seq::filter);
        assert(balloons@.map_values(|b: Balloon| b@) == v0.balloons);
        assert(marked.take(0) =~= Seq::<BalloonView>::empty());
        assert(kept@.map_values(|b: Balloon| b@) =~= Seq::<BalloonView>::empty());
    }
    while j < balloons.len()
        invariant
            config.wf(),
            j <= balloons.len(),
            balloons@.map_values(|b: Balloon| b@) == v0.balloons,
            marked == spec_mark_escaped(v0.balloons, config),
            balloons_within(v0.balloons, config, MAX_SIZE + MAX_STEP as int),
            lives == floor_i64(
                v0.lives - marked.take(j as int).filter(|b: BalloonView| b.state is Escaped).len(),
            ),
            kept@.map_values(|b: Balloon| b@) == marked.take(j as int).filter(
                |b: BalloonView| b.state is Alive,
            ),
            forall|i: int|
                0 <= i < kept@.len() ==> crate::balloon::balloon_in_lane((#[trigger] kept@[i])@, config)
                    && (kept@[i])@.state is Alive,
            game_over == v0.game_over,
        decreases balloons.len() - j,
    {
        let b = balloons[j];
        proof {
            assert(v0.balloons[j as int] == b@);
            assert(marked.take(j as int + 1) =~= marked.take(j as int).push(marked[j as int]));
            lemma_filter_push(
                marked.take(j as int),
                marked[j as int],
                |x: BalloonView| x.state is Escaped,
            );
            lemma_filter_push(
                marked.take(j as int),
                marked[j as int],
                |x: BalloonView| x.state is Alive,
            );
        }
        let b_alive = match b.state {
            BalloonState::Alive => true,
            _ => false,
        };
        let mut nb = b;
        if b_alive && crate::balloon::has_escaped(b, &config) {
            nb = Balloon { state: BalloonState::Escaped, ..b };
        }
        proof {
            assert(nb@ == marked[j as int]);
        }
        let nb_escaped = match nb.state {
            BalloonState::Escaped => true,
            _ => false,
        };
        if nb_escaped {
            lives = crate::arith::sat_dec_i64(lives);
        }
        let nb_alive = match nb.state {
            BalloonState::Alive => true,
            _ => false,
        };
        if nb_alive {
            let ghost pre_kept = kept@.map_values(|x: Balloon| x@);
            kept.push(nb);
            proof {
                assert(kept@.map_values(|x: Balloon| x@) =~= pre_kept.push(nb@));
            }
        }
        j = j + 1;
    }
    proof {
        assert(marked.take(marked.len() as int) =~= marked);
    }
    if lives <= 0 {
        game_over = true;
    }
    let r = GameState {
        config,
        coins,
        lives,
        game_over,
        spawn_timer,
        is_placing_tower,
        preview_tower,
        balloons: kept,
        towers,
    };
    proof {
        assert(r@ == spec_clear_balloons(v0));
    }
    r
}

/// The draws of a sequence of projectiles, in order.
pub open spec fn spec_projectiles_draws(ps: Seq<ProjectileView>, c: Config) -> Seq<
    crate::draw::DrawView,
>
    decreases ps.len(),
{
    if ps.len() == 0 {
        Seq::empty()
    } else {
        crate::draw::spec_draw_projectile(ps[0], c) + spec_projectiles_draws(ps.skip(1), c)
    }
}

/// The draws of a sequence of towers, each followed by its projectiles.
pub open spec fn spec_towers_draws(ts: Seq<TowerView>, c: Config) -> Seq<crate::draw::DrawView>
    decreases ts.len(),
{
    if ts.len() == 0 {
        Seq::empty()
    } else {
        crate::draw::spec_draw_tower(ts[0], false) + spec_projectiles_draws(ts[0].projectiles, c)
            + spec_towers_draws(ts.skip(1), c)
    }
}

/// The draws of a sequence of balloons, in order.
pub open spec fn spec_balloons_draws(bs: Seq<BalloonView>, c: Config) -> Seq<crate::draw::DrawView>
    decreases bs.len(),
{
    if bs.len() == 0 {
        Seq::empty()
    } else {
        crate::draw::spec_draw_balloon(bs[0], c) + spec_balloons_draws(bs.skip(1), c)
    }
}

/// Appending a projectile appends its draws.
proof fn lemma_projectiles_draws_push(ps: Seq<ProjectileView>, e: ProjectileView, c: Config)
    ensures
        spec_projectiles_draws(ps.push(e), c) == spec_projectiles_draws(ps, c)
            + crate::draw::spec_draw_projectile(e, c),
    decreases ps.len(),
{
    if ps.len() == 0 {
        assert(ps.push(e)[0] == e);
        assert(ps.push(e).skip(1) =~= Seq::<ProjectileView>::empty());
        assert(spec_projectiles_draws(Seq::<ProjectileView>::empty(), c) == Seq::<
            crate::draw::DrawView,
        >::empty());
        assert(crate::draw::spec_draw_projectile(e, c) + Seq::empty()
            =~= Seq::empty() + crate::draw::spec_draw_projectile(e, c));
    } else {
        assert(ps.push(e)[0] == ps[0]);
        assert(ps.push(e).skip(1) =~= ps.skip(1).push(e));
        lemma_projectiles_draws_push(ps.skip(1), e, c);
        assert(crate::draw::spec_draw_projectile(ps[0], c) + (spec_projectiles_draws(ps.skip(1), c)
            + crate::draw::spec_draw_projectile(e, c)) =~= (crate::draw::spec_draw_projectile(
            ps[0],
            c,
        ) + spec_projectiles_draws(ps.skip(1), c)) + crate::draw::spec_draw_projectile(e, c));
    }
}

/// Appending a tower appends its draws.
proof fn lemma_towers_draws_push(ts: Seq<TowerView>, e: TowerView, c: Config)
    ensures
        spec_towers_draws(ts.push(e), c) == spec_towers_draws(ts, c) + (
        crate::draw::spec_draw_tower(e, false) + spec_projectiles_draws(e.projectiles, c)),
    decreases ts.len(),
{
    let draws_e = crate::draw::spec_draw_tower(e, false) + spec_projectiles_draws(e.projectiles, c);
    if ts.len() == 0 {
        assert(ts.push(e)[0] == e);
        assert(ts.push(e).skip(1) =~= Seq::<TowerView>::empty());
        assert(spec_towers_draws(Seq::<TowerView>::empty(), c) == Seq::<
            crate::draw::DrawView,
        >::empty());
        assert(crate::draw::spec_draw_tower(e, false) + spec_projectiles_draws(e.projectiles, c)
            + Seq::empty() =~= Seq::empty() + draws_e);
    } else {
        assert(ts.push(e)[0] == ts[0]);
        assert(ts.push(e).skip(1) =~= ts.skip(1).push(e));
        lemma_towers_draws_push(ts.skip(1), e, c);
        let draws_0 = crate::draw::spec_draw_tower(ts[0], false) + spec_projectiles_draws(
            ts[0].projectiles,
            c,
        );
        assert(draws_0 + (spec_towers_draws(ts.skip(1), c) + draws_e) =~= (draws_0
            + spec_towers_draws(ts.skip(1), c)) + draws_e);
    }
}

/// Appending a balloon appends its draws.
proof fn lemma_balloons_draws_push(bs: Seq<BalloonView>, e: BalloonView, c: Config)
    ensures
        spec_balloons_draws(bs.push(e), c) == spec_balloons_draws(bs, c)
            + crate::draw::spec_draw_balloon(e, c),
    decreases bs.len(),
{
    if bs.len() == 0 {
        assert(bs.push(e)[0] == e);
        assert(bs.push(e).skip(1) =~= Seq::<BalloonView>::empty());
        assert(spec_balloons_draws(Seq::<BalloonView>::empty(), c) == Seq::<
            crate::draw::DrawView,
        >::empty());
        assert(crate::draw::spec_draw_balloon(e, c) + Seq::empty()
            =~= Seq::empty() + crate::draw::spec_draw_balloon(e, c));
    } else {
        assert(bs.push(e)[0] == bs[0]);
        assert(bs.push(e).skip(1) =~= bs.skip(1).push(e));
        lemma_balloons_draws_push(bs.skip(1), e, c);
        assert(crate::draw::spec_draw_balloon(bs[0], c) + (spec_balloons_draws(bs.skip(1), c)
            + crate::draw::spec_draw_balloon(e, c)) =~= (crate::draw::spec_draw_balloon(bs[0], c)
            + spec_balloons_draws(bs.skip(1), c)) + crate::draw::spec_draw_balloon(e, c));
    }
}

/// Emits the draws of every tower and of every projectile each owns.
fn draw_towers_all(towers: &Vec<Tower>, c: &Config, out: &mut Vec<crate::draw::DrawRequest>)
    requires
        c.wf(),
        forall|k: int| 0 <= k < towers@.len() ==> tower_wf((#[trigger] towers@[k])@, *c),
    ensures
        crate::draw::spec_draws(final(out)@) == crate::draw::spec_draws(old(out)@)
            + spec_towers_draws(towers@.map_values(|t: Tower| t@), *c),
{
    let ghost tsv = towers@.map_values(|t: Tower| t@);
    let mut i: usize = 0;
    proof {
        assert(tsv.take(0) =~= Seq::<TowerView>::empty());
        assert(crate::draw::spec_draws(out@) + Seq::empty() =~= crate::draw::spec_draws(out@));
    }
    while i < towers.len()
        invariant
            c.wf(),
            i <= towers.len(),
            towers@.map_values(|t: Tower| t@) == tsv,
            forall|k: int| 0 <= k < towers@.len() ==> tower_wf((#[trigger] towers@[k])@, *c),
            crate::draw::spec_draws(out@) == crate::draw::spec_draws(old(out)@)
                + spec_towers_draws(tsv.take(i as int), *c),
        decreases towers.len() - i,
    {
        let t = &towers[i];
        proof {
            assert(t@ == tsv[i as int]);
            assert(tower_wf(t@, *c));
        }
        crate::draw::draw_tower(t, false, out);
        let ghost pbase = crate::draw::spec_draws(out@);
        let ghost pv = t@.projectiles;
        let mut k: usize = 0;
        proof {
            assert(pv.take(0) =~= Seq::<ProjectileView>::empty());
            assert(pbase + Seq::empty() =~= pbase);
        }
        while k < t.projectiles.len()
            invariant
                c.wf(),
                k <= t.projectiles.len(),
                t.projectiles@.map_values(|p: Projectile| p@) == pv,
                crate::draw::spec_draws(out@) == pbase + spec_projectiles_draws(
                    pv.take(k as int),
                    *c,
                ),
            decreases t.projectiles.len() - k,
        {
            let p = t.projectiles[k];
            proof {
                assert(pv[k as int] == p@);
            }
            crate::draw::draw_projectile(p, c, out);
            proof {
                assert(pv.take(k as int + 1) =~= pv.take(k as int).push(pv[k as int]));
                lemma_projectiles_draws_push(pv.take(k as int), pv[k as int], *c);
            }
            k = k + 1;
        }
        proof {
            assert(pv.take(pv.len() as int) =~= pv);
            assert(tsv.take(i as int + 1) =~= tsv.take(i as int).push(tsv[i as int]));
            lemma_towers_draws_push(tsv.take(i as int), tsv[i as int], *c);
            let base0 = crate::draw::spec_draws(old(out)@);
            let part_t = spec_towers_draws(tsv.take(i as int), *c);
            let part_d = crate::draw::spec_draw_tower(tsv[i as int], false);
            let part_p = spec_projectiles_draws(pv, *c);
            assert((((base0 + part_t) + part_d) + part_p) =~= base0 + (part_t + (part_d + part_p)));
        }
        i = i + 1;
    }
    proof {
        assert(tsv.take(tsv.len() as int) =~= tsv);
    }
}

/// Emits the draws of every balloon.
fn draw_balloons_all(balloons: &Vec<Balloon>, c: &Config, out: &mut Vec<crate::draw::DrawRequest>)
    requires
        c.wf(),
        balloons_within(balloons@.map_values(|b: Balloon| b@), *c, MAX_SIZE + MAX_STEP as int),
    ensures
        crate::draw::spec_draws(final(out)@) == crate::draw::spec_draws(old(out)@)
            + spec_balloons_draws(balloons@.map_values(|b: Balloon| b@), *c),
{
    let ghost bsv = balloons@.map_values(|b: Balloon| b@);
    let mut i: usize = 0;
    proof {
        assert(bsv.take(0) =~= Seq::<BalloonView>::empty());
        assert(crate::draw::spec_draws(out@) + Seq::empty() =~= crate::draw::spec_draws(out@));
    }
    while i < balloons.len()
        invariant
            c.wf(),
            i <= balloons.len(),
            balloons@.map_values(|b: Balloon| b@) == bsv,
            balloons_within(bsv, *c, MAX_SIZE + MAX_STEP as int),
            crate::draw::spec_draws(out@) == crate::draw::spec_draws(old(out)@)
                + spec_balloons_draws(bsv.take(i as int), *c),
        decreases balloons.len() - i,
    {
        let b = balloons[i];
        proof {
            assert(b@ == bsv[i as int]);
            assert(-(MAX_SIZE + MAX_STEP as int) <= bsv[i as int].position_x <= c.width + (MAX_SIZE
                + MAX_STEP as int));
        }
        crate::draw::draw_balloon(b, c, out);
        proof {
            assert(bsv.take(i as int + 1) =~= bsv.take(i as int).push(bsv[i as int]));
            lemma_balloons_draws_push(bsv.take(i as int), bsv[i as int], *c);
            let base0 = crate::draw::spec_draws(old(out)@);
            let part_b = spec_balloons_draws(bsv.take(i as int), *c);
            let part_d = crate::draw::spec_draw_balloon(bsv[i as int], *c);
            assert(((base0 + part_b) + part_d) =~= base0 + (part_b + part_d));
        }
        i = i + 1;
    }
    proof {
        assert(bsv.take(bsv.len() as int) =~= bsv);
    }
}

/// One whole frame. While playing, the stages run in their load-bearing
/// order: placement input, spawning, balloon movement, tower firing and
/// projectile flight, collision resolution, projectile cleanup with pop
/// crediting, escape accounting with the game-over check, balloon cleanup.
/// On a game-over frame nothing moves; a reset input restores the initial
/// state.
pub open spec fn spec_update_scene(delta_time: int, keys: Keys, v: GameView) -> GameView {
    if v.game_over {
        if keys.reset {
            spec_reset(v)
        } else {
            v
        }
    } else {
        let v1 = spec_handle_tower_placement(v, keys, delta_time);
        let v2 = spec_handle_spawn_timer(v1, delta_time);
        let v3 = spec_update_balloons(v2, delta_time);
        let v4 = spec_update_towers(v3, delta_time);
        let v5 = spec_handle_popping(v4);
        let v6 = spec_clean_projectiles(v5);
        spec_clear_balloons(v6)
    }
}

/// The frame's draw requests: on a game-over frame the game-over screen; in
/// play, the background, the placement preview, every tower with its
/// projectiles as fired and advanced this frame, every balloon as moved this
/// frame, and the statistics as they stand at the frame's end.
pub open spec fn spec_update_scene_draws(delta_time: int, keys: Keys, v: GameView) -> Seq<
    crate::draw::DrawView,
> {
    if v.game_over {
        crate::draw::spec_draw_game_over(v.config)
    } else {
        let v1 = spec_handle_tower_placement(v, keys, delta_time);
        let v2 = spec_handle_spawn_timer(v1, delta_time);
        let v3 = spec_update_balloons(v2, delta_time);
        let v4 = spec_update_towers(v3, delta_time);
        let v5 = spec_handle_popping(v4);
        let v6 = spec_clean_projectiles(v5);
        let v7 = spec_clear_balloons(v6);
        crate::draw::spec_draw_background() + spec_placement_draws(v, keys, delta_time)
            + spec_towers_draws(v4.towers, v.config) + spec_balloons_draws(v4.balloons, v.config)
            + crate::draw::spec_draw_statistics(v7.coins, v7.lives)
    }
}

/// Advances the world by one frame and returns the next state together with
/// the frame's draw requests.
pub fn update_scene(delta_time: u32, keys: Keys, state: GameState) -> (r: (
    GameState,
    Vec<crate::draw::DrawRequest>,
))
    requires
        scene_wf(state@),
        keys_wf(keys, state@.config),
    ensures
        r.0@ == spec_update_scene(delta_time as int, keys, state@),
        crate::draw::spec_draws(r.1@) == spec_update_scene_draws(delta_time as int, keys, state@),
        scene_wf(r.0@),
        r.0@.config == state@.config,
        r.0@.is_placing_tower == (r.0@.preview_tower is Some),
        r.0@.lives <= 0 ==> r.0@.game_over,
{
    let ghost v0 = state@;
    let mut out: Vec<crate::draw::DrawRequest> = Vec::new();
    proof {
        assert(crate::draw::spec_draws(out@) =~= Seq::<crate::draw::DrawView>::empty());
    }
    if state.game_over {
        crate::draw::draw_game_over(&state.config, &mut out);
        proof {
            assert(Seq::<crate::draw::DrawView>::empty() + crate::draw::spec_draw_game_over(
                v0.config,
            ) =~= crate::draw::spec_draw_game_over(v0.config));
        }
        if keys.reset {
            let next = reset(state);
            (next, out)
        } else {
            (state, out)
        }
    } else {
        crate::draw::draw_background(&mut out);
        let s1 = handle_tower_placement(state, keys, delta_time, &mut out);
        let ghost d_bg = crate::draw::spec_draw_background();
        let ghost d_pl = spec_placement_draws(v0, keys, delta_time as int);
        proof {
            assert((Seq::<crate::draw::DrawView>::empty() + d_bg) + d_pl =~= d_bg + d_pl);
        }
        let s2 = handle_spawn_timer(s1, delta_time);
        proof {
            assert(s2@.towers == s1@.towers);
            assert forall|i: int| 0 <= i < s2@.balloons.len() implies {
                &&& -(MAX_SIZE as int) <= (#[trigger] s2@.balloons[i]).position_x <= s2@.config.width
                    + MAX_SIZE
                &&& s2@.balloons[i].position_y == s2@.config.height as int / 2
            } by {
                if i < s1@.balloons.len() {
                    assert(s2@.balloons[i] == s1@.balloons[i]);
                    assert(s1@.balloons[i] == v0.balloons[i]);
                    assert(crate::balloon::balloon_in_lane(v0.balloons[i], v0.config));
                } else {
                    assert(s2@.balloons[i] == spec_new_balloon(v0.config));
                }
            }
        }
        let s3 = update_balloons(s2, delta_time);
        proof {
            assert(s3@.towers == s2@.towers);
            assert forall|i: int| 0 <= i < s3@.towers.len() implies tower_ready(
                #[trigger] s3@.towers[i],
                s3@.config,
            ) by {
                assert(s1@.towers[i] == s3@.towers[i]);
                assert(tower_ready(s1@.towers[i], s1@.config));
            }
        }
        let s4 = update_towers(s3, delta_time);
        proof {
            assert forall|k: int| 0 <= k < s4.towers@.len() implies tower_wf(
                (#[trigger] s4.towers@[k])@,
                s4.config,
            ) by {
                assert((s4.towers@[k])@ == s4@.towers[k]);
                assert(tower_mid(s4@.towers[k], s4@.config));
            }
        }
        draw_towers_all(&s4.towers, &s4.config, &mut out);
        draw_balloons_all(&s4.balloons, &s4.config, &mut out);
        let ghost d_tw = spec_towers_draws(s4@.towers, v0.config);
        let ghost d_bl = spec_balloons_draws(s4@.balloons, v0.config);
        let s5 = handle_popping(s4);
        let s6 = clean_projectiles(s5);
        let s7 = clear_balloons(s6);
        crate::draw::draw_statistics(s7.coins, s7.lives, &mut out);
        let ghost d_st = crate::draw::spec_draw_statistics(s7@.coins, s7@.lives);
        proof {
            assert(s7@ == spec_update_scene(delta_time as int, keys, v0));
            assert(((((d_bg + d_pl) + d_tw) + d_bl) + d_st) == spec_update_scene_draws(
                delta_time as int,
                keys,
                v0,
            ));
            assert(scene_wf(s7@));
        }
        (s7, out)
    }
}

} // verus!
