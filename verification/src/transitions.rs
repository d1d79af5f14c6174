//! Lifecycle-transition laws of the per-frame pipeline.
//!
//! These lemmas state, over the pipeline's specification, that entity
//! lifecycles only move forward within a frame: a balloon goes from `Alive`
//! to `Popped` or to `Escaped` and nowhere else, a projectile from `Alive` to
//! `Dead` or to `Hit` and never to both, and the frame's cleanup keeps only
//! the living.

use crate::balloon::BalloonState;
use crate::balloon::BalloonView;
use crate::config::Config;
use crate::projectile::ProjectileState;
use crate::projectile::ProjectileView;
use crate::scene::scene_wf;
use crate::scene::spec_clean_projectiles;
use crate::scene::spec_clear_balloons;
use crate::scene::spec_handle_popping;
use crate::scene::spec_handle_spawn_timer;
use crate::scene::spec_handle_tower_placement;
use crate::scene::spec_mark_escaped;
use crate::scene::spec_pop_balloons;
use crate::scene::spec_pop_projectiles;
use crate::scene::spec_pop_towers;
use crate::scene::spec_update_balloons;
use crate::scene::spec_update_towers;
use crate::scene::GameView;
use crate::scene::Keys;
use crate::tower::TowerView;
use vstd::prelude::*;

verus! {

/// The lifecycle moves a balloon may make within one frame: stay put, or go
/// from `Alive` to `Popped` or `Escaped`. `Popped` and `Escaped` never change
/// again, and neither ever becomes the other.
pub open spec fn balloon_step_ok(pre: BalloonState, post: BalloonState) -> bool {
    ||| post == pre
    ||| (pre is Alive && (post is Popped || post is Escaped))
}

/// The collision stage's only balloon move: stay, or `Alive` to `Popped`.
pub open spec fn popped_step(pre: BalloonState, post: BalloonState) -> bool {
    ||| post == pre
    ||| (pre is Alive && post is Popped)
}

/// The lifecycle moves a projectile may make within one frame: stay put, or
/// go from `Alive` to `Dead` or `Hit` — never from one terminal state to the
/// other, so no projectile is ever both.
pub open spec fn projectile_step_ok(pre: ProjectileState, post: ProjectileState) -> bool {
    ||| post == pre
    ||| (pre is Alive && (post is Dead || post is Hit))
}

/// The collision stage's only projectile move: stay, or `Alive` to `Hit`.
pub open spec fn hit_step(pre: ProjectileState, post: ProjectileState) -> bool {
    ||| post == pre
    ||| (pre is Alive && post is Hit)
}

/// One projectile's balloon sweep pops balloons and retires the projectile,
/// and does nothing else: balloon count and positions are kept, each balloon
/// stays or goes `Alive` to `Popped`, and the projectile stays or goes
/// `Alive` to `Hit`.
pub proof fn lemma_pop_balloons_states(
    p: ProjectileView,
    bs: Seq<BalloonView>,
    coins: int,
    c: Config,
    j: int,
)
    ensures
        ({
            let r = spec_pop_balloons(p, bs, coins, c, j);
            &&& r.1.len() == bs.len()
            &&& forall|i: int|
                0 <= i < bs.len() ==> popped_step(bs[i].state, #[trigger] r.1[i].state)
            &&& hit_step(p.state, r.0.state)
        }),
    decreases bs.len() - j,
{
    if 0 <= j < bs.len() && crate::scene::spec_pop_hits(p, bs[j], c) {
        let p2 = ProjectileView { state: ProjectileState::Hit, ..p };
        let bs2 = bs.update(j, BalloonView { state: BalloonState::Popped, ..bs[j] });
        lemma_pop_balloons_states(p2, bs2, crate::arith::cap_u64(coins + 1), c, j + 1);
        let r = spec_pop_balloons(p, bs, coins, c, j);
        assert forall|i: int| 0 <= i < bs.len() implies popped_step(
            bs[i].state,
            #[trigger] r.1[i].state,
        ) by {
            assert(popped_step(bs2[i].state, r.1[i].state));
        }
    } else if 0 <= j < bs.len() {
        lemma_pop_balloons_states(p, bs, coins, c, j + 1);
    }
}

/// One tower's projectile sweep: projectile count kept, each projectile
/// stays or goes `Alive` to `Hit`, each balloon stays or goes `Alive` to
/// `Popped`.
pub proof fn lemma_pop_projectiles_states(
    ps: Seq<ProjectileView>,
    bs: Seq<BalloonView>,
    coins: int,
    c: Config,
)
    ensures
        ({
            let r = spec_pop_projectiles(ps, bs, coins, c);
            &&& r.0.len() == ps.len()
            &&& forall|k: int|
                0 <= k < ps.len() ==> hit_step(ps[k].state, #[trigger] r.0[k].state)
            &&& r.1.len() == bs.len()
            &&& forall|i: int|
                0 <= i < bs.len() ==> popped_step(bs[i].state, #[trigger] r.1[i].state)
        }),
    decreases ps.len(),
{
    if ps.len() > 0 {
        let head = spec_pop_balloons(ps[0], bs, coins, c, 0);
        lemma_pop_balloons_states(ps[0], bs, coins, c, 0);
        lemma_pop_projectiles_states(ps.skip(1), head.1, head.2, c);
        let rest = spec_pop_projectiles(ps.skip(1), head.1, head.2, c);
        let r = spec_pop_projectiles(ps, bs, coins, c);
        assert forall|k: int| 0 <= k < ps.len() implies hit_step(
            ps[k].state,
            #[trigger] r.0[k].state,
        ) by {
            if k == 0 {
                assert(r.0[0] == head.0);
            } else {
                assert(r.0[k] == rest.0[k - 1]);
                assert(ps.skip(1)[k - 1] == ps[k]);
                assert(hit_step(ps.skip(1)[k - 1].state, rest.0[k - 1].state));
            }
        }
        assert forall|i: int| 0 <= i < bs.len() implies popped_step(
            bs[i].state,
            #[trigger] r.1[i].state,
        ) by {
            assert(popped_step(bs[i].state, head.1[i].state));
            assert(popped_step(head.1[i].state, rest.1[i].state));
        }
    }
}

/// The whole collision stage: tower count, per-tower projectile counts and
/// balloon count are kept; each projectile stays or goes `Alive` to `Hit`;
/// each balloon stays or goes `Alive` to `Popped`.
pub proof fn lemma_pop_towers_states(ts: Seq<TowerView>, bs: Seq<BalloonView>, coins: int, c: Config)
    ensures
        ({
            let r = spec_pop_towers(ts, bs, coins, c);
            &&& r.0.len() == ts.len()
            &&& forall|m: int|
                0 <= m < ts.len() ==> (#[trigger] r.0[m]).projectiles.len()
                    == ts[m].projectiles.len()
            &&& forall|m: int, k: int|
                0 <= m < ts.len() && 0 <= k < ts[m].projectiles.len() ==> hit_step(
                    ts[m].projectiles[k].state,
                    (#[trigger] r.0[m].projectiles[k]).state,
                )
            &&& r.1.len() == bs.len()
            &&& forall|i: int|
                0 <= i < bs.len() ==> popped_step(bs[i].state, #[trigger] r.1[i].state)
        }),
    decreases ts.len(),
{
    if ts.len() > 0 {
        let head = spec_pop_projectiles(ts[0].projectiles, bs, coins, c);
        lemma_pop_projectiles_states(ts[0].projectiles, bs, coins, c);
        lemma_pop_towers_states(ts.skip(1), head.1, head.2, c);
        let rest = spec_pop_towers(ts.skip(1), head.1, head.2, c);
        let r = spec_pop_towers(ts, bs, coins, c);
        let t0 = TowerView { projectiles: head.0, ..ts[0] };
        assert forall|m: int| 0 <= m < ts.len() implies (#[trigger] r.0[m]).projectiles.len()
            == ts[m].projectiles.len() by {
            if m == 0 {
                assert(r.0[0] == t0);
            } else {
                assert(r.0[m] == rest.0[m - 1]);
                assert(ts.skip(1)[m - 1] == ts[m]);
            }
        }
        assert forall|m: int, k: int|
            0 <= m < ts.len() && 0 <= k < ts[m].projectiles.len() implies hit_step(
            ts[m].projectiles[k].state,
            (#[trigger] r.0[m].projectiles[k]).state,
        ) by {
            if m == 0 {
                assert(r.0[0] == t0);
            } else {
                assert(r.0[m] == rest.0[m - 1]);
                assert(ts.skip(1)[m - 1] == ts[m]);
            }
        }
        assert forall|i: int| 0 <= i < bs.len() implies popped_step(
            bs[i].state,
            #[trigger] r.1[i].state,
        ) by {
            assert(popped_step(bs[i].state, head.1[i].state));
            assert(popped_step(head.1[i].state, rest.1[i].state));
        }
    }
}

/// Within one frame a balloon's state only moves forward: from the moment it
/// exists (after the spawn stage) to the moment escape accounting has run, it
/// stays as it was or goes from `Alive` to `Popped` or to `Escaped` — never
/// from `Popped` to `Escaped`, never back — and the frame's cleanup then
/// keeps exactly the balloons still alive. Balloons already present at the
/// frame's start keep their index and state through the spawn stage.
pub proof fn lemma_balloon_transitions(delta_time: int, keys: Keys, v: GameView)
    ensures
        ({
            let v1 = spec_handle_tower_placement(v, keys, delta_time);
            let v2 = spec_handle_spawn_timer(v1, delta_time);
            let v3 = spec_update_balloons(v2, delta_time);
            let v4 = spec_update_towers(v3, delta_time);
            let v5 = spec_handle_popping(v4);
            let v6 = spec_clean_projectiles(v5);
            let v7 = spec_clear_balloons(v6);
            let marked = spec_mark_escaped(v6.balloons, v6.config);
            &&& v2.balloons.len() >= v.balloons.len()
            &&& forall|i: int|
                0 <= i < v.balloons.len() ==> (#[trigger] v2.balloons[i]) == v.balloons[i]
            &&& marked.len() == v2.balloons.len()
            &&& forall|i: int|
                0 <= i < v2.balloons.len() ==> balloon_step_ok(
                    v2.balloons[i].state,
                    (#[trigger] marked[i]).state,
                )
            &&& forall|i: int|
                0 <= i < v7.balloons.len() ==> (#[trigger] v7.balloons[i]).state is Alive
        }),
{
    let v1 = spec_handle_tower_placement(v, keys, delta_time);
    let v2 = spec_handle_spawn_timer(v1, delta_time);
    let v3 = spec_update_balloons(v2, delta_time);
    let v4 = spec_update_towers(v3, delta_time);
    let v5 = spec_handle_popping(v4);
    let v6 = spec_clean_projectiles(v5);
    let v7 = spec_clear_balloons(v6);
    let marked = spec_mark_escaped(v6.balloons, v6.config);
    assert(v1.balloons == v.balloons);
    if v1.spawn_timer + delta_time >= 0 {
        crate::scene::lemma_spawn_loop_sound(v1.spawn_timer + delta_time, v1.balloons, v1.config);
    } else {
        assert(crate::scene::spec_spawn_loop(v1.spawn_timer + delta_time, v1.balloons, v1.config)
            == (v1.spawn_timer + delta_time, v1.balloons));
    }
    lemma_pop_towers_states(v4.towers, v4.balloons, v4.coins, v4.config);
    assert forall|i: int| 0 <= i < v2.balloons.len() implies balloon_step_ok(
        v2.balloons[i].state,
        (#[trigger] marked[i]).state,
    ) by {
        assert(v3.balloons[i].state == v2.balloons[i].state);
        assert(popped_step(v4.balloons[i].state, v5.balloons[i].state));
        assert(v6.balloons[i] == v5.balloons[i]);
        assert(marked[i].state == if v6.balloons[i].state is Alive && crate::balloon::spec_has_escaped(
            v6.balloons[i],
            v6.config,
        ) {
            BalloonState::Escaped
        } else {
            v6.balloons[i].state
        });
    }
    let alive = |b: BalloonView| b.state is Alive;
    assert forall|i: int| 0 <= i < v7.balloons.len() implies (
    #[trigger] v7.balloons[i]).state is Alive by {
        assert(v7.balloons == marked.filter(alive));
        Seq::lemma_filter_pred(marked, alive, i);
    }
}

/// Within one frame a projectile's state only moves forward: every
/// projectile in flight after the firing stage is `Alive` or `Dead` (a
/// projectile leaving the bounds dies; nothing else touches it), the
/// collision stage retires only `Alive` projectiles to `Hit` — so no
/// projectile is ever both `Dead` and `Hit` — and the projectile cleanup
/// then keeps exactly the ones still alive.
pub proof fn lemma_projectile_transitions(delta_time: int, keys: Keys, v: GameView)
    requires
        scene_wf(v),
    ensures
        ({
            let v1 = spec_handle_tower_placement(v, keys, delta_time);
            let v2 = spec_handle_spawn_timer(v1, delta_time);
            let v3 = spec_update_balloons(v2, delta_time);
            let v4 = spec_update_towers(v3, delta_time);
            let v5 = spec_handle_popping(v4);
            let v6 = spec_clean_projectiles(v5);
            &&& forall|m: int, k: int|
                0 <= m < v4.towers.len() && 0 <= k < v4.towers[m].projectiles.len() ==> {
                    let s = (#[trigger] v4.towers[m].projectiles[k]).state;
                    s is Alive || s is Dead
                }
            &&& v5.towers.len() == v4.towers.len()
            &&& forall|m: int|
                0 <= m < v4.towers.len() ==> (#[trigger] v5.towers[m]).projectiles.len()
                    == v4.towers[m].projectiles.len()
            &&& forall|m: int, k: int|
                0 <= m < v4.towers.len() && 0 <= k < v4.towers[m].projectiles.len()
                    ==> projectile_step_ok(
                    v4.towers[m].projectiles[k].state,
                    (#[trigger] v5.towers[m].projectiles[k]).state,
                )
            &&& forall|m: int, k: int|
                0 <= m < v6.towers.len() && 0 <= k < v6.towers[m].projectiles.len() ==> (
                #[trigger] v6.towers[m].projectiles[k]).state is Alive
        }),
{
    let v1 = spec_handle_tower_placement(v, keys, delta_time);
    let v2 = spec_handle_spawn_timer(v1, delta_time);
    let v3 = spec_update_balloons(v2, delta_time);
    let v4 = spec_update_towers(v3, delta_time);
    let v5 = spec_handle_popping(v4);
    let v6 = spec_clean_projectiles(v5);
    assert(v3.towers == v1.towers);
    assert forall|m: int, k: int|
        0 <= m < v1.towers.len() && 0 <= k < v1.towers[m].projectiles.len() implies (
    #[trigger] v1.towers[m].projectiles[k]).state is Alive by {
        if m < v.towers.len() {
            assert(v1.towers[m] == v.towers[m]);
            assert(crate::scene::tower_ready(v.towers[m], v.config));
        } else {
            assert(v1.towers[m].projectiles.len() == 0);
        }
    }
    assert forall|m: int, k: int|
        0 <= m < v4.towers.len() && 0 <= k < v4.towers[m].projectiles.len() implies {
        let s = (#[trigger] v4.towers[m].projectiles[k]).state;
        s is Alive || s is Dead
    } by {
        let t = v3.towers[m];
        let t1 = crate::tower::spec_update_tower(t, delta_time);
        assert(v4.towers[m].projectiles[k] == crate::projectile::spec_update_projectile(
            t1.projectiles[k],
            v3.config,
            delta_time,
        ));
        if k < t.projectiles.len() {
            assert(t1.projectiles[k] == t.projectiles[k]);
            assert(t.projectiles[k].state is Alive);
        } else {
            assert(t1.projectiles[k].state is Alive);
        }
    }
    lemma_pop_towers_states(v4.towers, v4.balloons, v4.coins, v4.config);
    let alive = |p: ProjectileView| p.state is Alive;
    assert forall|m: int, k: int|
        0 <= m < v6.towers.len() && 0 <= k < v6.towers[m].projectiles.len() implies (
    #[trigger] v6.towers[m].projectiles[k]).state is Alive by {
        assert(v6.towers[m] == crate::scene::spec_clean_tower(v5.towers[m]));
        assert(v6.towers[m].projectiles == v5.towers[m].projectiles.filter(alive));
        Seq::lemma_filter_pred(v5.towers[m].projectiles, alive, k);
    }
}

} // verus!
