use balloons::balloon::{new_balloon, Balloon, BalloonState, Direction};
use balloons::config::standard_config;
use balloons::draw::{ColorId, DrawRequest, TextKind};
use balloons::projectile::{hit_projectile, new_projectile, ProjectileState};
use balloons::scene::{
    clean_projectiles, clear_balloons, handle_popping, handle_spawn_timer, handle_tower_placement,
    new_scene, reset, update_scene, GameState, Keys,
};
use balloons::tower::new_tower;

const WIDTH: i64 = 800_000;
const HEIGHT: i64 = 600_000;

fn keys() -> Keys {
    Keys {
        tower_placement: false,
        cancel_tower_placement: false,
        place_tower: false,
        rotate_tower_clockwise: false,
        rotate_tower_counter_clockwise: false,
        reset: false,
        pointer_x: 0,
        pointer_y: 0,
    }
}

fn fresh() -> GameState {
    new_scene(standard_config(WIDTH, HEIGHT))
}

#[test]
fn new_scene_starts_from_initial_constants() {
    let s = fresh();
    assert_eq!(s.coins, 30);
    assert_eq!(s.lives, 3);
    assert!(!s.game_over);
    assert_eq!(s.spawn_timer, 0);
    assert!(!s.is_placing_tower);
    assert!(s.preview_tower.is_none());
    assert!(s.balloons.is_empty());
    assert!(s.towers.is_empty());
}

#[test]
fn reset_twice_equals_reset_once() {
    let mut s = fresh();
    s.coins = 99;
    s.lives = -2;
    s.game_over = true;
    s.spawn_timer = 700;
    s.is_placing_tower = true;
    s.preview_tower = Some(new_tower(10_000, 10_000));
    s.balloons.push(new_balloon(&s.config));
    s.towers.push(new_tower(50_000, 50_000));
    let once = reset(s.clone());
    let twice = reset(reset(s));
    assert_eq!(once, twice);
    assert_eq!(once.coins, 30);
    assert_eq!(once.lives, 3);
    assert!(!once.game_over);
    assert_eq!(once.spawn_timer, 0);
    assert!(!once.is_placing_tower);
    assert!(once.preview_tower.is_none());
    assert!(once.balloons.is_empty());
    assert!(once.towers.is_empty());
}

#[test]
fn spawn_timer_pays_out_one_balloon_per_period() {
    let s = handle_spawn_timer(fresh(), 3500);
    assert_eq!(s.balloons.len(), 3);
    assert_eq!(s.spawn_timer, 500);
    for b in &s.balloons {
        assert_eq!(b.position_x, 144_000);
        assert_eq!(b.state, BalloonState::Alive);
    }
}

#[test]
fn spawn_timer_needs_strictly_more_than_one_period() {
    let s = handle_spawn_timer(fresh(), 1000);
    assert_eq!(s.balloons.len(), 0);
    assert_eq!(s.spawn_timer, 1000);
    let s2 = handle_spawn_timer(s, 1);
    assert_eq!(s2.balloons.len(), 1);
    assert_eq!(s2.spawn_timer, 1);
}

#[test]
fn popping_pops_marks_and_credits_exactly_one_coin() {
    // Scenario: a projectile overlapping a balloon's collider on both axes.
    let mut s = fresh();
    let mut t = new_tower(400_000, 300_000);
    t.projectiles.push(new_projectile(400_000, 300_000, 1000, 0));
    s.towers.push(t);
    s.balloons.push(Balloon {
        position_x: 420_000,
        position_y: 300_000,
        direction: Direction::Right,
        state: BalloonState::Alive,
    });
    let s2 = handle_popping(s);
    assert_eq!(s2.coins, 31);
    assert_eq!(s2.balloons[0].state, BalloonState::Popped);
    assert_eq!(s2.towers[0].projectiles[0].state, ProjectileState::Hit);
}

#[test]
fn popping_skips_dead_projectiles_and_popped_balloons() {
    let mut s = fresh();
    let mut t = new_tower(400_000, 300_000);
    let mut dead = new_projectile(400_000, 300_000, 1000, 0);
    dead.state = ProjectileState::Dead;
    t.projectiles.push(dead);
    s.towers.push(t);
    s.balloons.push(Balloon {
        position_x: 400_000,
        position_y: 300_000,
        direction: Direction::Right,
        state: BalloonState::Popped,
    });
    let s2 = handle_popping(s);
    assert_eq!(s2.coins, 30);
    assert_eq!(s2.towers[0].projectiles[0].state, ProjectileState::Dead);
    assert_eq!(s2.balloons[0].state, BalloonState::Popped);
}

#[test]
fn one_projectile_registers_at_most_one_hit() {
    let mut s = fresh();
    let mut t = new_tower(400_000, 300_000);
    t.projectiles.push(new_projectile(400_000, 300_000, 1000, 0));
    s.towers.push(t);
    for _ in 0..2 {
        s.balloons.push(Balloon {
            position_x: 400_000,
            position_y: 300_000,
            direction: Direction::Right,
            state: BalloonState::Alive,
        });
    }
    let s2 = handle_popping(s);
    // The first balloon in iteration order wins; the second stays alive.
    assert_eq!(s2.coins, 31);
    assert_eq!(s2.balloons[0].state, BalloonState::Popped);
    assert_eq!(s2.balloons[1].state, BalloonState::Alive);
}

#[test]
fn cleanup_counts_hit_projectiles_as_pops() {
    // Scenario: nine single-pop frames leave the tower at level one; the
    // tenth pop raises it to level two.
    let mut s = fresh();
    s.towers.push(new_tower(400_000, 300_000));
    for frame in 1..=10u64 {
        s.towers[0]
            .projectiles
            .push(hit_projectile(new_projectile(400_000, 300_000, 1000, 0)));
        s = clean_projectiles(s);
        assert_eq!(s.towers[0].pop_count, frame);
        assert!(s.towers[0].projectiles.is_empty());
        if frame < 10 {
            assert_eq!(s.towers[0].level, 1);
        } else {
            assert_eq!(s.towers[0].level, 2);
        }
    }
}

#[test]
fn cleanup_drops_dead_without_counting_them() {
    let mut s = fresh();
    let mut t = new_tower(400_000, 300_000);
    let mut dead = new_projectile(400_000, 300_000, 1000, 0);
    dead.state = ProjectileState::Dead;
    t.projectiles.push(dead);
    t.projectiles.push(new_projectile(410_000, 300_000, 1000, 0));
    s.towers.push(t);
    let s2 = clean_projectiles(s);
    assert_eq!(s2.towers[0].pop_count, 0);
    assert_eq!(s2.towers[0].level, 1);
    // Only the live projectile survives.
    assert_eq!(s2.towers[0].projectiles.len(), 1);
    assert_eq!(s2.towers[0].projectiles[0].state, ProjectileState::Alive);
}

#[test]
fn escape_accounting_costs_one_life_per_escape() {
    let mut s = fresh();
    // One alive balloon inside, one alive beyond the far bound, one popped.
    s.balloons.push(Balloon {
        position_x: 400_000,
        position_y: 300_000,
        direction: Direction::Right,
        state: BalloonState::Alive,
    });
    s.balloons.push(Balloon {
        position_x: 900_000,
        position_y: 300_000,
        direction: Direction::Right,
        state: BalloonState::Alive,
    });
    s.balloons.push(Balloon {
        position_x: 400_000,
        position_y: 300_000,
        direction: Direction::Right,
        state: BalloonState::Popped,
    });
    let s2 = clear_balloons(s);
    assert_eq!(s2.lives, 2);
    assert!(!s2.game_over);
    // Only the alive, in-bounds balloon survives the cleanup.
    assert_eq!(s2.balloons.len(), 1);
    assert_eq!(s2.balloons[0].position_x, 400_000);
}

#[test]
fn depleted_lives_flip_game_over() {
    let mut s = fresh();
    s.lives = 1;
    s.balloons.push(Balloon {
        position_x: 900_000,
        position_y: 300_000,
        direction: Direction::Right,
        state: BalloonState::Alive,
    });
    let s2 = clear_balloons(s);
    assert_eq!(s2.lives, 0);
    assert!(s2.game_over);
}

#[test]
fn confirming_placement_without_enough_coins_is_a_no_op() {
    // Scenario: coins = 14, tower cost = 15.
    let mut s = fresh();
    s.coins = 14;
    s.is_placing_tower = true;
    s.preview_tower = Some(new_tower(100_000, 100_000));
    let mut k = keys();
    k.place_tower = true;
    k.pointer_x = 100_000;
    k.pointer_y = 100_000;
    let (s2, draws) = update_scene(16, k, s);
    assert_eq!(s2.coins, 14);
    assert!(s2.is_placing_tower);
    assert!(s2.preview_tower.is_some());
    assert!(s2.towers.is_empty());
    // The preview is drawn grayed out: it cannot be afforded.
    assert_eq!(
        draws[2],
        DrawRequest::Circle { x: 100_000, y: 100_000, radius: 50_000, color: ColorId::Gray },
    );
}

#[test]
fn placement_flow_starts_rotates_and_confirms() {
    let s = fresh();
    // Frame 1: start placing at the pointer.
    let mut k1 = keys();
    k1.tower_placement = true;
    k1.pointer_x = 200_000;
    k1.pointer_y = 150_000;
    let (s1, _) = update_scene(0, k1, s);
    assert!(s1.is_placing_tower);
    let p = s1.preview_tower.as_ref().unwrap();
    assert_eq!((p.position_x, p.position_y), (200_000, 150_000));
    assert_eq!(p.angle, 0);
    // Frame 2: hold the clockwise key for 100 ms: 5 mrad/ms.
    let mut k2 = keys();
    k2.rotate_tower_clockwise = true;
    k2.pointer_x = 210_000;
    k2.pointer_y = 160_000;
    let (s2, _) = update_scene(100, k2, s1);
    let p2 = s2.preview_tower.as_ref().unwrap();
    assert_eq!(p2.angle, 500);
    // The preview snaps to the pointer every frame.
    assert_eq!((p2.position_x, p2.position_y), (210_000, 160_000));
    // Frame 3: confirm with enough coins.
    let mut k3 = keys();
    k3.place_tower = true;
    k3.pointer_x = 220_000;
    k3.pointer_y = 170_000;
    let (s3, _) = update_scene(0, k3, s2);
    assert!(!s3.is_placing_tower);
    assert!(s3.preview_tower.is_none());
    assert_eq!(s3.coins, 30 - 15);
    assert_eq!(s3.towers.len(), 1);
    assert_eq!(s3.towers[0].position_x, 220_000);
    assert_eq!(s3.towers[0].angle, 500);
}

#[test]
fn cancel_aborts_placement() {
    let mut s = fresh();
    s.is_placing_tower = true;
    s.preview_tower = Some(new_tower(100_000, 100_000));
    let mut k = keys();
    k.cancel_tower_placement = true;
    let mut draws: Vec<DrawRequest> = Vec::new();
    let s2 = handle_tower_placement(s, k, 16, &mut draws);
    assert!(!s2.is_placing_tower);
    assert!(s2.preview_tower.is_none());
    assert!(draws.is_empty());
}

#[test]
fn full_frame_pops_credits_and_cleans_up() {
    // One frame end to end: projectile on balloon, zero delta.
    let mut s = fresh();
    let mut t = new_tower(400_000, 300_000);
    t.projectiles.push(new_projectile(400_000, 300_000, 1000, 0));
    s.towers.push(t);
    s.balloons.push(Balloon {
        position_x: 420_000,
        position_y: 300_000,
        direction: Direction::Right,
        state: BalloonState::Alive,
    });
    let (s2, _) = update_scene(0, keys(), s);
    assert_eq!(s2.coins, 31);
    assert!(s2.balloons.is_empty());
    assert_eq!(s2.towers[0].pop_count, 1);
    assert!(s2.towers[0].projectiles.is_empty());
    assert_eq!(s2.lives, 3);
}

#[test]
fn game_over_frame_ignores_everything_but_reset() {
    let mut s = fresh();
    s.game_over = true;
    s.lives = 0;
    s.coins = 77;
    let (s2, draws) = update_scene(16, keys(), s);
    assert!(s2.game_over);
    assert_eq!(s2.coins, 77);
    assert_eq!(
        draws,
        vec![
            DrawRequest::Clear { color: ColorId::LightGray },
            DrawRequest::Clear { color: ColorId::White },
            DrawRequest::Text {
                kind: TextKind::GameOver,
                x: WIDTH / 2,
                y: HEIGHT / 2,
                size: 30_000,
                color: ColorId::DarkGray,
            },
        ],
    );
    let mut k = keys();
    k.reset = true;
    let (s3, _) = update_scene(16, k, s2);
    assert!(!s3.game_over);
    assert_eq!(s3.coins, 30);
    assert_eq!(s3.lives, 3);
}

#[test]
fn empty_playing_frame_draws_background_and_statistics() {
    let (s2, draws) = update_scene(16, keys(), fresh());
    assert_eq!(s2.spawn_timer, 16);
    assert_eq!(
        draws,
        vec![
            DrawRequest::Clear { color: ColorId::LightGray },
            DrawRequest::Background,
            DrawRequest::Text {
                kind: TextKind::Coins(30),
                x: 10_000,
                y: 32_000,
                size: 32_000,
                color: ColorId::White,
            },
            DrawRequest::Text {
                kind: TextKind::Lives(3),
                x: 10_000,
                y: 64_000,
                size: 32_000,
                color: ColorId::White,
            },
        ],
    );
}

#[test]
fn large_delta_spawns_catch_up_instead_of_starving() {
    // A 5.5 second stall: five spawn periods are crossed at once.
    let (s2, _) = update_scene(5500, keys(), fresh());
    // The balloons spawned this frame also moved this frame and escaped
    // (825 units of travel from the 144-unit entry crosses the 872-unit
    // bound), so five lives would be lost — the game is over.
    assert!(s2.game_over);
    assert_eq!(s2.lives, 3 - 5);
    assert!(s2.balloons.is_empty());
}

#[test]
fn invariants_hold_across_many_frames() {
    let mut s = fresh();
    let mut saw_game_over = false;
    for _ in 0..40 {
        let (next, _) = update_scene(700, keys(), s);
        s = next;
        // After any frame, placement flag and preview agree, and depleted
        // lives imply game over.
        assert_eq!(s.is_placing_tower, s.preview_tower.is_some());
        if s.lives <= 0 {
            assert!(s.game_over);
        }
        if s.game_over {
            saw_game_over = true;
        }
    }
    // With no towers the balloons drain all three lives within 28 seconds.
    assert!(saw_game_over);
    assert!(s.lives <= 0);
}

#[test]
fn populated_frame_draws_towers_then_balloons_then_statistics() {
    let mut s = fresh();
    s.towers.push(new_tower(200_000, 300_000));
    s.balloons.push(Balloon {
        position_x: 500_000,
        position_y: 300_000,
        direction: Direction::Right,
        state: BalloonState::Alive,
    });
    let (_, draws) = update_scene(0, keys(), s);
    assert_eq!(draws[0], DrawRequest::Clear { color: ColorId::LightGray });
    assert_eq!(draws[1], DrawRequest::Background);
    // The level-one tower: blue body, facing line two radii to the right.
    assert_eq!(
        draws[2],
        DrawRequest::Circle { x: 200_000, y: 300_000, radius: 50_000, color: ColorId::Blue },
    );
    assert_eq!(
        draws[3],
        DrawRequest::Line {
            x1: 200_000,
            y1: 300_000,
            x2: 300_000,
            y2: 300_000,
            color: ColorId::Blue,
        },
    );
    // The balloon: its sprite over the full size, then its collider circle.
    assert_eq!(
        draws[4],
        DrawRequest::BalloonSprite { x: 500_000 - 72_000, y: 300_000 - 72_000, width: 144_000, height: 144_000 },
    );
    assert_eq!(
        draws[5],
        DrawRequest::CircleLines { x: 500_000, y: 300_000, radius: 72_000, color: ColorId::Red },
    );
    assert!(matches!(draws[6], DrawRequest::Text { kind: TextKind::Coins(30), .. }));
    assert!(matches!(draws[7], DrawRequest::Text { kind: TextKind::Lives(3), .. }));
    assert_eq!(draws.len(), 8);
}

#[test]
fn fired_projectile_travels_and_pops_downrange_balloon() {
    // A tower facing right fires on the first frame; the projectile then
    // flies into a balloon two frames later.
    let mut s = fresh();
    s.towers.push(new_tower(100_000, 300_000));
    s.balloons.push(Balloon {
        position_x: 600_000,
        position_y: 300_000,
        direction: Direction::Left,
        state: BalloonState::Alive,
    });
    // Frame 1 (16 ms): the tower fires; the projectile moves 8 units.
    let (s1, _) = update_scene(16, keys(), s);
    assert_eq!(s1.towers[0].projectiles.len(), 1);
    assert_eq!(s1.towers[0].projectiles[0].position_x, 108_000);
    // The balloon moved left 2.4 units.
    assert_eq!(s1.balloons[0].position_x, 597_600);
    // Frame 2 (800 ms): projectile reaches 508 units; balloon at 477.6
    // units; their distance (30.4 units) is within the 87-unit range.
    let (s2, _) = update_scene(800, keys(), s1);
    assert_eq!(s2.coins, 31);
    assert!(s2.balloons.is_empty());
    assert_eq!(s2.towers[0].pop_count, 1);
}
