use balloons::balloon::{has_escaped, new_balloon, update_balloon, Balloon, BalloonState, Direction};
use balloons::config::standard_config;
use balloons::draw::{tower_color, ColorId};
use balloons::projectile::{
    check_collision, hit_projectile, is_projectile_alive, is_projectile_hit, new_projectile,
    update_projectile, ProjectileState,
};
use balloons::tower::{increase_tower_pop_count, new_tower, update_tower};
use balloons::trig::{cos_milli, heading_of, rotate_angle, sin_milli, TAU_MRAD};

const WIDTH: i64 = 800_000;
const HEIGHT: i64 = 600_000;

#[test]
fn balloon_spawns_at_lane_entry() {
    let c = standard_config(WIDTH, HEIGHT);
    let b = new_balloon(&c);
    assert_eq!(b.position_x, 144_000);
    assert_eq!(b.position_y, 300_000);
    assert_eq!(b.direction, Direction::Right);
    assert_eq!(b.state, BalloonState::Alive);
}

#[test]
fn balloon_moves_right_at_fixed_speed() {
    let c = standard_config(WIDTH, HEIGHT);
    let b = new_balloon(&c);
    // 150 units/s for 1 s = 150 units = 150_000 milliunits.
    let b2 = update_balloon(b, &c, 1000);
    assert_eq!(b2.position_x, 144_000 + 150_000);
    assert_eq!(b2.position_y, 300_000);
    assert_eq!(b2.state, BalloonState::Alive);
}

#[test]
fn balloon_moves_left_when_directed_left() {
    let c = standard_config(WIDTH, HEIGHT);
    let b = Balloon { direction: Direction::Left, ..new_balloon(&c) };
    let b2 = update_balloon(b, &c, 100);
    assert_eq!(b2.position_x, 144_000 - 15_000);
}

#[test]
fn balloon_escapes_only_beyond_extended_bounds() {
    let c = standard_config(WIDTH, HEIGHT);
    // The bound is extended by the collider radius (half of 144 units).
    let at_edge = Balloon { position_x: WIDTH + 72_000, ..new_balloon(&c) };
    assert!(!has_escaped(at_edge, &c));
    let past_edge = Balloon { position_x: WIDTH + 72_001, ..new_balloon(&c) };
    assert!(has_escaped(past_edge, &c));
    let past_left = Balloon { position_x: -72_001, ..new_balloon(&c) };
    assert!(has_escaped(past_left, &c));
    let at_left = Balloon { position_x: -72_000, ..new_balloon(&c) };
    assert!(!has_escaped(at_left, &c));
}

#[test]
fn balloon_entering_from_spawn_eventually_escapes() {
    let c = standard_config(WIDTH, HEIGHT);
    let mut b = new_balloon(&c);
    // 4854 ms at 150 milliunits per ms crosses the far boundary.
    b = update_balloon(b, &c, 4854);
    assert_eq!(b.position_x, 144_000 + 150 * 4854);
    assert!(has_escaped(b, &c));
}

#[test]
fn projectile_moves_along_heading() {
    let c = standard_config(WIDTH, HEIGHT);
    let p = new_projectile(400_000, 300_000, 1000, 0);
    let p2 = update_projectile(p, &c, 100);
    // 500 units/s for 100 ms = 50 units = 50_000 milliunits.
    assert_eq!(p2.position_x, 450_000);
    assert_eq!(p2.position_y, 300_000);
    assert_eq!(p2.state, ProjectileState::Alive);
}

#[test]
fn projectile_dies_from_pre_move_position_only() {
    let c = standard_config(WIDTH, HEIGHT);
    let p = new_projectile(799_000, 300_000, 1000, 0);
    // The move carries it out of bounds, but the pre-move position was
    // inside, so it stays alive this frame.
    let p2 = update_projectile(p, &c, 1000);
    assert_eq!(p2.position_x, 1_299_000);
    assert_eq!(p2.state, ProjectileState::Alive);
    // Next frame the pre-move position is outside: it dies, and still moves.
    let p3 = update_projectile(p2, &c, 1000);
    assert_eq!(p3.position_x, 1_799_000);
    assert_eq!(p3.state, ProjectileState::Dead);
}

#[test]
fn projectile_diagonal_step_scales_by_per_mille_heading() {
    let c = standard_config(WIDTH, HEIGHT);
    let p = new_projectile(400_000, 300_000, -707, 707);
    let p2 = update_projectile(p, &c, 1000);
    // dir(-707) * speed(500) * dt(1000) / 1000 = -353_500 milliunits.
    assert_eq!(p2.position_x, 400_000 - 353_500);
    assert_eq!(p2.position_y, 300_000 + 353_500);
}

#[test]
fn projectile_state_predicates() {
    let p = new_projectile(0, 0, 1000, 0);
    assert!(is_projectile_alive(&p));
    assert!(!is_projectile_hit(&p));
    let h = hit_projectile(p);
    assert!(!is_projectile_alive(&h));
    assert!(is_projectile_hit(&h));
    assert_eq!(h.state, ProjectileState::Hit);
}

#[test]
fn collision_requires_both_axes_within_range() {
    let c = standard_config(WIDTH, HEIGHT);
    let b = Balloon {
        position_x: 400_000,
        position_y: 300_000,
        direction: Direction::Right,
        state: BalloonState::Alive,
    };
    // Range is balloon collider (72) + projectile radius (15) = 87 units.
    let exactly = new_projectile(400_000 + 87_000, 300_000, 1000, 0);
    assert!(check_collision(exactly, b, &c));
    let past_x = new_projectile(400_000 + 87_001, 300_000, 1000, 0);
    assert!(!check_collision(past_x, b, &c));
    let past_y = new_projectile(400_000, 300_000 + 87_001, 1000, 0);
    assert!(!check_collision(past_y, b, &c));
    let corner = new_projectile(400_000 + 87_000, 300_000 - 87_000, 1000, 0);
    assert!(check_collision(corner, b, &c));
}

#[test]
fn tower_first_tick_fires_once_and_recovers_cooldown() {
    // A fresh tower has cooldown zero: the first tick with any positive
    // delta fires exactly one projectile and leaves 2.0/level minus delta.
    let t = new_tower(100_000, 200_000);
    assert_eq!(t.shot_cooldown, 0);
    let t2 = update_tower(t, 16);
    assert_eq!(t2.projectiles.len(), 1);
    assert_eq!(t2.shot_cooldown, 2000 - 16);
    let p = t2.projectiles[0];
    assert_eq!(p.position_x, 100_000);
    assert_eq!(p.position_y, 200_000);
    // Angle zero: heading is the unit vector (1, 0) in per-mille.
    assert_eq!(p.direction_x, 1000);
    assert_eq!(p.direction_y, 0);
    assert_eq!(p.state, ProjectileState::Alive);
}

#[test]
fn tower_fires_at_most_once_per_tick() {
    let t = new_tower(100_000, 200_000);
    // A huge delta crosses many periods, but only one projectile appears.
    let t2 = update_tower(t, 10_000);
    assert_eq!(t2.projectiles.len(), 1);
    assert_eq!(t2.shot_cooldown, 2000 - 10_000);
}

#[test]
fn tower_does_not_fire_while_cooldown_holds() {
    let t = new_tower(100_000, 200_000);
    let t2 = update_tower(t, 0);
    assert_eq!(t2.projectiles.len(), 0);
    assert_eq!(t2.shot_cooldown, 0);
    let t3 = update_tower(t2, 1);
    assert_eq!(t3.projectiles.len(), 1);
    let t4 = update_tower(t3, 100);
    assert_eq!(t4.projectiles.len(), 1);
    assert_eq!(t4.shot_cooldown, 2000 - 1 - 100);
}

#[test]
fn higher_level_shortens_fire_period() {
    let mut t = new_tower(100_000, 200_000);
    t.level = 4;
    let t2 = update_tower(t, 10);
    assert_eq!(t2.shot_cooldown, 2000 / 4 - 10);
}

#[test]
fn pop_count_levels_up_on_exact_multiples_of_ten() {
    let mut t = new_tower(0, 0);
    for expected in 1..=9u64 {
        t = increase_tower_pop_count(t, 1);
        assert_eq!(t.pop_count, expected);
        assert_eq!(t.level, 1);
    }
    t = increase_tower_pop_count(t, 1);
    assert_eq!(t.pop_count, 10);
    assert_eq!(t.level, 2);
}

#[test]
fn pop_count_jump_across_multiples_levels_up_at_most_once() {
    let mut t = new_tower(0, 0);
    t = increase_tower_pop_count(t, 9);
    assert_eq!(t.level, 1);
    // 9 + 12 = 21 crosses both 10 and 20, but 21 is no exact multiple:
    // the level does not move.
    t = increase_tower_pop_count(t, 12);
    assert_eq!(t.pop_count, 21);
    assert_eq!(t.level, 1);
    // A jump landing exactly on a multiple levels up by one, not by two.
    let mut u = new_tower(0, 0);
    u = increase_tower_pop_count(u, 20);
    assert_eq!(u.pop_count, 20);
    assert_eq!(u.level, 2);
}

#[test]
fn heading_is_exact_at_quarter_turns() {
    assert_eq!(heading_of(0), (1000, 0));
    assert_eq!(sin_milli(1571), 1000);
    assert_eq!(cos_milli(1571), 0);
    assert_eq!(sin_milli(3142), 0);
    assert_eq!(cos_milli(3142), -1000);
    assert_eq!(sin_milli(3142 + 1571), -1000);
}

#[test]
fn heading_components_stay_per_mille() {
    let mut a: i64 = 0;
    while a < TAU_MRAD {
        let (x, y) = heading_of(a);
        assert!((-1000..=1000).contains(&x));
        assert!((-1000..=1000).contains(&y));
        a += 37;
    }
}

#[test]
fn rotation_wraps_around_the_turn() {
    // 5 mrad per ms for 1000 ms = 5000 mrad clockwise.
    assert_eq!(rotate_angle(0, 1000, true), 5000);
    assert_eq!(rotate_angle(5000, 1000, true), (5000 + 5000) % TAU_MRAD);
    // Counter-clockwise from zero wraps below.
    assert_eq!(rotate_angle(0, 1000, false), TAU_MRAD - 5000);
    assert_eq!(rotate_angle(6000, 1000, false), 1000);
}

#[test]
fn tower_palette_clamps_at_level_five() {
    assert_eq!(tower_color(1, false), ColorId::Blue);
    assert_eq!(tower_color(2, false), ColorId::Green);
    assert_eq!(tower_color(3, false), ColorId::Yellow);
    assert_eq!(tower_color(4, false), ColorId::Orange);
    assert_eq!(tower_color(5, false), ColorId::Red);
    assert_eq!(tower_color(7, false), ColorId::Red);
    assert_eq!(tower_color(1, true), ColorId::Gray);
}
