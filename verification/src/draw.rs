//! Draw requests: the render side channel the simulation emits each frame.
//!
//! The core never draws; it describes what to draw as plain data — sprite
//! here, circle there, this text — and the driver turns each request into
//! actual rendering. Colors are symbolic; coordinates are milliunits.

use crate::balloon::Balloon;
use crate::balloon::BalloonView;
use crate::config::Config;
use crate::config::TOWER_SIZE;
use crate::projectile::Projectile;
use crate::projectile::ProjectileView;
use crate::tower::Tower;
use crate::tower::TowerView;
use crate::trig::spec_cos_milli;
use crate::trig::spec_sin_milli;
use crate::trig::TAU_MRAD;
use vstd::prelude::*;

verus! {

/// A symbolic color; the driver maps each to its palette value.
#[derive(Clone, Copy, PartialEq, Eq, Structural, Debug)]
pub enum ColorId {
    White,
    LightGray,
    Gray,
    DarkGray,
    Blue,
    Green,
    Yellow,
    Orange,
    Red,
}

/// Which text a text request shows; numeric statistics ride along as values
/// and the driver does the formatting.
#[derive(Clone, Copy, PartialEq, Eq, Structural, Debug)]
pub enum TextKind {
    Coins(u64),
    Lives(i64),
    GameOver,
}

/// One draw request. Coordinates and sizes are milliunits; `Sprite`
/// positions give the top-left corner, circles and lines are center-based.
#[derive(Clone, Copy, PartialEq, Eq, Structural, Debug)]
pub enum DrawRequest {
    /// Fill the screen with a color.
    Clear { color: ColorId },
    /// Draw the background image over the full play area.
    Background,
    /// Draw the balloon sprite stretched to the given rectangle.
    BalloonSprite { x: i64, y: i64, width: i64, height: i64 },
    /// Draw a filled circle.
    Circle { x: i64, y: i64, radius: i64, color: ColorId },
    /// Draw a circle outline.
    CircleLines { x: i64, y: i64, radius: i64, color: ColorId },
    /// Draw a line segment.
    Line { x1: i64, y1: i64, x2: i64, y2: i64, color: ColorId },
    /// Draw a text at the given position and font size.
    Text { kind: TextKind, x: i64, y: i64, size: i64, color: ColorId },
}

/// The mathematical value of a [`DrawRequest`]: the same shape over `int`.
pub ghost enum DrawView {
    Clear { color: ColorId },
    Background,
    BalloonSprite { x: int, y: int, width: int, height: int },
    Circle { x: int, y: int, radius: int, color: ColorId },
    CircleLines { x: int, y: int, radius: int, color: ColorId },
    Line { x1: int, y1: int, x2: int, y2: int, color: ColorId },
    Text { kind: TextKind, x: int, y: int, size: int, color: ColorId },
}

impl View for DrawRequest {
    type V = DrawView;

    open spec fn view(&self) -> DrawView {
        match *self {
            DrawRequest::Clear { color } => DrawView::Clear { color },
            DrawRequest::Background => DrawView::Background,
            DrawRequest::BalloonSprite { x, y, width, height } => DrawView::BalloonSprite {
                x: x as int,
                y: y as int,
                width: width as int,
                height: height as int,
            },
            DrawRequest::Circle { x, y, radius, color } => DrawView::Circle {
                x: x as int,
                y: y as int,
                radius: radius as int,
                color,
            },
            DrawRequest::CircleLines { x, y, radius, color } => DrawView::CircleLines {
                x: x as int,
                y: y as int,
                radius: radius as int,
                color,
            },
            DrawRequest::Line { x1, y1, x2, y2, color } => DrawView::Line {
                x1: x1 as int,
                y1: y1 as int,
                x2: x2 as int,
                y2: y2 as int,
                color,
            },
            DrawRequest::Text { kind, x, y, size, color } => DrawView::Text {
                kind,
                x: x as int,
                y: y as int,
                size: size as int,
                color,
            },
        }
    }
}

/// The views of a list of requests, in order.
pub open spec fn spec_draws(v: Seq<DrawRequest>) -> Seq<DrawView> {
    v.map_values(|d: DrawRequest| d@)
}

/// The two clears the playing frame starts with, then the background image.
pub open spec fn spec_draw_background() -> Seq<DrawView> {
    seq![DrawView::Clear { color: ColorId::LightGray }, DrawView::Background]
}

/// A balloon's draws: its sprite stretched over its full size, centered on
/// the lane's center line, and its collider circle outline for debugging.
pub open spec fn spec_draw_balloon(b: BalloonView, c: Config) -> Seq<DrawView> {
    let size = c.balloon_size as int;
    let mid = c.height as int / 2;
    seq![
        DrawView::BalloonSprite {
            x: b.position_x - size / 2,
            y: mid - size / 2,
            width: size,
            height: size,
        },
        DrawView::CircleLines {
            x: b.position_x,
            y: mid,
            radius: c.spec_balloon_collider(),
            color: ColorId::Red,
        },
    ]
}

/// A projectile's draw: a filled circle of its radius.
pub open spec fn spec_draw_projectile(p: ProjectileView, c: Config) -> Seq<DrawView> {
    seq![
        DrawView::Circle {
            x: p.position_x,
            y: p.position_y,
            radius: c.projectile_size as int,
            color: ColorId::Orange,
        },
    ]
}

/// The level palette: five steps from blue to red, clamped at five and
/// above; gray when the tower is shown disabled.
pub open spec fn spec_tower_color(level: int, disabled: bool) -> ColorId {
    if disabled {
        ColorId::Gray
    } else if level == 1 {
        ColorId::Blue
    } else if level == 2 {
        ColorId::Green
    } else if level == 3 {
        ColorId::Yellow
    } else if level == 4 {
        ColorId::Orange
    } else {
        ColorId::Red
    }
}

/// A tower's draws: its body circle and a facing line twice its radius long.
pub open spec fn spec_draw_tower(t: TowerView, disabled: bool) -> Seq<DrawView> {
    let color = spec_tower_color(t.level, disabled);
    seq![
        DrawView::Circle { x: t.position_x, y: t.position_y, radius: TOWER_SIZE as int, color },
        DrawView::Line {
            x1: t.position_x,
            y1: t.position_y,
            x2: t.position_x + crate::arith::spec_div_milli(
                spec_cos_milli(t.angle) * (2 * TOWER_SIZE as int),
            ),
            y2: t.position_y + crate::arith::spec_div_milli(
                spec_sin_milli(t.angle) * (2 * TOWER_SIZE as int),
            ),
            color,
        },
    ]
}

/// The statistics texts: current coins and lives, top-left corner.
pub open spec fn spec_draw_statistics(coins: int, lives: int) -> Seq<DrawView> {
    seq![
        DrawView::Text {
            kind: TextKind::Coins(coins as u64),
            x: 10_000,
            y: 32_000,
            size: 32_000,
            color: ColorId::White,
        },
        DrawView::Text {
            kind: TextKind::Lives(lives as i64),
            x: 10_000,
            y: 64_000,
            size: 32_000,
            color: ColorId::White,
        },
    ]
}

/// The game-over screen: a white clear and the centered message.
pub open spec fn spec_draw_game_over(c: Config) -> Seq<DrawView> {
    seq![
        DrawView::Clear { color: ColorId::LightGray },
        DrawView::Clear { color: ColorId::White },
        DrawView::Text {
            kind: TextKind::GameOver,
            x: c.width as int / 2,
            y: c.height as int / 2,
            size: 30_000,
            color: ColorId::DarkGray,
        },
    ]
}

/// Emits the frame-opening clear and background requests.
pub fn draw_background(out: &mut Vec<DrawRequest>)
    ensures
        spec_draws(final(out)@) == spec_draws(old(out)@) + spec_draw_background(),
{
    out.push(DrawRequest::Clear { color: ColorId::LightGray });
    out.push(DrawRequest::Background);
    proof {
        assert(spec_draws(out@) =~= spec_draws(old(out)@) + spec_draw_background());
    }
}

/// Emits a balloon's sprite and collider-debug requests.
pub fn draw_balloon(balloon: Balloon, c: &Config, out: &mut Vec<DrawRequest>)
    requires
        c.wf(),
        -4 * crate::config::MAX_STEP <= balloon.position_x <= 4 * crate::config::MAX_STEP,
    ensures
        spec_draws(final(out)@) == spec_draws(old(out)@) + spec_draw_balloon(balloon@, *c),
{
    let half_size = crate::arith::half(c.balloon_size);
    let mid = crate::arith::half(c.height);
    out.push(DrawRequest::BalloonSprite {
        x: balloon.position_x - half_size,
        y: mid - half_size,
        width: c.balloon_size,
        height: c.balloon_size,
    });
    out.push(DrawRequest::CircleLines {
        x: balloon.position_x,
        y: mid,
        radius: c.balloon_collider(),
        color: ColorId::Red,
    });
    proof {
        assert(spec_draws(out@) =~= spec_draws(old(out)@) + spec_draw_balloon(balloon@, *c));
    }
}

/// Emits a projectile's circle request.
pub fn draw_projectile(projectile: Projectile, c: &Config, out: &mut Vec<DrawRequest>)
    requires
        c.wf(),
    ensures
        spec_draws(final(out)@) == spec_draws(old(out)@) + spec_draw_projectile(projectile@, *c),
{
    out.push(DrawRequest::Circle {
        x: projectile.position_x,
        y: projectile.position_y,
        radius: c.projectile_size,
        color: ColorId::Orange,
    });
    proof {
        assert(spec_draws(out@) =~= spec_draws(old(out)@) + spec_draw_projectile(projectile@, *c));
    }
}

/// The level palette color, or gray when shown disabled.
pub fn tower_color(level: u32, disabled: bool) -> (r: ColorId)
    ensures
        r == spec_tower_color(level as int, disabled),
{
    if disabled {
        ColorId::Gray
    } else {
        match level {
            1 => ColorId::Blue,
            2 => ColorId::Green,
            3 => ColorId::Yellow,
            4 => ColorId::Orange,
            _ => ColorId::Red,
        }
    }
}

/// Emits a tower's body circle and facing line; `disabled` grays a preview
/// the player cannot afford.
pub fn draw_tower(tower: &Tower, disabled: bool, out: &mut Vec<DrawRequest>)
    requires
        0 <= tower.angle < TAU_MRAD,
        -crate::config::MAX_DIM <= tower.position_x <= crate::config::MAX_DIM,
        -crate::config::MAX_DIM <= tower.position_y <= crate::config::MAX_DIM,
    ensures
        spec_draws(final(out)@) == spec_draws(old(out)@) + spec_draw_tower(tower@, disabled),
{
    let color = tower_color(tower.level, disabled);
    let heading = crate::trig::heading_of(tower.angle);
    out.push(DrawRequest::Circle {
        x: tower.position_x,
        y: tower.position_y,
        radius: TOWER_SIZE,
        color,
    });
    let reach_x = crate::arith::div_milli(heading.0 * (2 * TOWER_SIZE));
    let reach_y = crate::arith::div_milli(heading.1 * (2 * TOWER_SIZE));
    out.push(DrawRequest::Line {
        x1: tower.position_x,
        y1: tower.position_y,
        x2: tower.position_x + reach_x,
        y2: tower.position_y + reach_y,
        color,
    });
    proof {
        assert(spec_draws(out@) =~= spec_draws(old(out)@) + spec_draw_tower(tower@, disabled));
    }
}

/// Emits the coins and lives statistics texts.
pub fn draw_statistics(coins: u64, lives: i64, out: &mut Vec<DrawRequest>)
    ensures
        spec_draws(final(out)@) == spec_draws(old(out)@) + spec_draw_statistics(
            coins as int,
            lives as int,
        ),
{
    out.push(DrawRequest::Text {
        kind: TextKind::Coins(coins),
        x: 10_000,
        y: 32_000,
        size: 32_000,
        color: ColorId::White,
    });
    out.push(DrawRequest::Text {
        kind: TextKind::Lives(lives),
        x: 10_000,
        y: 64_000,
        size: 32_000,
        color: ColorId::White,
    });
    proof {
        assert(spec_draws(out@) =~= spec_draws(old(out)@) + spec_draw_statistics(
            coins as int,
            lives as int,
        ));
    }
}

/// Emits the game-over screen requests.
pub fn draw_game_over(c: &Config, out: &mut Vec<DrawRequest>)
    requires
        c.wf(),
    ensures
        spec_draws(final(out)@) == spec_draws(old(out)@) + spec_draw_game_over(*c),
{
    out.push(DrawRequest::Clear { color: ColorId::LightGray });
    out.push(DrawRequest::Clear { color: ColorId::White });
    out.push(DrawRequest::Text {
        kind: TextKind::GameOver,
        x: crate::arith::half(c.width),
        y: crate::arith::half(c.height),
        size: 30_000,
        color: ColorId::DarkGray,
    });
    proof {
        assert(spec_draws(out@) =~= spec_draws(old(out)@) + spec_draw_game_over(*c));
    }
}

} // verus!
