//! Fixed-point trigonometry on milliradian angles.
//!
//! A full turn is `TAU_MRAD` milliradians. The sine of an angle is
//! approximated by the parabola `x * (PI_MRAD - x) * 4000 / PI_MRAD^2` over
//! each half turn, scaled so that results lie in `[-1000, 1000]` per-mille:
//! the classic quadratic approximation used by fixed-point game code. It is
//! exact at every quarter turn.

use vstd::arithmetic::div_mod::lemma_fundamental_div_mod_converse_mod;
use vstd::arithmetic::div_mod::lemma_small_mod;
use vstd::prelude::*;

verus! {

/// One full turn in milliradians.
pub const TAU_MRAD: i64 = 6284;

/// Half a turn in milliradians.
pub const PI_MRAD: i64 = 3142;

/// A quarter turn in milliradians.
pub const HALF_PI_MRAD: i64 = 1571;

/// `PI_MRAD` squared, the denominator of the half-wave parabola.
pub const PI_MRAD_SQ: u64 = 9_872_164;

/// The parabolic half wave: per-mille sine of `x` for `x` in `[0, PI_MRAD]`.
pub open spec fn spec_half_wave(x: int) -> int {
    (x * (PI_MRAD - x) * 4000) / (PI_MRAD_SQ as int)
}

/// Per-mille sine of a normalized angle in `[0, TAU_MRAD)`.
pub open spec fn spec_sin_milli(a: int) -> int {
    if a < PI_MRAD {
        spec_half_wave(a)
    } else {
        -spec_half_wave(a - PI_MRAD)
    }
}

/// Per-mille cosine of a normalized angle: the sine a quarter turn ahead.
pub open spec fn spec_cos_milli(a: int) -> int {
    spec_sin_milli((a + HALF_PI_MRAD) % (TAU_MRAD as int))
}

/// The half-wave parabola peaks at the quarter turn and stays within
/// `[0, 1000]` over `[0, PI_MRAD]`.
proof fn lemma_half_wave_bounds(x: int)
    requires
        0 <= x <= PI_MRAD,
    ensures
        0 <= spec_half_wave(x) <= 1000,
{
    assert(0 <= x * (PI_MRAD - x) <= HALF_PI_MRAD * HALF_PI_MRAD) by (nonlinear_arith)
        requires
            0 <= x <= PI_MRAD,
    {
        assert((HALF_PI_MRAD - x) * (HALF_PI_MRAD - x) >= 0);
    }
    assert(x * (PI_MRAD - x) * 4000 <= 9_872_164_000) by (nonlinear_arith)
        requires
            x * (PI_MRAD - x) <= HALF_PI_MRAD * HALF_PI_MRAD,
    ;
    assert(x * (PI_MRAD - x) * 4000 >= 0) by (nonlinear_arith)
        requires
            x * (PI_MRAD - x) >= 0,
    ;
    assert(9_872_164_000int / (PI_MRAD_SQ as int) == 1000);
    vstd::arithmetic::div_mod::lemma_div_is_ordered(
        x * (PI_MRAD - x) * 4000,
        9_872_164_000,
        PI_MRAD_SQ as int,
    );
    vstd::arithmetic::div_mod::lemma_div_pos_is_pos(x * (PI_MRAD - x) * 4000, PI_MRAD_SQ as int);
}

/// The per-mille sine of a normalized angle stays within one unit.
pub proof fn lemma_sin_milli_bounds(a: int)
    requires
        0 <= a < TAU_MRAD,
    ensures
        -1000 <= spec_sin_milli(a) <= 1000,
{
    if a < PI_MRAD {
        lemma_half_wave_bounds(a);
    } else {
        lemma_half_wave_bounds(a - PI_MRAD);
    }
}

/// The per-mille cosine of a normalized angle stays within one unit.
pub proof fn lemma_cos_milli_bounds(a: int)
    requires
        0 <= a < TAU_MRAD,
    ensures
        -1000 <= spec_cos_milli(a) <= 1000,
{
    vstd::arithmetic::div_mod::lemma_mod_division_less_than_divisor(
        a + HALF_PI_MRAD,
        TAU_MRAD as int,
    );
    lemma_sin_milli_bounds((a + HALF_PI_MRAD) % (TAU_MRAD as int));
}

/// The half-wave parabola, computed exactly as `spec_half_wave` states.
fn half_wave(x: i64) -> (r: i64)
    requires
        0 <= x <= PI_MRAD,
    ensures
        r == spec_half_wave(x as int),
        0 <= r <= 1000,
{
    proof {
        lemma_half_wave_bounds(x as int);
    }
    let num = (x as u64) * ((PI_MRAD - x) as u64) * 4000;
    (num / PI_MRAD_SQ) as i64
}

/// Per-mille sine of a normalized milliradian angle.
pub fn sin_milli(a: i64) -> (r: i64)
    requires
        0 <= a < TAU_MRAD,
    ensures
        r == spec_sin_milli(a as int),
        -1000 <= r <= 1000,
{
    if a < PI_MRAD {
        half_wave(a)
    } else {
        -half_wave(a - PI_MRAD)
    }
}

/// Per-mille cosine of a normalized milliradian angle.
pub fn cos_milli(a: i64) -> (r: i64)
    requires
        0 <= a < TAU_MRAD,
    ensures
        r == spec_cos_milli(a as int),
        -1000 <= r <= 1000,
{
    let shifted = a + HALF_PI_MRAD;
    let b = if shifted >= TAU_MRAD {
        shifted - TAU_MRAD
    } else {
        shifted
    };
    proof {
        lemma_wrap_once(shifted as int);
    }
    sin_milli(b)
}

/// For a value less than two turns, wrapping by a single conditional
/// subtraction computes the Euclidean remainder by `TAU_MRAD`.
proof fn lemma_wrap_once(v: int)
    requires
        0 <= v < 2 * TAU_MRAD,
    ensures
        v % (TAU_MRAD as int) == if v >= TAU_MRAD { v - TAU_MRAD } else { v },
{
    if v >= TAU_MRAD {
        lemma_fundamental_div_mod_converse_mod(v, TAU_MRAD as int, 1, v - TAU_MRAD);
    } else {
        lemma_small_mod(v as nat, TAU_MRAD as nat);
    }
}

/// The new preview angle after one frame of rotation input: the rotation
/// speed times the delta, reduced to one turn and applied to the normalized
/// angle, which wraps around either end of `[0, TAU_MRAD)`.
pub open spec fn spec_rotate_angle(a: int, delta_time: int, clockwise: bool) -> int {
    let d = (crate::config::ROTATE_SPEED * delta_time) % (TAU_MRAD as int);
    if clockwise {
        (a + d) % (TAU_MRAD as int)
    } else if a >= d {
        a - d
    } else {
        a + TAU_MRAD - d
    }
}

/// Rotates a normalized preview angle by one frame's worth of rotation,
/// clockwise or counter-clockwise.
pub fn rotate_angle(a: i64, delta_time: u32, clockwise: bool) -> (r: i64)
    requires
        0 <= a < TAU_MRAD,
    ensures
        r == spec_rotate_angle(a as int, delta_time as int, clockwise),
        0 <= r < TAU_MRAD,
{
    let speed = crate::config::ROTATE_SPEED as u64;
    assert(speed == 5);
    let raw = speed * (delta_time as u64);
    let d = (raw % (TAU_MRAD as u64)) as i64;
    if clockwise {
        let s = a + d;
        proof {
            lemma_wrap_once(s as int);
        }
        if s >= TAU_MRAD {
            s - TAU_MRAD
        } else {
            s
        }
    } else {
        if a >= d {
            a - d
        } else {
            a + TAU_MRAD - d
        }
    }
}

/// The per-mille unit vector a normalized angle points along: cosine for the
/// horizontal component, sine for the vertical.
pub fn heading_of(a: i64) -> (r: (i64, i64))
    requires
        0 <= a < TAU_MRAD,
    ensures
        r.0 == spec_cos_milli(a as int),
        r.1 == spec_sin_milli(a as int),
        -1000 <= r.0 <= 1000,
        -1000 <= r.1 <= 1000,
{
    (cos_milli(a), sin_milli(a))
}

} // verus!
