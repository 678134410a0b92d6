use vstd::prelude::*;
use crate::geometry::{dist_sq, floor_sqrt, isqrt, Vec2i};

verus! {

/// Lower edge of the dead zone, in thousandths of half the viewport height.
pub const MIN_THRESHOLD: u64 = 200;

/// Saturation point, in thousandths of half the viewport height.
pub const MAX_THRESHOLD: u64 = 700;

/// Full power, and the farthest reach, in thousandths.
pub const FULL_POWER: u64 = 1000;

/// Launch power, in thousandths, for a drag reach `x` given in thousandths of
/// half the viewport height.
pub open spec fn power_of(x: int) -> int {
    if x <= MIN_THRESHOLD {
        0
    } else if x >= MAX_THRESHOLD {
        FULL_POWER as int
    } else {
        (x - MIN_THRESHOLD) * FULL_POWER / (MAX_THRESHOLD - MIN_THRESHOLD)
    }
}

/// How far a drag reaches, in thousandths of half the viewport height
/// (rounded down, capped at one half height), for a squared screen distance
/// `q` on a viewport `height` pixels tall.
pub open spec fn reach_of(q: nat, height: nat) -> int {
    let x = floor_sqrt(4_000_000 * q) as int / height as int;
    if x <= FULL_POWER { x } else { FULL_POWER as int }
}

/// Maps a drag reach (thousandths of half the viewport height) to a launch
/// power in thousandths: nothing in the dead zone, full power past the
/// saturation point, and a linear ramp between.
pub fn power(x: u64) -> (r: u64)
    ensures
        r == power_of(x as int),
        r <= FULL_POWER,
{
    if x <= MIN_THRESHOLD {
        0
    } else if x >= MAX_THRESHOLD {
        FULL_POWER
    } else {
        (x - MIN_THRESHOLD) * FULL_POWER / (MAX_THRESHOLD - MIN_THRESHOLD)
    }
}

/// The reach of a drag from the player's point on the screen to `point`,
/// in thousandths of half the viewport height.
pub fn drag_reach(player: Vec2i, point: Vec2i, height: u32) -> (r: u64)
    requires
        height > 0,
    ensures
        r == reach_of(dist_sq(player, point) as nat, height as nat),
        r <= FULL_POWER,
{
    let dx: i128 = player.x as i128 - point.x as i128;
    let dy: i128 = player.y as i128 - point.y as i128;
    assert(0 <= dx * dx <= 0x1_0000_0000_0000_0000) by (nonlinear_arith)
        requires -0x1_0000_0000 <= dx <= 0x1_0000_0000;
    assert(0 <= dy * dy <= 0x1_0000_0000_0000_0000) by (nonlinear_arith)
        requires -0x1_0000_0000 <= dy <= 0x1_0000_0000;
    let q: u128 = (dx * dx + dy * dy) as u128;
    let s = isqrt(4_000_000 * q);
    let x = s / height as u64;
    if x <= FULL_POWER { x } else { FULL_POWER }
}

/// The launch power, in thousandths, of a drag from the player's point on the
/// screen to `point`.
pub fn drag_power(player: Vec2i, point: Vec2i, height: u32) -> (r: u64)
    requires
        height > 0,
    ensures
        r == power_of(reach_of(dist_sq(player, point) as nat, height as nat)),
        r <= FULL_POWER,
{
    power(drag_reach(player, point, height))
}

/// Growing reach never lowers the power.
pub proof fn lemma_power_monotonic(x1: int, x2: int)
    requires
        x1 <= x2,
    ensures
        power_of(x1) <= power_of(x2),
{
    if MIN_THRESHOLD < x1 && x2 < MAX_THRESHOLD {
        assert((x1 - 200) * 1000 <= (x2 - 200) * 1000) by (nonlinear_arith)
            requires x1 <= x2;
        vstd::arithmetic::div_mod::lemma_div_is_ordered((x1 - 200) * 1000, (x2 - 200) * 1000, 500);
    }
}

/// A longer drag never has less power.
pub proof fn lemma_drag_power_monotonic(q1: nat, q2: nat, height: nat)
    requires
        q1 <= q2,
        height > 0,
    ensures
        power_of(reach_of(q1, height)) <= power_of(reach_of(q2, height)),
{
    crate::geometry::lemma_floor_sqrt_monotonic(4_000_000 * q1, 4_000_000 * q2);
    vstd::arithmetic::div_mod::lemma_div_is_ordered(
        floor_sqrt(4_000_000 * q1) as int,
        floor_sqrt(4_000_000 * q2) as int,
        height as int,
    );
    lemma_power_monotonic(reach_of(q1, height), reach_of(q2, height));
}

/// No power in the dead zone, full power from the saturation point on, and
/// never anything outside those two.
pub proof fn lemma_power_bounds(x: int)
    ensures
        x <= MIN_THRESHOLD ==> power_of(x) == 0,
        x >= MAX_THRESHOLD ==> power_of(x) == FULL_POWER,
        0 <= power_of(x) <= FULL_POWER,
{
    if MIN_THRESHOLD < x < MAX_THRESHOLD {
        assert(0 <= (x - 200) * 1000 <= 500 * 1000) by (nonlinear_arith)
            requires 200 < x < 700;
        vstd::arithmetic::div_mod::lemma_div_is_ordered((x - 200) * 1000, 500 * 1000int, 500);
        vstd::arithmetic::div_mod::lemma_div_pos_is_pos((x - 200) * 1000, 500);
    }
}

/// A colour in linear RGB, each channel in thousandths.
#[derive(Clone, Copy, Debug, PartialEq, Eq, Structural)]
pub struct LinearRgb {
    pub r: u32,
    pub g: u32,
    pub b: u32,
}

/// The feedback colour for `p` thousandths of power: green through yellow to
/// red at seven tenths of full brightness.
pub open spec fn power_color_of(p: int) -> LinearRgb {
    if p < 500 {
        LinearRgb { r: (14 * p / 10) as u32, g: 700, b: 0 }
    } else {
        LinearRgb { r: 700, g: (14 * (1000 - p) / 10) as u32, b: 0 }
    }
}

pub fn get_power_color(p: u64) -> (c: LinearRgb)
    requires
        p <= FULL_POWER,
    ensures
        c == power_color_of(p as int),
{
    if p < 500 {
        LinearRgb { r: (14 * p / 10) as u32, g: 700, b: 0 }
    } else {
        LinearRgb { r: 700, g: (14 * (1000 - p) / 10) as u32, b: 0 }
    }
}

/// The scale of the aim arrow, in thousandths, for `p` thousandths of power:
/// from 0.65 at none to 1.10 at full power.
pub fn arrow_scale(p: u64) -> (s: u64)
    requires
        p <= FULL_POWER,
    ensures
        s == 650 + 450 * p / 1000,
        650 <= s <= 1100,
{
    650 + 450 * p / 1000
}

/// Where the arrow animation is sought to, in milliseconds, for `p`
/// thousandths of power: the clip lasts 2.5 s.
pub fn arrow_seek_ms(p: u64) -> (t: u64)
    requires
        p <= FULL_POWER,
    ensures
        t == 2500 * p / 1000,
        t <= 2500,
{
    2500 * p / 1000
}

} // verus!
