//! Planting-rate unit conversions in fixed point.
//!
//! Every rate and distance is an unsigned count of millionths of its unit
//! (`SCALE` per unit): `10_000_000` as a speed is 10 mph. Results are rounded
//! to the nearest millionth (halves up) and saturate at `u64::MAX`. Tick rates
//! are whole encoder ticks per second.
use vstd::prelude::*;

verus! {

/// Encoder ticks counted in one aggregation window (ticks per second).
pub type TickRate = u32;

/// A pick rate, in millionths of a pick per second.
pub type PickRate = u64;

/// A seed rate, in millionths of a seed per second.
pub type SeedRate = PickRate;

/// A ground speed, in millionths of the unit named by the function.
pub type Speed = u64;

/// Fixed-point units per whole unit.
pub const SCALE: u64 = 1_000_000;

/// Picks per seed-wheel revolution: 12 picks per wheel, 2 wheels per row.
pub const REVOLUTION_PICKS: u64 = 24;

/// Encoder ticks per seed-wheel revolution.
pub const REVOLUTION_TICKS: u64 = 340;

/// Feet per second in one mph, in thousandths.
pub const FPS_PER_MPH_MILLI: u64 = 1467;

/// Inches in a foot.
pub const INCHES_PER_FOOT: u64 = 12;

/// Row feet in one acre.
pub const ROW_FEET_PER_ACRE: u64 = 14520;

/// `n / d` rounded to the nearest integer, halves rounded up.
pub open spec fn div_round(n: int, d: int) -> int {
    n / d + if 2 * (n % d) >= d { 1int } else { 0int }
}

/// `x` capped at the largest `u64`.
pub open spec fn saturate(x: int) -> int {
    if x > u64::MAX { u64::MAX as int } else { x }
}

/// Acres in `ft` row feet.
pub open spec fn row_feet_to_acres_spec(ft: int) -> int {
    div_round(ft, ROW_FEET_PER_ACRE as int)
}

/// Feet per second at `mph` miles per hour.
pub open spec fn mph_to_fps_spec(mph: int) -> int {
    saturate(div_round(mph * FPS_PER_MPH_MILLI, 1000))
}

/// Seeds per second at `fps` feet per second, seeds `in_between` inches apart.
pub open spec fn fps_to_sps_spec(fps: int, in_between: int) -> int {
    saturate(div_round(fps * INCHES_PER_FOOT * SCALE, in_between))
}

/// Encoder ticks per seed pick.
pub open spec fn ticks_per_pick_spec() -> int {
    div_round(REVOLUTION_TICKS * SCALE, REVOLUTION_PICKS as int)
}

/// Seed picks in `ticks` encoder ticks.
pub open spec fn seed_per_ticks_spec(ticks: int) -> int {
    div_round(ticks * REVOLUTION_PICKS, REVOLUTION_TICKS as int)
}

/// Seeds per second at `rpm`, by the factor `60 / REVOLUTION_PICKS`.
pub open spec fn rpm_to_seed_per_second_spec(rpm: int) -> int {
    saturate(div_round(rpm * 60, REVOLUTION_PICKS as int))
}

/// Feet per second at `sps` seeds per second, seeds `in_between` inches apart.
pub open spec fn sps_to_fps_spec(sps: int, in_between: int) -> int {
    saturate(div_round(sps * in_between, INCHES_PER_FOOT * SCALE))
}

/// Miles per hour at `sps` seeds per second, through feet per second.
pub open spec fn sps_to_mph_spec(sps: int, in_between: int) -> int {
    div_round(sps_to_fps_spec(sps, in_between) * 1000, FPS_PER_MPH_MILLI as int)
}

/// Whole ticks per second at `sps`, truncated, capped at the largest `u32`.
pub open spec fn sps_to_tickrate_spec(sps: int) -> int {
    let t = sps * REVOLUTION_TICKS / (REVOLUTION_PICKS * SCALE) as int;
    if t > u32::MAX { u32::MAX as int } else { t }
}

/// Seeds per second at `tickrate` whole ticks per second.
pub open spec fn sps_from_tickrate_spec(tickrate: int) -> int {
    div_round(tickrate * REVOLUTION_PICKS * SCALE, REVOLUTION_TICKS as int)
}

/// Division rounded to the nearest integer, halves up.
pub(crate) fn round_div(n: u128, d: u128) -> (r: u128)
    requires
        d > 0,
    ensures
        r == div_round(n as int, d as int),
{
    let q = n / d;
    let rem = n % d;
    if rem >= d - rem {
        proof {
            assert(q * d <= n - 1) by {
                vstd::arithmetic::div_mod::lemma_fundamental_div_mod(n as int, d as int);
            }
            assert(q <= q * d) by (nonlinear_arith)
                requires
                    d >= 1,
                    q >= 0,
            ;
        }
        q + 1
    } else {
        q
    }
}

/// Rounding `t * k / d` never exceeds `t` when `k < d`.
proof fn lemma_div_round_shrinks(t: int, k: int, d: int)
    requires
        t >= 0,
        0 <= k < d,
    ensures
        div_round(t * k, d) <= t,
{
    let n = t * k;
    let q = n / d;
    let r = n % d;
    vstd::arithmetic::div_mod::lemma_fundamental_div_mod(n, d);
    assert(0 <= r < d);
    assert(t * k <= t * d) by (nonlinear_arith)
        requires
            t >= 0,
            k < d,
    ;
    if 2 * r >= d {
        assert((2 * q + 1) * d <= 2 * t * k) by (nonlinear_arith)
            requires
                n == d * q + r,
                n == t * k,
                2 * r >= d,
        ;
        assert(q + 1 <= t) by (nonlinear_arith)
            requires
                (2 * q + 1) * d <= 2 * t * k,
                t * k <= t * d,
                t >= 0,
                d > 0,
                k < d,
        ;
    } else {
        assert(q <= t) by (nonlinear_arith)
            requires
                n == d * q + r,
                n == t * k,
                r >= 0,
                t * k <= t * d,
                d > 0,
        ;
    }
}

/// Full product of two `u64` values.
pub(crate) fn wide_mul(a: u64, b: u64) -> (r: u128)
    ensures
        r == a * b,
{
    proof {
        assert(a * b <= u64::MAX * u64::MAX) by (nonlinear_arith)
            requires
                a <= u64::MAX,
                b <= u64::MAX,
        ;
    }
    a as u128 * b as u128
}

/// Narrows to `u64`, capping at the largest value.
pub(crate) fn saturate_u64(x: u128) -> (r: u64)
    ensures
        r == saturate(x as int),
{
    if x > u64::MAX as u128 {
        u64::MAX
    } else {
        x as u64
    }
}

/// Row feet planted, as acres.
pub fn row_feet_to_acres(ft: u64) -> (r: u64)
    ensures
        r == row_feet_to_acres_spec(ft as int),
{
    let r = round_div(ft as u128, ROW_FEET_PER_ACRE as u128);
    proof {
        lemma_div_round_shrinks(ft as int, 1, ROW_FEET_PER_ACRE as int);
    }
    r as u64
}

/// Miles per hour to feet per second.
pub fn mph_to_fps(mph: Speed) -> (r: Speed)
    ensures
        r == mph_to_fps_spec(mph as int),
{
    saturate_u64(round_div(wide_mul(mph, FPS_PER_MPH_MILLI), 1000))
}

/// Feet per second to seeds per second, for seeds `in_between` inches apart
/// (both in millionths).
pub fn fps_to_sps(fps: Speed, in_between: u64) -> (r: SeedRate)
    requires
        in_between > 0,
    ensures
        r == fps_to_sps_spec(fps as int, in_between as int),
{
    saturate_u64(
        round_div(wide_mul(fps, INCHES_PER_FOOT * SCALE), in_between as u128),
    )
}

/// Encoder ticks per seed pick, in millionths.
pub fn ticks_per_pick() -> (r: u64)
    ensures
        r == ticks_per_pick_spec(),
{
    let r = round_div((REVOLUTION_TICKS * SCALE) as u128, REVOLUTION_PICKS as u128);
    proof {
        lemma_div_round_shrinks((REVOLUTION_TICKS * SCALE) as int, 1, REVOLUTION_PICKS as int);
    }
    r as u64
}

/// Seeds that `ticks` encoder ticks can drop (both in millionths); the
/// wheel is not indexed, so this is an approximation.
pub fn seed_per_ticks(ticks: u64) -> (r: SeedRate)
    ensures
        r == seed_per_ticks_spec(ticks as int),
{
    let r = round_div(ticks as u128 * REVOLUTION_PICKS as u128, REVOLUTION_TICKS as u128);
    proof {
        lemma_div_round_shrinks(ticks as int, REVOLUTION_PICKS as int, REVOLUTION_TICKS as int);
    }
    r as u64
}

/// Seed-wheel revolutions per minute to seeds per second, by the rig's
/// calibration factor `60 / REVOLUTION_PICKS`.
pub fn rpm_to_seed_per_second(rpm: u64) -> (r: SeedRate)
    ensures
        r == rpm_to_seed_per_second_spec(rpm as int),
{
    saturate_u64(round_div(rpm as u128 * 60, REVOLUTION_PICKS as u128))
}

/// Seeds per second to feet per second, for seeds `in_between` inches apart.
pub fn sps_to_fps(sps: SeedRate, in_between: u64) -> (r: Speed)
    ensures
        r == sps_to_fps_spec(sps as int, in_between as int),
{
    saturate_u64(round_div(wide_mul(sps, in_between), (INCHES_PER_FOOT * SCALE) as u128))
}

/// Seeds per second to miles per hour, for seeds `in_between` inches apart.
pub fn sps_to_mph(sps: SeedRate, in_between: u64) -> (r: Speed)
    ensures
        r == sps_to_mph_spec(sps as int, in_between as int),
{
    let fps = sps_to_fps(sps, in_between);
    let r = round_div(fps as u128 * 1000, FPS_PER_MPH_MILLI as u128);
    proof {
        lemma_div_round_shrinks(fps as int, 1000, FPS_PER_MPH_MILLI as int);
    }
    r as u64
}

/// Whole encoder ticks per second that carry `sps` seeds per second,
/// truncated and capped at the largest `TickRate`.
pub fn sps_to_tickrate(sps: SeedRate) -> (r: TickRate)
    ensures
        r == sps_to_tickrate_spec(sps as int),
{
    let t = wide_mul(sps, REVOLUTION_TICKS) / (REVOLUTION_PICKS * SCALE) as u128;
    if t > u32::MAX as u128 {
        u32::MAX
    } else {
        t as u32
    }
}

/// Seeds per second (in millionths) carried by `tickrate` encoder ticks per
/// second.
pub fn sps_from_tickrate(tickrate: TickRate) -> (r: SeedRate)
    ensures
        r == sps_from_tickrate_spec(tickrate as int),
{
    proof {
        assert(tickrate * (REVOLUTION_PICKS * SCALE) <= u32::MAX * (REVOLUTION_PICKS * SCALE))
            by (nonlinear_arith)
            requires
                tickrate <= u32::MAX,
        ;
        assert(tickrate * REVOLUTION_PICKS * SCALE == tickrate * (REVOLUTION_PICKS * SCALE))
            by (nonlinear_arith);
    }
    let n = tickrate as u64 * (REVOLUTION_PICKS * SCALE);
    let r = round_div(n as u128, REVOLUTION_TICKS as u128);
    proof {
        lemma_div_round_shrinks(n as int, 1, REVOLUTION_TICKS as int);
    }
    r as u64
}

} // verus!
