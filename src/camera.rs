//! The per-frame camera-follow rule: the camera's position eases toward the
//! player's, a fixed fraction of the remaining offset per second, until the
//! player is within the dead zone.
use vstd::prelude::*;
use crate::point::Point;

verus! {

/// How far the camera moves per second, as a fraction of the remaining offset.
pub const FOLLOW_SPEED_PER_SECOND: i128 = 2;

/// Within this distance (millimetres) of the player the camera stays put.
pub const DEAD_ZONE_MM: i128 = 400;

pub const MICROS_PER_SECOND: i128 = 1_000_000;

/// Division of `a` by a positive `d` that rounds away from zero, so that
/// any nonzero quotient is at least one in size.
pub open spec fn div_away_from_zero(a: int, d: int) -> int {
    if a >= 0 {
        (a + d - 1) / d
    } else {
        -((-a + d - 1) / d)
    }
}

/// The offset travelled in `dt` microseconds along an axis where `delta`
/// millimetres remain: whole millimetres, rounded away from zero, so that a
/// short frame still moves the camera.
pub open spec fn step_of(delta: int, dt: int) -> int {
    div_away_from_zero(delta * FOLLOW_SPEED_PER_SECOND * dt, MICROS_PER_SECOND as int)
}

pub open spec fn eased(from: int, to: int, dt: int) -> int {
    from + step_of(to - from, dt)
}

/// The player is close enough that the camera stays where it is.
pub open spec fn within_dead_zone(eye: Point, player: Point) -> bool {
    eye.dist_sq(player) <= DEAD_ZONE_MM * DEAD_ZONE_MM
}

/// The camera's next position, exact, with one integer per axis.
pub open spec fn follow_position(eye: Point, player: Point, dt: int) -> (int, int, int) {
    if within_dead_zone(eye, player) {
        (eye.x as int, eye.y as int, eye.z as int)
    } else {
        (
            eased(eye.x as int, player.x as int, dt),
            eased(eye.y as int, player.y as int, dt),
            eased(eye.z as int, player.z as int, dt),
        )
    }
}

pub open spec fn fits_i32(v: int) -> bool {
    i32::MIN <= v <= i32::MAX
}

pub open spec fn fits_point(c: (int, int, int)) -> bool {
    fits_i32(c.0) && fits_i32(c.1) && fits_i32(c.2)
}

fn eased_coord(from: i32, to: i32, dt_micros: u32) -> (r: i128)
    ensures
        r == eased(from as int, to as int, dt_micros as int),
{
    let delta: i128 = to as i128 - from as i128;
    let scale: i128 = FOLLOW_SPEED_PER_SECOND * dt_micros as i128;
    assert(-0x1_0000_0000 * 0x2_0000_0000 <= delta * scale <= 0x1_0000_0000 * 0x2_0000_0000)
        by (nonlinear_arith)
        requires
            -0x1_0000_0000 <= delta <= 0x1_0000_0000,
            0 <= scale <= 0x2_0000_0000,
    ;
    let moved: i128 = delta * scale;
    assert(moved == delta * FOLLOW_SPEED_PER_SECOND * dt_micros) by (nonlinear_arith)
        requires
            moved == delta * scale,
            scale == FOLLOW_SPEED_PER_SECOND * dt_micros,
    ;
    let step: i128 = if moved >= 0 {
        (moved + MICROS_PER_SECOND - 1) / MICROS_PER_SECOND
    } else {
        -((-moved + MICROS_PER_SECOND - 1) / MICROS_PER_SECOND)
    };
    from as i128 + step
}

/// Where the camera at `eye` moves after `dt_micros` microseconds with the
/// player at `player`.
///
/// Within the dead zone the camera stays where it is; beyond it, it moves
/// toward the player by the offset times the follow speed times the elapsed
/// time, rounded away from zero on each axis. A frame of at most half a
/// second never carries it past the player, and a nonempty one always
/// brings it strictly closer. `None` exactly when the new position leaves
/// the range of an `i32` coordinate, which only a longer frame can cause.
pub fn follow_player(eye: Point, player: Point, dt_micros: u32) -> (r: Option<Point>)
    ensures
        r is Some <==> fits_point(follow_position(eye, player, dt_micros as int)),
        r matches Some(t) ==> (t.x as int, t.y as int, t.z as int) == follow_position(
            eye,
            player,
            dt_micros as int,
        ),
        dt_micros <= MICROS_PER_SECOND / FOLLOW_SPEED_PER_SECOND ==> r is Some,
        0 < dt_micros <= MICROS_PER_SECOND / FOLLOW_SPEED_PER_SECOND && !within_dead_zone(
            eye,
            player,
        ) ==> (r matches Some(t) && t.dist_sq(player) < eye.dist_sq(player)),
{
    proof {
        if dt_micros <= MICROS_PER_SECOND / FOLLOW_SPEED_PER_SECOND {
            lemma_follow_between(eye, player, dt_micros as int);
            if 0 < dt_micros && !within_dead_zone(eye, player) {
                lemma_follow_closer(eye, player, dt_micros as int);
            }
        }
    }
    let d: i128 = eye.distance_squared(&player);
    if d <= DEAD_ZONE_MM * DEAD_ZONE_MM {
        return Some(eye);
    }
    let x: i128 = eased_coord(eye.x, player.x, dt_micros);
    let y: i128 = eased_coord(eye.y, player.y, dt_micros);
    let z: i128 = eased_coord(eye.z, player.z, dt_micros);
    if x < i32::MIN as i128 || x > i32::MAX as i128 || y < i32::MIN as i128 || y > i32::MAX as i128
        || z < i32::MIN as i128 || z > i32::MAX as i128 {
        return None;
    }
    Some(Point { x: x as i32, y: y as i32, z: z as i32 })
}

pub open spec fn between(v: int, a: int, b: int) -> bool {
    (a <= v <= b) || (b <= v <= a)
}

proof fn lemma_step_bounds(delta: int, dt: int)
    requires
        0 <= dt <= MICROS_PER_SECOND / FOLLOW_SPEED_PER_SECOND,
    ensures
        delta >= 0 ==> 0 <= step_of(delta, dt) <= delta,
        delta <= 0 ==> delta <= step_of(delta, dt) <= 0,
        dt > 0 && delta != 0 ==> step_of(delta, dt) != 0,
{
    let k = FOLLOW_SPEED_PER_SECOND * dt;
    let d = MICROS_PER_SECOND as int;
    assert(delta * FOLLOW_SPEED_PER_SECOND * dt == delta * k) by (nonlinear_arith)
        requires
            k == FOLLOW_SPEED_PER_SECOND * dt,
    ;
    let m = if delta >= 0 { delta } else { -delta };
    assert(0 <= m * k <= m * d) by (nonlinear_arith)
        requires
            m >= 0,
            0 <= k <= d,
    ;
    assert(k > 0 && m > 0 ==> m * k >= 1) by (nonlinear_arith);
    assert((m * d + d - 1) / d == m);
    vstd::arithmetic::div_mod::lemma_div_is_ordered(m * k + d - 1, m * d + d - 1, d);
    vstd::arithmetic::div_mod::lemma_div_is_ordered(d - 1, m * k + d - 1, d);
    if m * k >= 1 {
        vstd::arithmetic::div_mod::lemma_div_is_ordered(d, m * k + d - 1, d);
    }
    if delta < 0 {
        assert(-(delta * k) == m * k) by (nonlinear_arith)
            requires
                m == -delta,
        ;
    }
}

/// On one axis, a frame of at most half a second leaves the camera between
/// where it was and the player.
proof fn lemma_eased_between(from: int, to: int, dt: int)
    requires
        0 <= dt <= MICROS_PER_SECOND / FOLLOW_SPEED_PER_SECOND,
    ensures
        between(eased(from, to, dt), from, to),
{
    lemma_step_bounds(to - from, dt);
}

/// On one axis, the offset left after a step is no larger than before, and
/// smaller when the frame is nonempty and the offset was not zero.
proof fn lemma_axis_closer(from: int, to: int, dt: int)
    requires
        0 <= dt <= MICROS_PER_SECOND / FOLLOW_SPEED_PER_SECOND,
    ensures
        (to - eased(from, to, dt)) * (to - eased(from, to, dt)) <= (to - from) * (to - from),
        dt > 0 && to != from ==> (to - eased(from, to, dt)) * (to - eased(from, to, dt)) < (to
            - from) * (to - from),
{
    let delta = to - from;
    let s = step_of(delta, dt);
    lemma_step_bounds(delta, dt);
    assert(to - eased(from, to, dt) == delta - s);
    assert((delta - s) * (delta - s) <= delta * delta) by (nonlinear_arith)
        requires
            (delta >= 0 ==> 0 <= s <= delta),
            (delta <= 0 ==> delta <= s <= 0),
    ;
    assert(s != 0 ==> (delta - s) * (delta - s) < delta * delta) by (nonlinear_arith)
        requires
            (delta >= 0 ==> 0 <= s <= delta),
            (delta <= 0 ==> delta <= s <= 0),
    ;
}

/// Beyond the dead zone, every nonempty frame of at most half a second
/// brings the camera strictly closer to the player, so following never
/// stalls short of the dead zone.
pub proof fn lemma_follow_closer(eye: Point, player: Point, dt: int)
    requires
        0 < dt <= MICROS_PER_SECOND / FOLLOW_SPEED_PER_SECOND,
        !within_dead_zone(eye, player),
    ensures
        Point::coord_sum_sq(
            player.x - follow_position(eye, player, dt).0,
            player.y - follow_position(eye, player, dt).1,
            player.z - follow_position(eye, player, dt).2,
        ) < eye.dist_sq(player),
{
    lemma_axis_closer(eye.x as int, player.x as int, dt);
    lemma_axis_closer(eye.y as int, player.y as int, dt);
    lemma_axis_closer(eye.z as int, player.z as int, dt);
    if eye.x == player.x && eye.y == player.y && eye.z == player.z {
        let (dx, dy, dz) = (player.x - eye.x, player.y - eye.y, player.z - eye.z);
        assert(dx * dx + dy * dy + dz * dz == 0) by (nonlinear_arith)
            requires
                dx == 0 && dy == 0 && dz == 0,
        ;
    }
}

/// A frame of at most half a second never carries the camera past the
/// player: on every axis its new position lies between the old one and the
/// player's, so it is always representable.
pub proof fn lemma_follow_between(eye: Point, player: Point, dt: int)
    requires
        0 <= dt <= MICROS_PER_SECOND / FOLLOW_SPEED_PER_SECOND,
    ensures
        between(follow_position(eye, player, dt).0, eye.x as int, player.x as int),
        between(follow_position(eye, player, dt).1, eye.y as int, player.y as int),
        between(follow_position(eye, player, dt).2, eye.z as int, player.z as int),
        fits_point(follow_position(eye, player, dt)),
{
    lemma_eased_between(eye.x as int, player.x as int, dt);
    lemma_eased_between(eye.y as int, player.y as int, dt);
    lemma_eased_between(eye.z as int, player.z as int, dt);
}

} // verus!
