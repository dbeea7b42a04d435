use vstd::prelude::*;
use crate::game::MICROS_PER_SECOND;

verus! {

/// One full turn, in millidegrees. Headings lie in `[0, FULL_TURN)`.
pub const FULL_TURN: u32 = 360_000;

/// Half a turn, in millidegrees.
pub const HALF_TURN: u32 = 180_000;

/// A requested direction further than this from the heading (two thirds of
/// half a turn, 120 degrees) is driven in reverse.
pub const REVERSE_ANGLE: u32 = 120_000;

/// Tuning of one vehicle type.
///
/// Speeds are in thousandths of a world unit per second, the acceleration in
/// thousandths of a unit per second squared, and the turn rate in
/// millidegrees per second. A `max_reverse` of zero means the vehicle cannot
/// back up.
#[derive(Clone, Copy, Debug, PartialEq, Eq, Structural, Default)]
pub struct Vehicle {
    pub drive_speed: u32,
    pub turn_rate: u32,
    pub acceleration: u32,
    pub max_reverse: u32,
}

/// The combine harvester: a vehicle that gathers crop into its storage.
#[derive(Clone, Copy, Debug, PartialEq, Eq, Structural)]
pub struct Combine {
    pub vehicle: Vehicle,
    /// Rate at which it hands crop over, in units per second.
    pub transfer_speed: u32,
}

/// The truck: a faster vehicle that carries crop to the drop zone.
#[derive(Clone, Copy, Debug, PartialEq, Eq, Structural)]
pub struct Truck {
    pub vehicle: Vehicle,
    /// Rate at which it unloads, in units per second.
    pub dump_speed: u32,
}

impl Combine {
    /// The combine's standard tuning.
    pub fn new() -> (c: Combine)
        ensures
            c.vehicle == (Vehicle {
                drive_speed: 10_000,
                turn_rate: 229_183,
                acceleration: 20_000,
                max_reverse: 5_000,
            }),
            c.transfer_speed == 10,
    {
        Combine {
            vehicle: Vehicle {
                drive_speed: 10_000,
                turn_rate: 229_183,
                acceleration: 20_000,
                max_reverse: 5_000,
            },
            transfer_speed: 10,
        }
    }
}

impl Truck {
    /// The truck's standard tuning.
    pub fn new() -> (t: Truck)
        ensures
            t.vehicle == (Vehicle {
                drive_speed: 15_000,
                turn_rate: 171_887,
                acceleration: 40_000,
                max_reverse: 5_000,
            }),
            t.dump_speed == 20,
    {
        Truck {
            vehicle: Vehicle {
                drive_speed: 15_000,
                turn_rate: 171_887,
                acceleration: 40_000,
                max_reverse: 5_000,
            },
            dump_speed: 20,
        }
    }
}

/// Heading and signed speed of a vehicle on the ground plane.
///
/// The heading is the angle of the forward vector `(x, z)`, counted from the
/// `+x` axis towards `+z`, in millidegrees. A negative speed is reverse.
#[derive(Clone, Copy, Debug, PartialEq, Eq, Structural)]
pub struct Motion {
    pub heading: u32,
    pub speed: i64,
}

impl Motion {
    pub open spec fn wf(self) -> bool {
        self.heading < FULL_TURN
    }
}

/// Which drive keys of one vehicle are held this tick.
#[derive(Clone, Copy, Debug, PartialEq, Eq, Structural, Default)]
pub struct DriveKeys {
    pub forward: bool,
    pub left: bool,
    pub back: bool,
    pub right: bool,
}

pub open spec fn key_axis(plus: bool, minus: bool) -> int {
    (if plus { 1int } else { 0int }) - (if minus { 1int } else { 0int })
}

/// Angle of the ground vector `(x, z)` with components in `{-1, 0, 1}`, in
/// millidegrees; `None` for the zero vector.
pub open spec fn compass_angle(x: int, z: int) -> Option<u32> {
    if x == 0 && z == 0 {
        None
    } else if z == 0 {
        Some(if x > 0 { 0u32 } else { 180_000u32 })
    } else if x == 0 {
        Some(if z > 0 { 90_000u32 } else { 270_000u32 })
    } else if z > 0 {
        Some(if x > 0 { 45_000u32 } else { 135_000u32 })
    } else {
        Some(if x > 0 { 315_000u32 } else { 225_000u32 })
    }
}

/// The direction that a set of held keys asks for: forward and back along
/// `z`, left and right along `x`; `None` when the keys cancel out.
pub open spec fn key_heading(keys: DriveKeys) -> Option<u32> {
    compass_angle(key_axis(keys.left, keys.right), key_axis(keys.forward, keys.back))
}

/// Signed angle that turns direction `from` onto direction `to`, in
/// `(-HALF_TURN, HALF_TURN]`.
pub open spec fn signed_angle(from: int, to: int) -> int {
    let d = (to - from) % (FULL_TURN as int);
    if d > HALF_TURN as int {
        d - FULL_TURN as int
    } else {
        d
    }
}

/// An angle beyond `REVERSE_ANGLE` either way is a reverse manoeuvre.
pub open spec fn is_reverse(angle: int) -> bool {
    angle > REVERSE_ANGLE as int || angle < -(REVERSE_ANGLE as int)
}

/// In reverse the vehicle backs towards the target: the angle is folded by
/// half a turn.
pub open spec fn folded_angle(angle: int) -> int {
    if !is_reverse(angle) {
        angle
    } else if angle > 0 {
        angle - HALF_TURN as int
    } else {
        angle + HALF_TURN as int
    }
}

pub open spec fn clamp(x: int, lo: int, hi: int) -> int {
    if x < lo {
        lo
    } else if x > hi {
        hi
    } else {
        x
    }
}

/// Largest change of speed in a tick of `dt` microseconds.
pub open spec fn speed_change(v: Vehicle, dt: nat) -> int {
    (v.acceleration as int) * (dt as int) / (MICROS_PER_SECOND as int)
}

/// Largest turn in a tick of `dt` microseconds.
pub open spec fn max_turn(v: Vehicle, dt: nat) -> int {
    (v.turn_rate as int) * (dt as int) / (MICROS_PER_SECOND as int)
}

/// With no direction requested the speed decays towards zero by `delta`,
/// and stops there.
pub open spec fn coast_speed(speed: int, delta: int) -> int {
    if speed >= 0 {
        if speed > delta { speed - delta } else { 0 }
    } else {
        if -speed > delta { speed + delta } else { 0 }
    }
}

pub open spec fn abs(x: int) -> int {
    if x < 0 { -x } else { x }
}

/// The speed range that a vehicle may drive in.
pub open spec fn speed_in_range(v: Vehicle, speed: int) -> bool {
    -(v.max_reverse as int) <= speed <= v.drive_speed as int
}

/// With a direction requested the speed magnitude grows by `delta`, turns
/// negative in reverse, and is clamped to the vehicle's range.
pub open spec fn driven_speed(v: Vehicle, speed: int, delta: int, reverse: bool) -> int {
    let magnitude = abs(speed) + delta;
    clamp(
        if reverse { -magnitude } else { magnitude },
        -(v.max_reverse as int),
        v.drive_speed as int,
    )
}

/// The turn applied in one tick towards the requested heading.
pub open spec fn turn_for(v: Vehicle, requested: Option<u32>, heading: int, dt: nat) -> int {
    match requested {
        None => 0,
        Some(r) => {
            let limit = max_turn(v, dt);
            clamp(folded_angle(signed_angle(r as int, heading)), -limit, limit)
        },
    }
}

/// Heading and speed after one tick of `dt` microseconds.
pub open spec fn next_motion(v: Vehicle, requested: Option<u32>, m: Motion, dt: nat) -> Motion {
    let delta = speed_change(v, dt);
    match requested {
        None => Motion { heading: m.heading, speed: coast_speed(m.speed as int, delta) as i64 },
        Some(r) => {
            let turn = turn_for(v, requested, m.heading as int, dt);
            Motion {
                heading: ((m.heading - turn) % (FULL_TURN as int)) as u32,
                speed: driven_speed(
                    v,
                    m.speed as int,
                    delta,
                    is_reverse(signed_angle(r as int, m.heading as int)),
                ) as i64,
            }
        },
    }
}

/// Motion after `n` ticks of `dt` microseconds with no direction requested.
pub open spec fn coasting(v: Vehicle, m: Motion, dt: nat, n: nat) -> Motion
    decreases n,
{
    if n == 0 {
        m
    } else {
        next_motion(v, None, coasting(v, m, dt, (n - 1) as nat), dt)
    }
}

/// A step keeps the signed speed within `[-max_reverse, drive_speed]` when it
/// starts there, whatever direction is requested.
pub proof fn lemma_speed_stays_in_range(v: Vehicle, requested: Option<u32>, m: Motion, dt: nat)
    requires
        m.wf(),
        speed_in_range(v, m.speed as int),
    ensures
        speed_in_range(v, next_motion(v, requested, m, dt).speed as int),
{
    assert(speed_change(v, dt) >= 0) by (nonlinear_arith)
        requires
            speed_change(v, dt) == (v.acceleration as int) * (dt as int) / 1_000_000,
    {
    }
}

/// Coasting brings the speed towards zero: its magnitude never grows, its
/// sign never flips, the heading holds, and once `n` ticks have taken off at
/// least the starting speed the vehicle stands still.
pub proof fn lemma_coasting_settles(v: Vehicle, m: Motion, dt: nat, n: nat)
    ensures
        abs(coasting(v, m, dt, n + 1).speed as int) <= abs(coasting(v, m, dt, n).speed as int),
        m.speed >= 0 ==> coasting(v, m, dt, n).speed >= 0,
        m.speed <= 0 ==> coasting(v, m, dt, n).speed <= 0,
        coasting(v, m, dt, n).heading == m.heading,
        n * speed_change(v, dt) >= abs(m.speed as int) ==> coasting(v, m, dt, n).speed == 0,
    decreases n,
{
    let delta = speed_change(v, dt);
    assert(delta >= 0) by (nonlinear_arith)
        requires
            delta == (v.acceleration as int) * (dt as int) / 1_000_000,
    {
    }
    if n > 0 {
        lemma_coasting_settles(v, m, dt, (n - 1) as nat);
        let prev = coasting(v, m, dt, (n - 1) as nat).speed as int;
        assert(abs(prev) <= abs(m.speed as int) - (n - 1) * delta || prev == 0) by {
            lemma_coasting_progress(v, m, dt, (n - 1) as nat);
        }
        assert(n * delta == (n - 1) * delta + delta) by (nonlinear_arith);
    }
}

/// Each coasting tick takes `delta` off the magnitude until it reaches zero.
proof fn lemma_coasting_progress(v: Vehicle, m: Motion, dt: nat, n: nat)
    ensures
        abs(coasting(v, m, dt, n).speed as int) <= abs(m.speed as int) - n * speed_change(v, dt)
            || coasting(v, m, dt, n).speed == 0,
        abs(coasting(v, m, dt, n).speed as int) <= abs(m.speed as int),
    decreases n,
{
    let delta = speed_change(v, dt);
    assert(delta >= 0) by (nonlinear_arith)
        requires
            delta == (v.acceleration as int) * (dt as int) / 1_000_000,
    {
    }
    if n > 0 {
        lemma_coasting_progress(v, m, dt, (n - 1) as nat);
        assert(n * delta == (n - 1) * delta + delta) by (nonlinear_arith);
    }
}

/// Direction asked for by the held keys, as `(x, z)` components.
pub fn requested_direction(keys: &DriveKeys) -> (d: (i8, i8))
    ensures
        d.0 as int == key_axis(keys.left, keys.right),
        d.1 as int == key_axis(keys.forward, keys.back),
{
    let mut x: i8 = 0;
    let mut z: i8 = 0;
    if keys.forward {
        z = z + 1;
    }
    if keys.left {
        x = x + 1;
    }
    if keys.back {
        z = z - 1;
    }
    if keys.right {
        x = x - 1;
    }
    (x, z)
}

/// Heading of a direction with components in `{-1, 0, 1}`; `None` for the
/// zero vector, which is never normalised.
pub fn direction_heading(x: i8, z: i8) -> (h: Option<u32>)
    requires
        -1 <= x <= 1,
        -1 <= z <= 1,
    ensures
        h == compass_angle(x as int, z as int),
{
    if x == 0 && z == 0 {
        None
    } else if z == 0 {
        Some(if x > 0 { 0 } else { 180_000 })
    } else if x == 0 {
        Some(if z > 0 { 90_000 } else { 270_000 })
    } else if z > 0 {
        Some(if x > 0 { 45_000 } else { 135_000 })
    } else {
        Some(if x > 0 { 315_000 } else { 225_000 })
    }
}

/// Signed angle from heading `from` to heading `to`.
pub fn angle_between(from: u32, to: u32) -> (a: i64)
    requires
        from < FULL_TURN,
        to < FULL_TURN,
    ensures
        a as int == signed_angle(from as int, to as int),
        -(HALF_TURN as int) < a <= HALF_TURN as int,
{
    let mut d: i64 = to as i64 - from as i64;
    if d < 0 {
        d = d + FULL_TURN as i64;
    }
    if d > HALF_TURN as i64 {
        d = d - FULL_TURN as i64;
    }
    d
}

/// `rate * dt_us / MICROS_PER_SECOND`: what a per-second rate amounts to
/// over `dt_us` microseconds, rounded down.
fn scaled_by_time(rate: u32, dt_us: u64) -> (r: u128)
    ensures
        r as int == (rate as int) * (dt_us as int) / (MICROS_PER_SECOND as int),
        r <= 0xffff_ffff_ffff_ffff_ffff_ffffu128,
{
    let a: u128 = rate as u128;
    let t: u128 = dt_us as u128;
    assert(a * t <= 0xffff_ffff_u128 * 0xffff_ffff_ffff_ffff_u128) by (nonlinear_arith)
        requires
            a <= 0xffff_ffff_u128,
            t <= 0xffff_ffff_ffff_ffff_u128,
    {
    }
    let product: u128 = a * t;
    let r: u128 = product / MICROS_PER_SECOND as u128;
    assert(r <= 0xffff_ffff_ffff_ffff_ffff_ffffu128) by (nonlinear_arith)
        requires
            r == product / 1_000_000u128,
            product <= 0xffff_ffff_u128 * 0xffff_ffff_ffff_ffff_u128,
    {
    }
    r
}

/// Advances one vehicle by a tick of `dt_us` microseconds towards the
/// requested heading, and returns the turn it made (positive turns reduce
/// the heading).
pub fn update_vehicle(
    vehicle: &Vehicle,
    requested: Option<u32>,
    motion: &mut Motion,
    dt_us: u64,
) -> (turn: i64)
    requires
        old(motion).wf(),
        requested matches Some(r) ==> r < FULL_TURN,
    ensures
        final(motion).wf(),
        *final(motion) == next_motion(*vehicle, requested, *old(motion), dt_us as nat),
        turn as int == turn_for(*vehicle, requested, old(motion).heading as int, dt_us as nat),
{
    let delta_wide: u128 = scaled_by_time(vehicle.acceleration, dt_us);
    let delta: i128 = delta_wide as i128;
    let current: i128 = motion.speed as i128;
    match requested {
        None => {
            let speed: i128 = if current >= 0 {
                if current > delta { current - delta } else { 0 }
            } else {
                if -current > delta { current + delta } else { 0 }
            };
            motion.speed = speed as i64;
            0
        },
        Some(r) => {
            let angle: i64 = angle_between(r, motion.heading);
            let reverse: bool = angle > REVERSE_ANGLE as i64 || angle < -(REVERSE_ANGLE as i64);
            let folded: i64 = if !reverse {
                angle
            } else if angle > 0 {
                angle - HALF_TURN as i64
            } else {
                angle + HALF_TURN as i64
            };
            let limit_wide: u128 = scaled_by_time(vehicle.turn_rate, dt_us);
            let turn: i64 = if limit_wide >= HALF_TURN as u128 {
                folded
            } else {
                let limit: i64 = limit_wide as i64;
                if folded < -limit {
                    -limit
                } else if folded > limit {
                    limit
                } else {
                    folded
                }
            };
            let magnitude: i128 = (if current < 0 { -current } else { current }) + delta;
            let signed: i128 = if reverse { -magnitude } else { magnitude };
            let speed: i128 = if signed < -(vehicle.max_reverse as i128) {
                -(vehicle.max_reverse as i128)
            } else if signed > vehicle.drive_speed as i128 {
                vehicle.drive_speed as i128
            } else {
                signed
            };
            let mut heading: i64 = motion.heading as i64 - turn;
            if heading < 0 {
                heading = heading + FULL_TURN as i64;
            } else if heading >= FULL_TURN as i64 {
                heading = heading - FULL_TURN as i64;
            }
            motion.heading = heading as u32;
            motion.speed = speed as i64;
            turn
        },
    }
}

/// Drives the combine one tick from the keys held for it.
pub fn move_combine(combine: &Combine, keys: &DriveKeys, motion: &mut Motion, dt_us: u64) -> (turn: i64)
    requires
        old(motion).wf(),
    ensures
        final(motion).wf(),
        *final(motion) == next_motion(combine.vehicle, key_heading(*keys), *old(motion), dt_us as nat),
        turn as int == turn_for(combine.vehicle, key_heading(*keys), old(motion).heading as int, dt_us as nat),
{
    let (x, z) = requested_direction(keys);
    let requested = direction_heading(x, z);
    update_vehicle(&combine.vehicle, requested, motion, dt_us)
}

/// Drives the truck one tick from the keys held for it.
pub fn move_truck(truck: &Truck, keys: &DriveKeys, motion: &mut Motion, dt_us: u64) -> (turn: i64)
    requires
        old(motion).wf(),
    ensures
        final(motion).wf(),
        *final(motion) == next_motion(truck.vehicle, key_heading(*keys), *old(motion), dt_us as nat),
        turn as int == turn_for(truck.vehicle, key_heading(*keys), old(motion).heading as int, dt_us as nat),
{
    let (x, z) = requested_direction(keys);
    let requested = direction_heading(x, z);
    update_vehicle(&truck.vehicle, requested, motion, dt_us)
}

} // verus!
