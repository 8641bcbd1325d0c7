//! Per-tick rules for the topplegrass creature: a spawn timer that fires
//! once per second, placement of each new entity on the upwind border of the
//! world, the rolling animation, the random skip into free fall, and the
//! gravity that ends it.

use vstd::prelude::*;

verus! {

use vstd::math::abs;
use crate::components::Movement;
use crate::fixed::{SCALE, is_sqrt, spec_scale_mul, scale_mul};
use crate::resources::{Wind, WorldBounds};
use crate::rng::gen_range_i64;
use crate::vectors::{Vec2, Vec3, sum_of_squares};

/// A new topplegrass entity is spawned periodically; this is the period.
pub const SPAWN_INTERVAL_MICROS: i64 = 1_000_000;

/// The standard scaling to apply to the entity, in fixed-point steps.
pub const TOPPLEGRASS_BASE_SCALE: i64 = 2_000;

/// The maximum movement speed of topplegrass, in fixed-point units per second.
pub const MAX_MOVEMENT_SPEED: i64 = 1_750_000;

/// At which height the topplegrass entity should spawn, and the height at
/// which a falling one touches down, in fixed-point units.
pub const HEIGHT: i64 = 500_000;

/// If we knew the radius of the topplegrass, we could calculate the perfect
/// angular velocity; this stand-in is close enough that the entity does not
/// appear to slip while rolling.
pub const ANGULAR_V_MAGIC: i64 = 2;

/// Longest frame duration the per-tick rules accept, in microseconds.
pub const MAX_FRAME_MICROS: i64 = 10_000_000;

/// Chance, in fixed-point steps of one, that a rolling topplegrass skips
/// into the air on a given tick.
pub const FREE_FALL_CHANCE: i64 = 50_000;

/// Smallest factor, in fixed-point steps of one, applied to the speed of a
/// topplegrass to choose its upward kick when it skips into the air.
pub const KICK_FACTOR_MIN: i64 = 400_000;

/// One past the largest kick factor, in fixed-point steps of one.
pub const KICK_FACTOR_MAX: i64 = 700_000;

/// Downward acceleration applied to a free-falling entity, in units per
/// second squared.
pub const GRAVITY_ACCEL: i64 = 4;

/// Largest vertical speed `GravitySystem::fall_step` accepts, in fixed-point
/// units per second; far beyond any fall the world can produce.
pub const FALL_SPEED_LIMIT: i64 = 1_000_000_000_000;

/// The wind vector points to within an eighth of a turn of the given
/// direction: the angle between the two vectors is under a quarter pi.
/// Written without trigonometry: the cosine of the angle exceeds the square
/// root of one half exactly when the dot product is positive and its square,
/// doubled, exceeds the product of the squared lengths. A zero vector on
/// either side makes the predicate false.
pub open spec fn spec_wind_towards(wind: Vec2, cardinal_direction: Vec2) -> bool {
    let dot = wind.x * cardinal_direction.x + wind.y * cardinal_direction.y;
    let wind_sq = wind.x * wind.x + wind.y * wind.y;
    let dir_sq = cardinal_direction.x * cardinal_direction.x + cardinal_direction.y
        * cardinal_direction.y;
    dot > 0 && 2 * (dot * dot) > wind_sq * dir_sq
}

/// Where the next topplegrass may appear: on the border of the world that
/// the wind is facing away from, i.e. upwind from the center of the world.
/// A wind that faces no cardinal direction (a diagonal or zero wind) selects
/// the top border, as the last arm does.
pub open spec fn spec_on_upwind_border(pos: Vec3, wind: Vec2, bounds: WorldBounds) -> bool {
    if spec_wind_towards(wind, (Vec2 { x: 1, y: 0 })) {
        pos.x == bounds.left && bounds.bottom <= pos.y < bounds.top
    } else if spec_wind_towards(wind, (Vec2 { x: 0, y: 1 })) {
        pos.y == bounds.bottom && bounds.left <= pos.x < bounds.right
    } else if spec_wind_towards(wind, (Vec2 { x: -1i64, y: 0i64 })) {
        pos.x == bounds.right && bounds.bottom <= pos.y < bounds.top
    } else {
        pos.y == bounds.top && bounds.left <= pos.x < bounds.right
    }
}

/// Against a cardinal axis the cone test collapses to a comparison of
/// coordinates: the wind points east exactly when its x coordinate exceeds
/// the absolute value of its y coordinate, and so on around the compass.
pub proof fn lemma_wind_towards_cardinal(w: Vec2)
    ensures
        spec_wind_towards(w, (Vec2 { x: 1, y: 0 })) <==> w.x > abs(w.y as int),
        spec_wind_towards(w, (Vec2 { x: 0, y: 1 })) <==> w.y > abs(w.x as int),
        spec_wind_towards(w, (Vec2 { x: -1i64, y: 0i64 })) <==> -w.x > abs(w.y as int),
        spec_wind_towards(w, (Vec2 { x: 0i64, y: -1i64 })) <==> -w.y > abs(w.x as int),
{
    let x = w.x as int;
    let y = w.y as int;
    assert((x > 0 && 2 * (x * x) > (x * x + y * y) * 1) <==> x > abs(y)) by (nonlinear_arith)
        requires
            abs(y) == if y < 0 { -y } else { y },
    ;
    assert((y > 0 && 2 * (y * y) > (x * x + y * y) * 1) <==> y > abs(x)) by (nonlinear_arith)
        requires
            abs(x) == if x < 0 { -x } else { x },
    ;
    assert((-x > 0 && 2 * ((-x) * (-x)) > (x * x + y * y) * 1) <==> -x > abs(y))
        by (nonlinear_arith)
        requires
            abs(y) == if y < 0 { -y } else { y },
    ;
    assert((-y > 0 && 2 * ((-y) * (-y)) > (x * x + y * y) * 1) <==> -y > abs(x))
        by (nonlinear_arith)
        requires
            abs(x) == if x < 0 { -x } else { x },
    ;
}

/// The cone test does not depend on the length of the direction vector: a
/// direction and any positive multiple of it select the same winds, so the
/// unit axes stand in for arrows of any length.
pub proof fn lemma_wind_towards_scale_invariant(w: Vec2, d1: Vec2, d2: Vec2, k: int)
    requires
        k > 0,
        d2.x == k * d1.x,
        d2.y == k * d1.y,
    ensures
        spec_wind_towards(w, d1) == spec_wind_towards(w, d2),
{
    let dot1 = w.x * d1.x + w.y * d1.y;
    let dot2 = w.x * d2.x + w.y * d2.y;
    let wsq = w.x * w.x + w.y * w.y;
    let dsq1 = d1.x * d1.x + d1.y * d1.y;
    let dsq2 = d2.x * d2.x + d2.y * d2.y;
    assert(dot2 == k * dot1) by (nonlinear_arith)
        requires
            d2.x == k * d1.x,
            d2.y == k * d1.y,
            dot1 == w.x * d1.x + w.y * d1.y,
            dot2 == w.x * d2.x + w.y * d2.y,
    ;
    assert(dsq2 == (k * k) * dsq1) by (nonlinear_arith)
        requires
            d2.x == k * d1.x,
            d2.y == k * d1.y,
            dsq1 == d1.x * d1.x + d1.y * d1.y,
            dsq2 == d2.x * d2.x + d2.y * d2.y,
    ;
    assert((dot2 > 0) == (dot1 > 0)) by (nonlinear_arith)
        requires
            dot2 == k * dot1,
            k > 0,
    ;
    assert((2 * (dot2 * dot2) > wsq * dsq2) == (2 * (dot1 * dot1) > wsq * dsq1))
        by (nonlinear_arith)
        requires
            dot2 == k * dot1,
            dsq2 == (k * k) * dsq1,
            k > 0,
    ;
}

/// The four cardinal cones are disjoint: a wind faces at most one of them,
/// so the upwind border is well defined.
pub proof fn lemma_upwind_border_unique(w: Vec2)
    ensures
        !(spec_wind_towards(w, (Vec2 { x: 1, y: 0 })) && spec_wind_towards(
            w,
            (Vec2 { x: 0, y: 1 }),
        )),
        !(spec_wind_towards(w, (Vec2 { x: 1, y: 0 })) && spec_wind_towards(
            w,
            (Vec2 { x: -1i64, y: 0i64 }),
        )),
        !(spec_wind_towards(w, (Vec2 { x: 1, y: 0 })) && spec_wind_towards(
            w,
            (Vec2 { x: 0i64, y: -1i64 }),
        )),
        !(spec_wind_towards(w, (Vec2 { x: 0, y: 1 })) && spec_wind_towards(
            w,
            (Vec2 { x: -1i64, y: 0i64 }),
        )),
        !(spec_wind_towards(w, (Vec2 { x: 0, y: 1 })) && spec_wind_towards(
            w,
            (Vec2 { x: 0i64, y: -1i64 }),
        )),
        !(spec_wind_towards(w, (Vec2 { x: -1i64, y: 0i64 })) && spec_wind_towards(
            w,
            (Vec2 { x: 0i64, y: -1i64 }),
        )),
{
    lemma_wind_towards_cardinal(w);
}

/// Everything an engine needs to bring one topplegrass entity into the
/// world: the uniform scale of its transform, the point to place it at, and
/// its initial movement.
#[derive(Clone, Copy, Debug, PartialEq, Eq, Structural)]
pub struct SpawnCommand {
    pub scale: i64,
    pub position: Vec3,
    pub movement: Movement,
}

impl SpawnCommand {
    /// The creature type the spawn event carries.
    pub fn creature_type(&self) -> (s: String)
        ensures
            s@ == "Topplegrass"@,
    {
        "Topplegrass".to_owned()
    }
}

/// Periodically schedules a topplegrass entity to be spawned in.
#[derive(Clone, Copy, Debug, PartialEq, Eq, Structural)]
pub struct TopplegrassSpawnSystem {
    pub micros_to_next_spawn: i64,
}

impl TopplegrassSpawnSystem {
    /// The time left on the spawn timer never exceeds the spawn interval and
    /// never goes below zero between ticks.
    pub open spec fn wf(self) -> bool {
        0 <= self.micros_to_next_spawn <= SPAWN_INTERVAL_MICROS
    }

    /// Checks the time elapsed since the last spawn. If the system is ready
    /// to spawn another entity, the timer is reset and this returns true.
    pub fn ready_to_spawn(&mut self, delta_micros: i64) -> (r: bool)
        requires
            old(self).wf(),
            0 <= delta_micros <= MAX_FRAME_MICROS,
        ensures
            r <==> old(self).micros_to_next_spawn < delta_micros,
            r ==> final(self).micros_to_next_spawn == SPAWN_INTERVAL_MICROS,
            !r ==> final(self).micros_to_next_spawn == old(self).micros_to_next_spawn
                - delta_micros,
            final(self).wf(),
    {
        if self.micros_to_next_spawn < delta_micros {
            self.micros_to_next_spawn = SPAWN_INTERVAL_MICROS;
            true
        } else {
            self.micros_to_next_spawn = self.micros_to_next_spawn - delta_micros;
            false
        }
    }

    /// Returns true if and only if the given wind vector is roughly in line
    /// with the given cardinal direction vector, within a margin of a
    /// quarter pi: the integer cone test of `spec_wind_towards`.
    pub fn wind_towards_direction(wind: Vec2, cardinal_direction: Vec2) -> (r: bool)
        requires
            wind.wf(),
            cardinal_direction.wf(),
        ensures
            r == spec_wind_towards(wind, cardinal_direction),
    {
        proof {
            lemma_square_bound(wind.x as int);
            lemma_square_bound(wind.y as int);
            lemma_square_bound(cardinal_direction.x as int);
            lemma_square_bound(cardinal_direction.y as int);
            lemma_product_bound(wind.x as int, cardinal_direction.x as int);
            lemma_product_bound(wind.y as int, cardinal_direction.y as int);
        }
        let dot: i64 = wind.x * cardinal_direction.x + wind.y * cardinal_direction.y;
        if dot <= 0 {
            return false;
        }
        let wind_sq: i64 = wind.x * wind.x + wind.y * wind.y;
        let dir_sq: i64 = cardinal_direction.x * cardinal_direction.x + cardinal_direction.y
            * cardinal_direction.y;
        let dot_wide: u128 = dot as u128;
        proof {
            assert(dot_wide * dot_wide <= 0x10000000000000000000000000000000u128)
                by (nonlinear_arith)
                requires
                    dot_wide <= 2_000_000_000_000_000_000u128,
            ;
            assert((wind_sq as u128) * (dir_sq as u128) <= 0x10000000000000000000000000000000u128)
                by (nonlinear_arith)
                requires
                    wind_sq as u128 <= 2_000_000_000_000_000_000u128,
                    dir_sq as u128 <= 2_000_000_000_000_000_000u128,
            ;
        }
        let lhs: u128 = 2 * (dot_wide * dot_wide);
        let rhs: u128 = (wind_sq as u128) * (dir_sq as u128);
        lhs > rhs
    }

    /// Returns the position in which to spawn the next entity: a point drawn
    /// at random on the world border that the wind direction is facing away
    /// from, at the standard hover height.
    pub fn gen_spawn_location(wind: &Wind, bounds: &WorldBounds) -> (pos: Vec3)
        requires
            wind.wf(),
            bounds.wf(),
        ensures
            pos.z == HEIGHT,
            spec_on_upwind_border(pos, wind.wind, *bounds),
    {
        if Self::wind_towards_direction(wind.wind, Vec2 { x: 1, y: 0 }) {
            Vec3 { x: bounds.left, y: gen_range_i64(bounds.bottom, bounds.top), z: HEIGHT }
        } else if Self::wind_towards_direction(wind.wind, Vec2 { x: 0, y: 1 }) {
            Vec3 { x: gen_range_i64(bounds.left, bounds.right), y: bounds.bottom, z: HEIGHT }
        } else if Self::wind_towards_direction(wind.wind, Vec2 { x: -1i64, y: 0i64 }) {
            Vec3 { x: bounds.right, y: gen_range_i64(bounds.bottom, bounds.top), z: HEIGHT }
        } else {
            Vec3 { x: gen_range_i64(bounds.left, bounds.right), y: bounds.top, z: HEIGHT }
        }
    }

    /// One tick of the spawn system: advances the timer by the elapsed
    /// frame time and, each time it runs out, resets it and asks for one new
    /// topplegrass at the upwind border, scaled to the standard size and
    /// drifting with the wind.
    pub fn update(&mut self, delta_micros: i64, wind: &Wind, bounds: &WorldBounds) -> (cmd: Option<
        SpawnCommand,
    >)
        requires
            old(self).wf(),
            0 <= delta_micros <= MAX_FRAME_MICROS,
            wind.wf(),
            bounds.wf(),
        ensures
            (cmd is Some) <==> old(self).micros_to_next_spawn < delta_micros,
            (cmd is Some) ==> final(self).micros_to_next_spawn == SPAWN_INTERVAL_MICROS,
            (cmd is None) ==> final(self).micros_to_next_spawn == old(self).micros_to_next_spawn
                - delta_micros,
            final(self).wf(),
            match cmd {
                Some(c) => {
                    &&& c.scale == TOPPLEGRASS_BASE_SCALE
                    &&& c.position.z == HEIGHT
                    &&& spec_on_upwind_border(c.position, wind.wind, *bounds)
                    &&& c.movement.velocity == (Vec3 { x: wind.wind.x, y: wind.wind.y, z: 0 })
                    &&& c.movement.max_movement_speed == MAX_MOVEMENT_SPEED
                },
                None => true,
            },
    {
        if self.ready_to_spawn(delta_micros) {
            let position = Self::gen_spawn_location(wind, bounds);
            let movement = Movement {
                velocity: Vec3 { x: wind.wind.x, y: wind.wind.y, z: 0 },
                max_movement_speed: MAX_MOVEMENT_SPEED,
            };
            Some(SpawnCommand { scale: TOPPLEGRASS_BASE_SCALE, position, movement })
        } else {
            None
        }
    }
}

/// The total game time in a run of frame durations.
pub open spec fn total_micros(deltas: Seq<int>) -> int
    decreases deltas.len(),
{
    if deltas.len() == 0 {
        0
    } else {
        deltas[0] + total_micros(deltas.subrange(1, deltas.len() as int))
    }
}

/// Whether a spawn timer with `remaining` microseconds left fires at some
/// point during a run of frames. Each step mirrors what `ready_to_spawn`
/// ensures of one tick: the timer fires on a frame longer than what is left
/// on it, and otherwise counts the frame down.
pub open spec fn timer_fires_during(remaining: int, deltas: Seq<int>) -> bool
    decreases deltas.len(),
{
    if deltas.len() == 0 {
        false
    } else if remaining < deltas[0] {
        true
    } else {
        timer_fires_during(remaining - deltas[0], deltas.subrange(1, deltas.len() as int))
    }
}

/// A run of frame durations takes at least no time at all.
proof fn lemma_total_micros_nonneg(deltas: Seq<int>)
    requires
        forall|i: int| 0 <= i < deltas.len() ==> #[trigger] deltas[i] >= 0,
    ensures
        total_micros(deltas) >= 0,
    decreases deltas.len(),
{
    if deltas.len() > 0 {
        let rest = deltas.subrange(1, deltas.len() as int);
        assert forall|i: int| 0 <= i < rest.len() implies #[trigger] rest[i] >= 0 by {
            assert(rest[i] == deltas[i + 1]);
        }
        lemma_total_micros_nonneg(rest);
    }
}

/// The spawn timer fires during a run of frames exactly when more game time
/// elapses than was left on it. Right after a spawn the timer holds a full
/// interval, so two spawns always lie at least `SPAWN_INTERVAL_MICROS` of
/// game time apart.
pub proof fn lemma_timer_fires_iff_time_elapsed(remaining: int, deltas: Seq<int>)
    requires
        0 <= remaining,
        forall|i: int| 0 <= i < deltas.len() ==> #[trigger] deltas[i] >= 0,
    ensures
        timer_fires_during(remaining, deltas) <==> total_micros(deltas) > remaining,
    decreases deltas.len(),
{
    if deltas.len() > 0 {
        let rest = deltas.subrange(1, deltas.len() as int);
        assert forall|i: int| 0 <= i < rest.len() implies #[trigger] rest[i] >= 0 by {
            assert(rest[i] == deltas[i + 1]);
        }
        if remaining < deltas[0] {
            lemma_total_micros_nonneg(rest);
        } else {
            lemma_timer_fires_iff_time_elapsed(remaining - deltas[0], rest);
        }
    }
}

impl Default for TopplegrassSpawnSystem {
    /// A fresh system spawns on its first tick.
    fn default() -> (r: Self)
        ensures
            r.micros_to_next_spawn == 0,
            r.wf(),
    {
        TopplegrassSpawnSystem { micros_to_next_spawn: 0 }
    }
}

/// Controls the rolling animation of the topplegrass. Also makes the entity
/// skip up into the air every so often, to simulate it bumping into small
/// rocks or the wind catching it.
#[derive(Clone, Copy, Debug, PartialEq, Eq, Structural)]
pub struct TopplingSystem;

impl TopplingSystem {
    /// The rotation to append to a rolling entity over one frame, in
    /// fixed-point radians: the entity turns about the x axis against its y
    /// velocity and about the y axis with its x velocity, so that the roll
    /// matches the drift.
    pub fn rolling_rotation(movement: &Movement, delta_micros: i64) -> (rot: Vec2)
        requires
            movement.velocity.wf(),
            0 <= delta_micros <= MAX_FRAME_MICROS,
        ensures
            rot.x == -(ANGULAR_V_MAGIC * spec_scale_mul(
                movement.velocity.y as int,
                delta_micros as int,
            )),
            rot.y == ANGULAR_V_MAGIC * spec_scale_mul(
                movement.velocity.x as int,
                delta_micros as int,
            ),
    {
        let about_x: i64 = scale_mul(movement.velocity.y, delta_micros);
        let about_y: i64 = scale_mul(movement.velocity.x, delta_micros);
        Vec2 { x: -(ANGULAR_V_MAGIC * about_x), y: ANGULAR_V_MAGIC * about_y }
    }

    /// Sets the upward speed of an entity that skips into the air: its
    /// current speed scaled by the given factor. The horizontal drift is
    /// untouched, and the kick never points downward.
    pub fn apply_kick(movement: &mut Movement, factor: i64)
        requires
            old(movement).velocity.wf(),
            0 <= factor <= SCALE,
        ensures
            final(movement).velocity.x == old(movement).velocity.x,
            final(movement).velocity.y == old(movement).velocity.y,
            final(movement).max_movement_speed == old(movement).max_movement_speed,
            exists|mag: int|
                is_sqrt(sum_of_squares(old(movement).velocity), mag)
                    && final(movement).velocity.z == spec_scale_mul(mag, factor as int),
            final(movement).velocity.z >= 0,
    {
        let mag: i64 = movement.velocity.magnitude();
        let kick: i64 = scale_mul(mag, factor);
        proof {
            lemma_scale_mul_nonneg(mag as int, factor as int);
            assert(is_sqrt(sum_of_squares(old(movement).velocity), mag as int));
        }
        movement.velocity.z = kick;
    }

    /// One free-fall roll for one rolling entity that is not yet falling:
    /// with probability `FREE_FALL_CHANCE` out of `SCALE` the entity gets an
    /// upward kick of between `KICK_FACTOR_MIN` and `KICK_FACTOR_MAX`
    /// (fixed-point fractions of one) times its current speed, and the call
    /// returns true: the caller marks it as free falling. Otherwise nothing
    /// changes. Either way the horizontal drift is untouched.
    pub fn enter_free_fall(movement: &mut Movement) -> (r: bool)
        requires
            old(movement).velocity.wf(),
        ensures
            final(movement).velocity.x == old(movement).velocity.x,
            final(movement).velocity.y == old(movement).velocity.y,
            final(movement).max_movement_speed == old(movement).max_movement_speed,
            !r ==> *final(movement) == *old(movement),
            r ==> exists|mag: int, factor: int|
                is_sqrt(sum_of_squares(old(movement).velocity), mag) && KICK_FACTOR_MIN <= factor
                    < KICK_FACTOR_MAX && final(movement).velocity.z == spec_scale_mul(mag, factor),
            r ==> final(movement).velocity.z >= 0,
    {
        let roll: i64 = gen_range_i64(0, SCALE);
        if roll < FREE_FALL_CHANCE {
            let factor: i64 = gen_range_i64(KICK_FACTOR_MIN, KICK_FACTOR_MAX);
            Self::apply_kick(movement, factor);
            true
        } else {
            false
        }
    }
}

/// Applies the force of gravity on all free-falling entities. An entity
/// that has reached the ground again leaves free fall.
#[derive(Clone, Copy, Debug, PartialEq, Eq, Structural)]
pub struct GravitySystem;

impl GravitySystem {
    /// One gravity tick for one free-falling entity, given its movement and
    /// the height of its transform. An entity at or below the standard
    /// height that is moving downward touches down: it is put back at the
    /// standard height, its vertical speed is cleared, and the call returns
    /// true so that the caller takes it out of free fall. Any other entity
    /// keeps falling: its vertical speed drops by the gravity acceleration
    /// over the frame.
    pub fn fall_step(movement: &mut Movement, altitude: &mut i64, delta_micros: i64) -> (landed:
        bool)
        requires
            -FALL_SPEED_LIMIT <= old(movement).velocity.z <= FALL_SPEED_LIMIT,
            0 <= delta_micros <= MAX_FRAME_MICROS,
        ensures
            landed <==> (*old(altitude) <= HEIGHT && old(movement).velocity.z < 0),
            final(movement).velocity.x == old(movement).velocity.x,
            final(movement).velocity.y == old(movement).velocity.y,
            final(movement).max_movement_speed == old(movement).max_movement_speed,
            landed ==> *final(altitude) == HEIGHT && final(movement).velocity.z == 0,
            !landed ==> *final(altitude) == *old(altitude)
                && final(movement).velocity.z
                == old(movement).velocity.z - GRAVITY_ACCEL * delta_micros,
    {
        if *altitude <= HEIGHT && movement.velocity.z < 0 {
            *altitude = HEIGHT;
            movement.velocity.z = 0;
            true
        } else {
            movement.velocity.z = movement.velocity.z - GRAVITY_ACCEL * delta_micros;
            false
        }
    }
}

/// A truncating rescale of two factors with like signs is never negative.
proof fn lemma_scale_mul_nonneg(a: int, b: int)
    requires
        0 <= a,
        0 <= b,
    ensures
        spec_scale_mul(a, b) >= 0,
{
    assert(a * b >= 0) by (nonlinear_arith)
        requires
            0 <= a,
            0 <= b,
    ;
    vstd::arithmetic::div_mod::lemma_div_is_ordered(0, a * b, SCALE as int);
}

/// The square of a well-formed coordinate fits comfortably in 64 bits.
proof fn lemma_square_bound(x: int)
    requires
        -1_000_000_000 <= x <= 1_000_000_000,
    ensures
        0 <= x * x <= 1_000_000_000_000_000_000,
{
    assert(0 <= x * x <= 1_000_000_000_000_000_000) by (nonlinear_arith)
        requires
            -1_000_000_000 <= x <= 1_000_000_000,
    ;
}

/// The product of two well-formed coordinates fits comfortably in 64 bits.
proof fn lemma_product_bound(x: int, y: int)
    requires
        -1_000_000_000 <= x <= 1_000_000_000,
        -1_000_000_000 <= y <= 1_000_000_000,
    ensures
        -1_000_000_000_000_000_000 <= x * y <= 1_000_000_000_000_000_000,
{
    assert(-1_000_000_000_000_000_000 <= x * y <= 1_000_000_000_000_000_000) by (nonlinear_arith)
        requires
            -1_000_000_000 <= x <= 1_000_000_000,
            -1_000_000_000 <= y <= 1_000_000_000,
    ;
}

} // verus!
