//! Radiation particles: bounded 2D point masses with reflecting walls,
//! a decaying one-byte lifetime, and an energy scalar.
//!
//! Positions live in `[RADIUS, SCALE - RADIUS]` on both axes (`SCALE` stands
//! for `1.0`); velocities are bounded by `V_MAX` per axis.

use vstd::prelude::*;
use crate::rng::rng_range;
use crate::util::{clamp, sat_add_u8, spec_clamp};

verus! {

/// Fixed-point scale: `10_000` stands for `1.0`.
pub const SCALE: i64 = 10_000;

/// Collision/draw radius of every particle (`0.02`).
pub const RADIUS: i64 = 200;

/// Bound on each velocity component (`0.1`); creation and collisions never
/// hand a particle a faster component, and damping only slows it.
pub const V_MAX: i64 = 1_000;

/// Bound kept on the energy scalar (`4.0`).
pub const ENERGY_MAX: i64 = 40_000;

/// Wall-bounce damping: the reflected component is `-v * 8 / 10`.
pub open spec fn damp_flip(v: int) -> int {
    if v >= 0 {
        -((8 * v) / 10)
    } else {
        (8 * (-v)) / 10
    }
}

/// Position after one integration step on one axis, with the reflecting
/// boundary: the particle is clamped back to the wall it crossed.
pub open spec fn reflect_pos(pos: int, vel: int) -> int {
    let n = pos + vel;
    if n < RADIUS {
        RADIUS as int
    } else if n > SCALE - RADIUS {
        SCALE - RADIUS
    } else {
        n
    }
}

/// Velocity after one integration step on one axis: flipped and damped
/// exactly when the step crossed a wall.
pub open spec fn reflect_vel(pos: int, vel: int) -> int {
    let n = pos + vel;
    if n < RADIUS || n > SCALE - RADIUS {
        damp_flip(vel)
    } else {
        vel
    }
}

#[derive(Clone, Copy, PartialEq, Eq, Structural)]
pub struct Particle {
    pub x: i64,
    pub y: i64,
    pub velocity_x: i64,
    pub velocity_y: i64,
    pub lifetime: u8,
    pub radius: i64,
    pub energy: i64,
}

impl Particle {
    /// Field ranges under which one step's arithmetic cannot overflow; the
    /// position may stand anywhere within one unit of the box.
    pub open spec fn bounded(self) -> bool {
        &&& self.radius == RADIUS
        &&& -SCALE <= self.x <= 2 * SCALE
        &&& -SCALE <= self.y <= 2 * SCALE
        &&& -V_MAX <= self.velocity_x <= V_MAX
        &&& -V_MAX <= self.velocity_y <= V_MAX
        &&& 0 <= self.energy <= ENERGY_MAX
    }

    /// Well-formed: bounded, with the position inside the walls.
    pub open spec fn wf(self) -> bool {
        &&& self.bounded()
        &&& RADIUS <= self.x <= SCALE - RADIUS
        &&& RADIUS <= self.y <= SCALE - RADIUS
    }

    pub open spec fn spec_alive(self) -> bool {
        self.lifetime > 0
    }

    /// Proximity test: squared distance of the centers below the squared sum
    /// of the radii.
    pub open spec fn spec_collides(self, other: Particle) -> bool {
        (self.x - other.x) * (self.x - other.x) + (self.y - other.y) * (self.y - other.y) < (
        self.radius + other.radius) * (self.radius + other.radius)
    }

    /// One full simulation step: integrate, reflect on walls, decay the
    /// lifetime (floored at zero), keep radius and energy.
    pub open spec fn spec_step(self) -> Particle {
        Particle {
            x: reflect_pos(self.x as int, self.velocity_x as int) as i64,
            y: reflect_pos(self.y as int, self.velocity_y as int) as i64,
            velocity_x: reflect_vel(self.x as int, self.velocity_x as int) as i64,
            velocity_y: reflect_vel(self.y as int, self.velocity_y as int) as i64,
            lifetime: if self.lifetime > 0 {
                (self.lifetime - 1) as u8
            } else {
                0
            },
            radius: self.radius,
            energy: self.energy,
        }
    }

    /// Create a particle at `(x, y)` (clamped into the box) whose speed,
    /// lifetime and energy grow with `intensity` (a fraction of `SCALE`,
    /// clamped defensively). The direction, the base speed and the base
    /// lifetime are random.
    pub fn new(x: i64, y: i64, intensity: i64, rng: &mut rand::rngs::StdRng) -> (p: Particle)
        ensures
            p.wf(),
            p.x == spec_clamp(x as int, RADIUS as int, SCALE - RADIUS),
            p.y == spec_clamp(y as int, RADIUS as int, SCALE - RADIUS),
            p.energy == 5000 + spec_clamp(intensity as int, 0, SCALE as int) / 2,
            p.spec_alive(),
            60 <= p.lifetime <= 254,
    {
        let ci = clamp(intensity, 0, SCALE);
        let k = rng_range(rng, 0, 16);
        // Base speed `0.03..0.15`, scaled down by the frame-rate factor
        // `0.33` and up by `1 + intensity / 2`.
        let base = rng_range(rng, 300, 1500) * 33 / 100;
        let factor = SCALE + ci / 2;
        assert(990_000 <= base * factor <= 7_410_000) by (nonlinear_arith)
            requires
                99 <= base <= 494,
                10_000 <= factor <= 15_000,
        ;
        let speed = base * factor / SCALE;
        assert(99 <= speed <= 741);
        let velocity_x = scale_by_dir(dir_x(k), speed);
        let velocity_y = scale_by_dir(dir_y(k), speed);
        let base_lifetime = rng_range(rng, 60, 180) as u8;
        let boost_raw = ci * 40 / SCALE;
        let boost: u8 = if boost_raw > 75 {
            75
        } else {
            boost_raw as u8
        };
        let lifetime = sat_add_u8(base_lifetime, boost);
        let energy = 5000 + ci / 2;
        Particle {
            x: clamp(x, RADIUS, SCALE - RADIUS),
            y: clamp(y, RADIUS, SCALE - RADIUS),
            velocity_x,
            velocity_y,
            lifetime,
            radius: RADIUS,
            energy,
        }
    }

    /// One simulation step: integrate the position, reflect (with damping) on
    /// walls, decrement the lifetime if it is still positive.
    pub fn update(&mut self)
        requires
            old(self).bounded(),
        ensures
            final(self).wf(),
            *final(self) == old(self).spec_step(),
    {
        self.x = self.x + self.velocity_x;
        self.y = self.y + self.velocity_y;
        if self.x < RADIUS || self.x > SCALE - RADIUS {
            self.velocity_x = damp(self.velocity_x);
            if self.x < RADIUS {
                self.x = RADIUS;
            } else {
                self.x = SCALE - RADIUS;
            }
        }
        if self.y < RADIUS || self.y > SCALE - RADIUS {
            self.velocity_y = damp(self.velocity_y);
            if self.y < RADIUS {
                self.y = RADIUS;
            } else {
                self.y = SCALE - RADIUS;
            }
        }
        if self.lifetime > 0 {
            self.lifetime = self.lifetime - 1;
        }
    }

    /// A particle lives exactly while its lifetime is positive.
    pub fn is_alive(&self) -> (r: bool)
        ensures
            r == self.spec_alive(),
    {
        self.lifetime > 0
    }

    /// Whether the two particles overlap this tick.
    pub fn collides_with(&self, other: &Particle) -> (r: bool)
        requires
            self.bounded(),
            other.bounded(),
        ensures
            r == self.spec_collides(*other),
    {
        let dx = self.x - other.x;
        let dy = self.y - other.y;
        assert(0 <= dx * dx <= 900_000_000 && 0 <= dy * dy <= 900_000_000) by (nonlinear_arith)
            requires
                -30_000 <= dx <= 30_000,
                -30_000 <= dy <= 30_000,
        ;
        let distance_squared = dx * dx + dy * dy;
        let radius_sum = self.radius + other.radius;
        distance_squared < radius_sum * radius_sum
    }

    /// Create a particle from a collision: it stands at the midpoint of the
    /// parents, carries `0.6` of their combined energy (capped), a third of
    /// their combined lifetime, and flies off in a random direction.
    pub fn spawn_from_collision(p1: &Particle, p2: &Particle, rng: &mut rand::rngs::StdRng) -> (p:
        Particle)
        requires
            p1.wf(),
            p2.wf(),
        ensures
            p.wf(),
            p.x == (p1.x + p2.x) / 2,
            p.y == (p1.y + p2.y) / 2,
            p.energy == spec_clamp((p1.energy + p2.energy) * 6 / 10, 0, ENERGY_MAX as int),
            p.lifetime == (p1.lifetime + p2.lifetime) / 3,
    {
        let mid_x = (p1.x + p2.x) / 2;
        let mid_y = (p1.y + p2.y) / 2;
        let k = rng_range(rng, 0, 16);
        let combined_energy = clamp((p1.energy + p2.energy) * 6 / 10, 0, ENERGY_MAX);
        // Speed `0.05 * 0.33 * combined_energy`.
        let speed = 165 * combined_energy / SCALE;
        let lifetime = ((p1.lifetime as u16 + p2.lifetime as u16) / 3) as u8;
        Particle {
            x: mid_x,
            y: mid_y,
            velocity_x: scale_by_dir(dir_x(k), speed),
            velocity_y: scale_by_dir(dir_y(k), speed),
            lifetime,
            radius: RADIUS,
            energy: combined_energy,
        }
    }
}

/// Wall reflection: a particle standing left of the left wall with a
/// leftward velocity is, after one step, exactly on the wall, with the
/// velocity flipped rightward and its magnitude reduced to `8/10`.
pub proof fn lemma_wall_reflection(p: Particle)
    requires
        p.x < RADIUS,
        p.velocity_x < 0,
    ensures
        p.spec_step().x == RADIUS,
        p.spec_step().velocity_x == (8 * (-p.velocity_x as int)) / 10,
        p.spec_step().velocity_x >= 0,
        p.spec_step().velocity_x <= -p.velocity_x as int,
{
    assert(p.x + p.velocity_x < RADIUS);
}

/// The proximity test does not depend on the order of the two particles.
pub proof fn lemma_collision_symmetry(a: Particle, b: Particle)
    ensures
        a.spec_collides(b) == b.spec_collides(a),
{
    assert((a.x - b.x) * (a.x - b.x) == (b.x - a.x) * (b.x - a.x)) by (nonlinear_arith);
    assert((a.y - b.y) * (a.y - b.y) == (b.y - a.y) * (b.y - a.y)) by (nonlinear_arith);
}

/// Executable wall-bounce damping; see [`damp_flip`].
fn damp(v: i64) -> (r: i64)
    requires
        -V_MAX <= v <= V_MAX,
    ensures
        r == damp_flip(v as int),
        -V_MAX <= r <= V_MAX,
        r * r <= v * v,
{
    let m = if v >= 0 {
        v
    } else {
        -v
    };
    let d = (8 * m) / 10;
    assert(0 <= d <= m);
    let r = if v >= 0 {
        -d
    } else {
        d
    };
    assert(r * r <= v * v) by (nonlinear_arith)
        requires
            0 <= d <= m,
            m == (if v >= 0 { v as int } else { -(v as int) }),
            r == (if v >= 0 { -(d as int) } else { d as int }),
    ;
    r
}

/// Cosine of the `k`-th of sixteen evenly spaced directions, times `SCALE`.
pub open spec fn spec_dir_x(k: int) -> int {
    if k == 0 { 10_000 }
    else if k == 1 { 9239 }
    else if k == 2 { 7071 }
    else if k == 3 { 3827 }
    else if k == 4 { 0 }
    else if k == 5 { -3827 }
    else if k == 6 { -7071 }
    else if k == 7 { -9239 }
    else if k == 8 { -10_000 }
    else if k == 9 { -9239 }
    else if k == 10 { -7071 }
    else if k == 11 { -3827 }
    else if k == 12 { 0 }
    else if k == 13 { 3827 }
    else if k == 14 { 7071 }
    else { 9239 }
}

/// Sine of the `k`-th of sixteen evenly spaced directions, times `SCALE`.
pub open spec fn spec_dir_y(k: int) -> int {
    if k == 0 { 0 }
    else if k == 1 { 3827 }
    else if k == 2 { 7071 }
    else if k == 3 { 9239 }
    else if k == 4 { 10_000 }
    else if k == 5 { 9239 }
    else if k == 6 { 7071 }
    else if k == 7 { 3827 }
    else if k == 8 { 0 }
    else if k == 9 { -3827 }
    else if k == 10 { -7071 }
    else if k == 11 { -9239 }
    else if k == 12 { -10_000 }
    else if k == 13 { -9239 }
    else if k == 14 { -7071 }
    else { -3827 }
}

fn dir_x(k: i64) -> (r: i64)
    ensures
        r == spec_dir_x(k as int),
        -SCALE <= r <= SCALE,
{
    if k == 0 { 10_000 }
    else if k == 1 { 9239 }
    else if k == 2 { 7071 }
    else if k == 3 { 3827 }
    else if k == 4 { 0 }
    else if k == 5 { -3827 }
    else if k == 6 { -7071 }
    else if k == 7 { -9239 }
    else if k == 8 { -10_000 }
    else if k == 9 { -9239 }
    else if k == 10 { -7071 }
    else if k == 11 { -3827 }
    else if k == 12 { 0 }
    else if k == 13 { 3827 }
    else if k == 14 { 7071 }
    else { 9239 }
}

fn dir_y(k: i64) -> (r: i64)
    ensures
        r == spec_dir_y(k as int),
        -SCALE <= r <= SCALE,
{
    if k == 0 { 0 }
    else if k == 1 { 3827 }
    else if k == 2 { 7071 }
    else if k == 3 { 9239 }
    else if k == 4 { 10_000 }
    else if k == 5 { 9239 }
    else if k == 6 { 7071 }
    else if k == 7 { 3827 }
    else if k == 8 { 0 }
    else if k == 9 { -3827 }
    else if k == 10 { -7071 }
    else if k == 11 { -9239 }
    else if k == 12 { -10_000 }
    else if k == 13 { -9239 }
    else if k == 14 { -7071 }
    else { -3827 }
}

/// `dir * speed / SCALE`, with the division taken on the magnitude so that
/// executable truncation and the specification agree; the result never
/// exceeds `speed` in magnitude.
fn scale_by_dir(dir: i64, speed: i64) -> (r: i64)
    requires
        -SCALE <= dir <= SCALE,
        0 <= speed <= V_MAX,
    ensures
        -speed <= r <= speed,
{
    let m = if dir >= 0 {
        dir
    } else {
        -dir
    };
    assert(0 <= m * speed <= 10_000 * speed) by (nonlinear_arith)
        requires
            0 <= m <= 10_000,
            0 <= speed <= 1_000,
    ;
    let prod = m * speed;
    let d = prod / 10_000;
    assert(0 <= d <= speed);
    if dir >= 0 {
        d
    } else {
        -d
    }
}

} // verus!
