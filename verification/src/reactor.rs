//! The reactor aggregate: scalar state derived from the load signal, the
//! particle population, collision bookkeeping, and the one-way explosion
//! latch.
//!
//! One call of [`Reactor::update`] is one simulation tick. While the reactor
//! is not exploding a tick eases the control rods toward the load, derives
//! temperature, radiation, pressure and coolant, samples the temperature
//! history, advances the particles, scans for collisions, spawns ambient
//! particles, and finally tests the explosion trigger. Once the latch is set,
//! a tick only advances the explosion animation.

use vstd::prelude::*;
use std::collections::VecDeque;
use crate::particle::{Particle, SCALE};
use crate::rng::{rng_from_seed, rng_range};
use crate::util::{clamp, spec_clamp};

verus! {

/// Capacity of the temperature-history FIFO.
pub const HISTORY_SIZE: usize = 30;

/// Hard bound on the particle population.
pub const MAX_PARTICLES: usize = 200;

/// Resting core temperature (centi-degrees).
pub const TEMP_MIN: i64 = 22_000;

/// Cap on the core temperature under collision heating (centi-degrees).
pub const TEMP_MAX: i64 = 100_000;

/// Seed of the generator a plain `Reactor::new()` owns.
const DEFAULT_SEED: u64 = 7;

pub open spec fn spec_min(a: int, b: int) -> int {
    if a <= b {
        a
    } else {
        b
    }
}

/// The tick counter wraps at one million.
pub open spec fn spec_next_counter(c: int) -> int {
    (c + 1) % 1_000_000
}

/// First-order lag toward `target`: move by 3% of the distance, truncated.
pub open spec fn spec_ease(cur: int, target: int) -> int {
    if target >= cur {
        cur + (target - cur) * 3 / 100
    } else {
        cur - (cur - target) * 3 / 100
    }
}

/// Control rods only move while they are off target by more than `0.01`.
pub open spec fn spec_ease_rod(cur: int, target: int) -> int {
    if cur - target > 100 || target - cur > 100 {
        spec_ease(cur, target)
    } else {
        cur
    }
}

/// Temperature the core is drawn toward at a given rod position:
/// `220 + 700 * rod` degrees.
pub open spec fn spec_target_temp(rod: int) -> int {
    22_000 + 7 * rod
}

/// Radiation rises with the square of the rod position:
/// `10 + 90 * rod^2` percent, clamped.
pub open spec fn spec_radiation(rod: int) -> int {
    spec_clamp(1_000 + 9 * (rod * rod) / 100_000, 1_000, 10_000)
}

/// Pressure follows the temperature deviation: `101.3 + 0.1 * (T - 220)`,
/// clamped to `[100, 300]`.
pub open spec fn spec_pressure(temp: int) -> int {
    spec_clamp(10_130 + (temp - 22_000) / 10, 10_000, 30_000)
}

/// Coolant depletes with the temperature deviation: `100 - 0.05 * (T - 220)`,
/// clamped to `[0, 100]`.
pub open spec fn spec_coolant(temp: int) -> int {
    spec_clamp(10_000 - (temp - 22_000) / 20, 0, 10_000)
}

/// The survivors of one tick: the particles still alive, each advanced one
/// step, in their original order.
pub open spec fn spec_survivors(s: Seq<Particle>) -> Seq<Particle>
    decreases s.len(),
{
    if s.len() == 0 {
        Seq::empty()
    } else {
        let rest = spec_survivors(s.drop_last());
        if s.last().spec_alive() {
            rest.push(s.last().spec_step())
        } else {
            rest
        }
    }
}

/// `b` is `a` with its velocity possibly inverted by (an odd number of)
/// elastic bounces; everything else agrees.
pub open spec fn spec_flip_related(a: Particle, b: Particle) -> bool {
    &&& b.x == a.x
    &&& b.y == a.y
    &&& b.lifetime == a.lifetime
    &&& b.radius == a.radius
    &&& b.energy == a.energy
    &&& ((b.velocity_x == a.velocity_x && b.velocity_y == a.velocity_y) || (b.velocity_x
        == -a.velocity_x && b.velocity_y == -a.velocity_y))
}

/// One history sample per three ticks, oldest evicted at capacity.
pub open spec fn spec_history_step(h: Seq<i64>, sample: i64, counter: int) -> Seq<i64> {
    if counter % 3 == 0 {
        if h.len() >= HISTORY_SIZE {
            h.drop_first().push(sample)
        } else {
            h.push(sample)
        }
    } else {
        h
    }
}

pub struct Reactor {
    /// Radiation level in centi-percent, within `[1_000, 10_000]`.
    pub radiation_level: i64,
    /// Core temperature in centi-degrees, within `[TEMP_MIN, TEMP_MAX]`.
    pub core_temperature: i64,
    /// Pressure in centi-kPa, within `[10_000, 30_000]`.
    pub pressure: i64,
    /// Control-rod withdrawal as a fraction of `SCALE`: `0` is fully
    /// inserted (low power), `SCALE` fully withdrawn (high power).
    pub rod_position: i64,
    /// Stochastic instability in centi-percent, within `[-500, 3_500]`.
    pub instability: i64,
    /// Recent core-temperature samples, oldest first.
    pub history: VecDeque<i64>,
    /// The owned particle population.
    pub particles: Vec<Particle>,
    pub rods_count: u8,
    /// Coolant level in centi-percent, within `[0, 10_000]`.
    pub coolant_level: i64,
    /// Tick counter, wrapping at one million.
    pub update_counter: u32,
    /// Collisions detected in the current tick.
    pub collisions_this_frame: usize,
    /// Lifetime collision count; saturating, never wraps.
    pub total_collisions: usize,
    /// The one-way explosion latch.
    pub is_exploding: bool,
    /// Explosion animation counter, at most `10`.
    pub explosion_frame: u8,
    /// The reactor's own random stream.
    pub rng: rand::rngs::StdRng,
}

impl Reactor {
    /// Collisions detected in the current tick.
    pub open spec fn spec_collisions(self) -> int {
        self.collisions_this_frame as int
    }

    /// The tick counter, always below one million.
    pub open spec fn spec_counter(self) -> int {
        self.update_counter as int
    }

    /// The documented ranges every tick re-establishes.
    pub open spec fn bounds_ok(self) -> bool {
        &&& 1_000 <= self.radiation_level <= 10_000
        &&& TEMP_MIN <= self.core_temperature <= TEMP_MAX
        &&& 10_000 <= self.pressure <= 30_000
        &&& 0 <= self.rod_position <= SCALE
        &&& -500 <= self.instability <= 3_500
        &&& 0 <= self.coolant_level <= 10_000
        &&& self.history@.len() <= HISTORY_SIZE
        &&& self.particles@.len() <= MAX_PARTICLES
        &&& forall|i: int| 0 <= i < self.particles@.len() ==> (#[trigger] self.particles@[i]).wf()
        &&& self.total_collisions <= usize::MAX - 1
        &&& self.explosion_frame <= 10
    }

    /// Well-formed: the documented ranges, plus the tick counter in range.
    pub open spec fn wf(self) -> bool {
        &&& self.bounds_ok()
        &&& self.update_counter < 1_000_000
    }

    /// Instability score in centi-percent, `0` calm to `10_000` critical: a
    /// weighted, clamped sum of temperature deviation, radiation, stochastic
    /// instability and coolant deficit.
    pub open spec fn spec_stability(self) -> int {
        spec_clamp(
            (self.core_temperature - 22_000) * 4 / 70 + self.radiation_level * 4 / 10
                + self.instability + (10_000 - self.coolant_level) / 5,
            0,
            10_000,
        )
    }

    /// A fresh reactor at its documented resting state, owning a generator
    /// seeded with a fixed default, so that runs are reproducible.
    pub fn new() -> (r: Reactor)
        ensures
            r.wf(),
            r.at_rest(),
    {
        Reactor::with_seed(DEFAULT_SEED)
    }

    /// The documented initial state.
    pub open spec fn at_rest(self) -> bool {
        &&& self.radiation_level == 1_000
        &&& self.core_temperature == 22_000
        &&& self.pressure == 10_130
        &&& self.rod_position == 3_000
        &&& self.instability == 0
        &&& self.history@ == Seq::<i64>::empty()
        &&& self.particles@ == Seq::<Particle>::empty()
        &&& self.rods_count == 20
        &&& self.coolant_level == 9_500
        &&& self.total_collisions == 0
        &&& !self.is_exploding
        &&& self.explosion_frame == 0
        &&& self.spec_collisions() == 0
        &&& self.spec_counter() == 0
    }

    /// A fresh reactor whose random stream starts from the given seed.
    pub fn with_seed(seed: u64) -> (r: Reactor)
        ensures
            r.wf(),
            r.at_rest(),
    {
        Reactor {
            radiation_level: 1_000,
            core_temperature: 22_000,
            pressure: 10_130,
            rod_position: 3_000,
            instability: 0,
            history: VecDeque::new(),
            particles: Vec::new(),
            rods_count: 20,
            coolant_level: 9_500,
            update_counter: 0,
            collisions_this_frame: 0,
            total_collisions: 0,
            is_exploding: false,
            explosion_frame: 0,
            rng: rng_from_seed(seed),
        }
    }

    /// Instability score in centi-percent; see [`Reactor::spec_stability`].
    pub fn stability(&self) -> (s: i64)
        requires
            self.wf(),
        ensures
            s == self.spec_stability(),
            0 <= s <= 10_000,
    {
        let temp_part = (self.core_temperature - 22_000) * 4 / 70;
        let rad_part = self.radiation_level * 4 / 10;
        let coolant_part = (10_000 - self.coolant_level) / 5;
        clamp(temp_part + rad_part + self.instability + coolant_part, 0, 10_000)
    }

    /// Collisions detected in the current tick.
    pub fn collisions(&self) -> (c: usize)
        ensures
            c == self.spec_collisions(),
    {
        self.collisions_this_frame
    }

    /// One simulation tick, driven by the current load in centi-percent
    /// (clamped into `[0, SCALE]` defensively).
    #[verifier::rlimit(50)]
    pub fn update(&mut self, cpu_load: i64)
        requires
            old(self).wf(),
        ensures
            final(self).wf(),
            final(self).bounds_ok(),
            spec_update(*old(self), *final(self), cpu_load as int),
    {
        self.update_counter = (self.update_counter + 1) % 1_000_000;
        self.collisions_this_frame = 0;

        // Explosion gate: while exploding, only the animation advances.
        if self.is_exploding {
            if self.update_counter % 5 == 0 && self.explosion_frame < 10 {
                self.explosion_frame = self.explosion_frame + 1;
            }
            return ;
        }
        let load = clamp(cpu_load, 0, SCALE);

        // Rod and thermal dynamics: first-order lag toward the targets.
        let target_rod = load;
        let distance = if self.rod_position >= target_rod {
            self.rod_position - target_rod
        } else {
            target_rod - self.rod_position
        };
        if distance > 100 {
            self.rod_position = ease(self.rod_position, target_rod);
        }
        let rod = self.rod_position;
        let target_temp = 22_000 + 7 * rod;
        let temp_eased = ease(self.core_temperature, target_temp);
        self.core_temperature = temp_eased;

        // Derived fields, clamped.
        assert(0 <= rod * rod <= 100_000_000) by (nonlinear_arith)
            requires
                0 <= rod <= 10_000,
        ;
        self.radiation_level = clamp(1_000 + 9 * (rod * rod) / 100_000, 1_000, 10_000);
        self.pressure = clamp(10_130 + (temp_eased - 22_000) / 10, 10_000, 30_000);
        self.coolant_level = clamp(10_000 - (temp_eased - 22_000) / 20, 0, 10_000);

        // Stochastic instability around the rod-driven baseline.
        let noise = rng_range(&mut self.rng, -500, 500);
        self.instability = rod * 3 / 10 + noise;

        // History sampling on a slower cadence than the tick.
        if self.update_counter % 3 == 0 {
            if self.history.len() >= HISTORY_SIZE {
                self.history.pop_front();
            }
            self.history.push_back(temp_eased);
        }

        // Particle physics: cull the dead, advance the survivors.
        cull_and_advance(&mut self.particles);

        // Pairwise collision scan on a slower cadence.
        if self.update_counter % 2 == 0 && self.particles.len() > 5 {
            self.collision_scan(load);
        }
        // Ambient spawning near the core.
        self.ambient_spawn(load);

        // Explosion trigger.
        let stab = self.stability();
        if self.total_collisions > 100 && stab > 8_000 {
            self.is_exploding = true;
            self.explosion_frame = 0;
        }
    }

    /// The `O(n^2)` pairwise collision pass: count and heat on each hit,
    /// bounce both particles, sometimes spawn children at the hit (appended
    /// only after the scan).
    #[verifier::loop_isolation(false)]
    fn collision_scan(&mut self, load: i64)
        requires
            0 <= load <= SCALE,
            old(self).particles@.len() <= MAX_PARTICLES,
            forall|i: int|
                0 <= i < old(self).particles@.len() ==> (#[trigger] old(self).particles@[i]).wf(),
            TEMP_MIN <= old(self).core_temperature <= TEMP_MAX,
            1_000 <= old(self).radiation_level <= 10_000,
            0 <= old(self).coolant_level <= 10_000,
            old(self).total_collisions <= usize::MAX - 1,
            old(self).collisions_this_frame == 0,
        ensures
            final(self).particles@.len() <= MAX_PARTICLES,
            old(self).particles@.len() <= final(self).particles@.len(),
            forall|i: int|
                0 <= i < old(self).particles@.len() ==> spec_flip_related(
                    old(self).particles@[i],
                    #[trigger] final(self).particles@[i],
                ),
            forall|i: int|
                old(self).particles@.len() <= i < final(self).particles@.len() ==> (
                #[trigger] final(self).particles@[i]).wf(),
            final(self).core_temperature == spec_min(
                old(self).core_temperature + 50 * final(self).spec_collisions(),
                TEMP_MAX as int,
            ),
            final(self).total_collisions == spec_min(
                old(self).total_collisions + final(self).spec_collisions(),
                usize::MAX - 1,
            ),
            final(self).radiation_level == old(self).radiation_level,
            final(self).coolant_level == old(self).coolant_level,
            final(self).rod_position == old(self).rod_position,
            final(self).pressure == old(self).pressure,
            final(self).instability == old(self).instability,
            final(self).history@ == old(self).history@,
            final(self).rods_count == old(self).rods_count,
            final(self).is_exploding == old(self).is_exploding,
            final(self).explosion_frame == old(self).explosion_frame,
            final(self).update_counter == old(self).update_counter,
    {
        let n = self.particles.len();
        let room = MAX_PARTICLES - n;
        let mut new_particles: Vec<Particle> = Vec::new();
        let ghost orig = self.particles@;
        let ghost temp0 = self.core_temperature as int;
        let ghost total0 = self.total_collisions as int;
        let mut i: usize = 0;
        while i < n
            invariant
                i <= n,
                self.particles@.len() == n,
                forall|k: int|
                    0 <= k < n ==> spec_flip_related(orig[k], #[trigger] self.particles@[k]),
                forall|k: int| 0 <= k < n ==> (#[trigger] self.particles@[k]).wf(),
                forall|k: int|
                    0 <= k < new_particles@.len() ==> (#[trigger] new_particles@[k]).wf(),
                new_particles@.len() <= room,
                self.collisions_this_frame <= i * 200,
                self.core_temperature == spec_min(
                    temp0 + 50 * self.collisions_this_frame,
                    TEMP_MAX as int,
                ),
                self.total_collisions == spec_min(
                    total0 + self.collisions_this_frame,
                    usize::MAX - 1,
                ),
                self.radiation_level == old(self).radiation_level,
                self.coolant_level == old(self).coolant_level,
                self.rod_position == old(self).rod_position,
                self.pressure == old(self).pressure,
                self.instability == old(self).instability,
                self.history@ == old(self).history@,
                self.rods_count == old(self).rods_count,
                self.is_exploding == old(self).is_exploding,
                self.explosion_frame == old(self).explosion_frame,
                self.update_counter == old(self).update_counter,
            decreases n - i,
        {
            let mut j: usize = i + 1;
            while j < n
                invariant
                    i < n,
                    i + 1 <= j <= n,
                    self.particles@.len() == n,
                    forall|k: int|
                        0 <= k < n ==> spec_flip_related(orig[k], #[trigger] self.particles@[k]),
                    forall|k: int| 0 <= k < n ==> (#[trigger] self.particles@[k]).wf(),
                    forall|k: int|
                        0 <= k < new_particles@.len() ==> (#[trigger] new_particles@[k]).wf(),
                    new_particles@.len() <= room,
                    self.collisions_this_frame <= i * 200 + (j - i),
                    self.core_temperature == spec_min(
                        temp0 + 50 * self.collisions_this_frame,
                        TEMP_MAX as int,
                    ),
                    self.total_collisions == spec_min(
                        total0 + self.collisions_this_frame,
                        usize::MAX - 1,
                    ),
                    self.radiation_level == old(self).radiation_level,
                    self.coolant_level == old(self).coolant_level,
                    self.rod_position == old(self).rod_position,
                    self.pressure == old(self).pressure,
                    self.instability == old(self).instability,
                    self.history@ == old(self).history@,
                    self.rods_count == old(self).rods_count,
                    self.is_exploding == old(self).is_exploding,
                    self.explosion_frame == old(self).explosion_frame,
                    self.update_counter == old(self).update_counter,
                decreases n - j,
            {
                let pi = self.particles[i];
                let pj = self.particles[j];
                if pi.collides_with(&pj) {
                    assert(i * 200 + (j - i) + 1 <= 200 * 200) by (nonlinear_arith)
                        requires
                            0 <= i < n,
                            i < j < n,
                            n <= 200,
                    ;
                    self.collisions_this_frame = self.collisions_this_frame + 1;
                    if self.total_collisions < usize::MAX - 1 {
                        self.total_collisions = self.total_collisions + 1;
                    }
                    // Each collision heats the core a little, up to the cap.
                    let heated = self.core_temperature + 50;
                    self.core_temperature = if heated > TEMP_MAX {
                        TEMP_MAX
                    } else {
                        heated
                    };
                    self.radiation_level = clamp(self.radiation_level, 1_000, 10_000);
                    self.coolant_level = clamp(self.coolant_level, 0, 10_000);

                    // Elastic bounce: both velocities invert.
                    let mut p1 = self.particles[i];
                    p1.velocity_x = -p1.velocity_x;
                    p1.velocity_y = -p1.velocity_y;
                    self.particles.set(i, p1);
                    let mut p2 = self.particles[j];
                    p2.velocity_x = -p2.velocity_x;
                    p2.velocity_y = -p2.velocity_y;
                    self.particles.set(j, p2);

                    // Load-dependent chance of spawning children at the hit.
                    let collision_chance = 3_000 + load * 4 / 10;
                    let draw = rng_range(&mut self.rng, 0, 10_000);
                    if draw < collision_chance && new_particles.len() < room {
                        let spawn_count = {
                            let c = load * 3 / 10_000;
                            if c < 1 {
                                1
                            } else if c > 3 {
                                3
                            } else {
                                c
                            }
                        };
                        let a = self.particles[i];
                        let b = self.particles[j];
                        spawn_children(&a, &b, spawn_count, room, &mut new_particles, &mut self.rng);
                    }
                }
                j = j + 1;
            }
            i = i + 1;
        }
        // Merge the staged children only after the scan.
        self.particles.append(&mut new_particles);
    }

    /// Ambient spawning near the core: a radiation- and load-scaled chance,
    /// a load-scaled dynamic population ceiling, and at most four spawns per
    /// tick.
    #[verifier::loop_isolation(false)]
    fn ambient_spawn(&mut self, load: i64)
        requires
            0 <= load <= SCALE,
            old(self).particles@.len() <= MAX_PARTICLES,
            forall|i: int|
                0 <= i < old(self).particles@.len() ==> (#[trigger] old(self).particles@[i]).wf(),
            0 <= old(self).rod_position <= SCALE,
            1_000 <= old(self).radiation_level <= 10_000,
        ensures
            final(self).particles@.len() <= MAX_PARTICLES,
            old(self).particles@.len() <= final(self).particles@.len(),
            forall|i: int|
                0 <= i < old(self).particles@.len() ==> #[trigger] final(self).particles@[i]
                    == old(self).particles@[i],
            forall|i: int|
                old(self).particles@.len() <= i < final(self).particles@.len() ==> (
                #[trigger] final(self).particles@[i]).wf(),
            final(self).core_temperature == old(self).core_temperature,
            final(self).total_collisions == old(self).total_collisions,
            final(self).collisions_this_frame == old(self).collisions_this_frame,
            final(self).radiation_level == old(self).radiation_level,
            final(self).coolant_level == old(self).coolant_level,
            final(self).rod_position == old(self).rod_position,
            final(self).pressure == old(self).pressure,
            final(self).instability == old(self).instability,
            final(self).history@ == old(self).history@,
            final(self).rods_count == old(self).rods_count,
            final(self).is_exploding == old(self).is_exploding,
            final(self).explosion_frame == old(self).explosion_frame,
            final(self).update_counter == old(self).update_counter,
    {
        let rod = self.rod_position;
        assert(0 <= rod * load <= 100_000_000) by (nonlinear_arith)
            requires
                0 <= rod <= 10_000,
                0 <= load <= 10_000,
        ;
        let intensity = rod * load / SCALE;

        // Chance scales with radiation and load.
        let base_chance = self.radiation_level * 27 / 100;
        assert(0 <= base_chance * (SCALE + load) <= 54_000_000) by (nonlinear_arith)
            requires
                0 <= base_chance <= 2_700,
                0 <= load <= 10_000,
        ;
        let particle_chance = base_chance * (SCALE + load) / SCALE;

        // Load-scaled dynamic ceiling, at most the hard bound.
        let dynamic_max_i = 200 * (3_000 + load * 7 / 10) / 10_000;
        assert(60 <= dynamic_max_i <= 200);
        let dynamic_max = dynamic_max_i as usize;

        let per_update = {
            let c = 1 + load * 3 / 10_000;
            if c > 4 {
                4i64
            } else {
                c
            }
        };
        let ghost orig = self.particles@;
        let mut t: i64 = 0;
        while t < per_update
            invariant
                0 <= t <= per_update <= 4,
                dynamic_max <= MAX_PARTICLES,
                orig.len() <= self.particles@.len() <= MAX_PARTICLES,
                forall|i: int|
                    0 <= i < orig.len() ==> #[trigger] self.particles@[i] == orig[i],
                forall|i: int|
                    orig.len() <= i < self.particles@.len() ==> (
                    #[trigger] self.particles@[i]).wf(),
                0 <= intensity <= 10_000,
                0 <= particle_chance <= 5_400,
                self.core_temperature == old(self).core_temperature,
                self.total_collisions == old(self).total_collisions,
                self.collisions_this_frame == old(self).collisions_this_frame,
                self.radiation_level == old(self).radiation_level,
                self.coolant_level == old(self).coolant_level,
                self.rod_position == old(self).rod_position,
                self.pressure == old(self).pressure,
                self.instability == old(self).instability,
                self.history@ == old(self).history@,
                self.rods_count == old(self).rods_count,
                self.is_exploding == old(self).is_exploding,
                self.explosion_frame == old(self).explosion_frame,
                self.update_counter == old(self).update_counter,
            decreases per_update - t,
        {
            let draw = rng_range(&mut self.rng, 0, 10_000);
            if draw < particle_chance && self.particles.len() < dynamic_max {
                // Spawn near the core, with more spread at higher load.
                let spread = 1_000 + load / 10;
                let offset_x = rng_range(&mut self.rng, -spread, spread);
                let offset_y = rng_range(&mut self.rng, -spread, spread);
                let p = Particle::new(5_000 + offset_x, 5_000 + offset_y, intensity, &mut self.rng);
                self.particles.push(p);
            }
            t = t + 1;
        }
    }
}

/// What one tick does while the reactor is exploding: the physics is frozen,
/// only the animation counter advances, on a slowed cadence and capped.
pub open spec fn spec_explosion_step(pre: Reactor, post: Reactor) -> bool {
    &&& post.is_exploding
    &&& post.radiation_level == pre.radiation_level
    &&& post.core_temperature == pre.core_temperature
    &&& post.pressure == pre.pressure
    &&& post.rod_position == pre.rod_position
    &&& post.instability == pre.instability
    &&& post.coolant_level == pre.coolant_level
    &&& post.history@ == pre.history@
    &&& post.particles@ == pre.particles@
    &&& post.rods_count == pre.rods_count
    &&& post.total_collisions == pre.total_collisions
    &&& post.spec_collisions() == 0
    &&& post.explosion_frame == (if spec_next_counter(pre.spec_counter()) % 5 == 0
        && pre.explosion_frame < 10 {
        pre.explosion_frame + 1
    } else {
        pre.explosion_frame as int
    })
}

/// What one tick does while the reactor is not exploding.
pub open spec fn spec_normal_step(pre: Reactor, post: Reactor, load: int) -> bool {
    let lc = spec_clamp(load, 0, SCALE as int);
    let rod = spec_ease_rod(pre.rod_position as int, lc);
    let te = spec_ease(pre.core_temperature as int, spec_target_temp(rod));
    &&& post.rod_position == rod
    &&& post.radiation_level == spec_radiation(rod)
    &&& post.pressure == spec_pressure(te)
    &&& post.coolant_level == spec_coolant(te)
    &&& post.core_temperature == spec_min(te + 50 * post.spec_collisions(), TEMP_MAX as int)
    &&& rod * 3 / 10 - 500 <= post.instability <= rod * 3 / 10 + 499
    &&& post.history@ == spec_history_step(
        pre.history@,
        te as i64,
        spec_next_counter(pre.spec_counter()),
    )
    &&& post.total_collisions == spec_min(
        pre.total_collisions + post.spec_collisions(),
        usize::MAX - 1,
    )
    &&& post.is_exploding == (post.total_collisions > 100 && post.spec_stability() > 8_000)
    &&& (post.is_exploding ==> post.explosion_frame == 0)
    &&& (!post.is_exploding ==> post.explosion_frame == pre.explosion_frame)
    &&& post.rods_count == pre.rods_count
    &&& post.particles@.len() <= MAX_PARTICLES
    &&& spec_survivors(pre.particles@).len() <= post.particles@.len()
    &&& forall|i: int|
        0 <= i < spec_survivors(pre.particles@).len() ==> spec_flip_related(
            spec_survivors(pre.particles@)[i],
            #[trigger] post.particles@[i],
        )
}

/// The full tick relation: the counter advances, and the explosion latch
/// decides which of the two step relations holds.
pub open spec fn spec_update(pre: Reactor, post: Reactor, load: int) -> bool {
    &&& post.spec_counter() == spec_next_counter(pre.spec_counter())
    &&& if pre.is_exploding {
        spec_explosion_step(pre, post)
    } else {
        spec_normal_step(pre, post, load)
    }
}

/// Stage one to three children of a colliding pair, stopping once the
/// staging buffer has used up the room left under the population cap.
fn spawn_children(
    a: &Particle,
    b: &Particle,
    count: i64,
    room: usize,
    staged: &mut Vec<Particle>,
    rng: &mut rand::rngs::StdRng,
)
    requires
        a.wf(),
        b.wf(),
        0 <= count <= 3,
        old(staged)@.len() <= room,
        forall|k: int| 0 <= k < old(staged)@.len() ==> (#[trigger] old(staged)@[k]).wf(),
    ensures
        old(staged)@.len() <= final(staged)@.len() <= room,
        forall|k: int|
            0 <= k < old(staged)@.len() ==> #[trigger] final(staged)@[k] == old(staged)@[k],
        forall|k: int| 0 <= k < final(staged)@.len() ==> (#[trigger] final(staged)@[k]).wf(),
{
    let mut s: i64 = 0;
    while s < count
        invariant
            0 <= s,
            count <= 3,
            old(staged)@.len() <= staged@.len() <= room,
            forall|k: int|
                0 <= k < old(staged)@.len() ==> #[trigger] staged@[k] == old(staged)@[k],
            forall|k: int| 0 <= k < staged@.len() ==> (#[trigger] staged@[k]).wf(),
            a.wf(),
            b.wf(),
        decreases count - s,
    {
        if staged.len() < room {
            let child = Particle::spawn_from_collision(a, b, rng);
            staged.push(child);
        }
        s = s + 1;
    }
}

/// The lifetime collision counter saturates: one tick never shrinks it, and
/// it never wraps past its maximum.
pub proof fn lemma_collision_counter_saturates(pre: Reactor, post: Reactor, load: int)
    requires
        pre.wf(),
        spec_update(pre, post, load),
    ensures
        pre.total_collisions <= post.total_collisions <= usize::MAX - 1,
{
}

/// The explosion latch is one-way: once set, a tick keeps it set and freezes
/// every physics field; only the animation frame can change.
pub proof fn lemma_explosion_is_terminal(pre: Reactor, post: Reactor, load: int)
    requires
        pre.is_exploding,
        spec_update(pre, post, load),
    ensures
        post.is_exploding,
        post.radiation_level == pre.radiation_level,
        post.core_temperature == pre.core_temperature,
        post.pressure == pre.pressure,
        post.rod_position == pre.rod_position,
        post.instability == pre.instability,
        post.coolant_level == pre.coolant_level,
        post.history@ == pre.history@,
        post.particles@ == pre.particles@,
        post.total_collisions == pre.total_collisions,
{
}

/// The explosion trigger: with the collision threshold already passed, the
/// rods fully withdrawn and the core hot, the next tick at full load latches
/// the explosion and resets the animation frame, whatever the random draws
/// were.
pub proof fn lemma_explosion_trigger(pre: Reactor, post: Reactor, load: int)
    requires
        pre.wf(),
        !pre.is_exploding,
        pre.total_collisions > 100,
        pre.rod_position == SCALE,
        pre.core_temperature >= 90_000,
        load >= SCALE,
        spec_update(pre, post, load),
    ensures
        post.is_exploding,
        post.explosion_frame == 0,
{
    let lc = spec_clamp(load, 0, SCALE as int);
    assert(lc == SCALE);
    let rod = spec_ease_rod(pre.rod_position as int, lc);
    assert(rod == SCALE);
    let tt = spec_target_temp(rod);
    assert(tt == 92_000);
    let te = spec_ease(pre.core_temperature as int, tt);
    assert(te >= 90_000);
    assert(te <= 100_000);
    assert(post.core_temperature >= 90_000);
    assert(rod * rod == 100_000_000) by (nonlinear_arith)
        requires
            rod == 10_000,
    ;
    assert(post.radiation_level == 10_000);
    assert(post.coolant_level <= 6_600);
    assert(0 <= post.coolant_level);
    assert(post.instability >= 2_500);
    assert((post.core_temperature - 22_000) * 4 / 70 >= 3_885);
    assert(post.spec_stability() > 8_000);
    assert(post.total_collisions > 100);
}

/// Remove the dead particles in place (keeping the survivors' order) and
/// advance every survivor one step.
fn cull_and_advance(particles: &mut Vec<Particle>)
    requires
        forall|i: int|
            0 <= i < old(particles)@.len() ==> (#[trigger] old(particles)@[i]).wf(),
    ensures
        final(particles)@ == spec_survivors(old(particles)@),
        final(particles)@.len() <= old(particles)@.len(),
        forall|i: int|
            0 <= i < final(particles)@.len() ==> (#[trigger] final(particles)@[i]).wf(),
{
    let n = particles.len();
    let mut kept: Vec<Particle> = Vec::new();
    let mut i: usize = 0;
    while i < n
        invariant
            i <= n == particles@.len(),
            particles@ == old(particles)@,
            forall|k: int| 0 <= k < n ==> (#[trigger] particles@[k]).wf(),
            kept@ == spec_survivors(particles@.subrange(0, i as int)),
            kept@.len() <= i,
            forall|k: int| 0 <= k < kept@.len() ==> (#[trigger] kept@[k]).wf(),
        decreases n - i,
    {
        let p = particles[i];
        assert(particles@.subrange(0, i + 1 as int).drop_last() == particles@.subrange(0, i as int));
        assert(particles@.subrange(0, i + 1 as int).last() == p);
        if p.is_alive() {
            let mut q = p;
            q.update();
            kept.push(q);
        }
        i = i + 1;
    }
    assert(particles@.subrange(0, n as int) == particles@);
    *particles = kept;
}

/// Executable first-order lag; see [`spec_ease`]. The result stays between
/// the current value and the target.
fn ease(cur: i64, target: i64) -> (r: i64)
    requires
        -1_000_000 <= cur <= 1_000_000,
        -1_000_000 <= target <= 1_000_000,
    ensures
        r == spec_ease(cur as int, target as int),
        (target >= cur ==> cur <= r <= target),
        (target < cur ==> target <= r <= cur),
{
    if target >= cur {
        let d = target - cur;
        let step = d * 3 / 100;
        assert(0 <= step <= d);
        cur + step
    } else {
        let d = cur - target;
        let step = d * 3 / 100;
        assert(0 <= step <= d);
        cur - step
    }
}

} // verus!
