use nuclear_monitor::particle::Particle;
use nuclear_monitor::reactor::{Reactor, HISTORY_SIZE, MAX_PARTICLES, TEMP_MAX, TEMP_MIN};

fn assert_bounds(r: &Reactor) {
    assert!((1_000..=10_000).contains(&r.radiation_level));
    assert!((TEMP_MIN..=TEMP_MAX).contains(&r.core_temperature));
    assert!((10_000..=30_000).contains(&r.pressure));
    assert!((0..=10_000).contains(&r.rod_position));
    assert!((-500..=3_500).contains(&r.instability));
    assert!((0..=10_000).contains(&r.coolant_level));
    assert!(r.history.len() <= HISTORY_SIZE);
    assert!(r.particles.len() <= MAX_PARTICLES);
    assert!((0..=10_000).contains(&r.stability()));
}

#[test]
fn initial_state() {
    let r = Reactor::new();
    assert_eq!(r.radiation_level, 1_000);
    assert_eq!(r.core_temperature, 22_000);
    assert_eq!(r.pressure, 10_130);
    assert_eq!(r.rod_position, 3_000);
    assert_eq!(r.instability, 0);
    assert_eq!(r.coolant_level, 9_500);
    assert_eq!(r.rods_count, 20);
    assert_eq!(r.total_collisions, 0);
    assert_eq!(r.collisions(), 0);
    assert!(!r.is_exploding);
    assert_eq!(r.explosion_frame, 0);
    assert!(r.history.is_empty());
    assert!(r.particles.is_empty());
    assert_bounds(&r);
}

#[test]
fn bounds_hold_over_many_ticks_and_loads() {
    let mut r = Reactor::new();
    let loads = [0i64, 2_500, 5_000, 7_500, 10_000, 12_345, -300];
    for step in 0..1_400 {
        r.update(loads[step % loads.len()]);
        assert_bounds(&r);
    }
}

#[test]
fn load_is_clamped_defensively() {
    let mut hot = Reactor::new();
    let mut capped = Reactor::new();
    for _ in 0..50 {
        hot.update(1_000_000);
        capped.update(10_000);
    }
    // An out-of-range load behaves exactly like the full-scale load.
    assert_eq!(hot.rod_position, capped.rod_position);
    assert_eq!(hot.core_temperature, capped.core_temperature);
    let mut cold = Reactor::new();
    let mut idle = Reactor::new();
    for _ in 0..50 {
        cold.update(-1_000_000);
        idle.update(0);
    }
    assert_eq!(cold.rod_position, idle.rod_position);
}

#[test]
fn rod_eases_toward_target() {
    let mut r = Reactor::new();
    // From 0.3 toward 1.0: one tick moves 3% of the distance.
    r.update(10_000);
    assert_eq!(r.rod_position, 3_000 + (10_000 - 3_000) * 3 / 100);
    let rod_after_one = r.rod_position;
    r.update(10_000);
    assert!(r.rod_position > rod_after_one);
}

#[test]
fn history_samples_every_third_tick() {
    let mut r = Reactor::new();
    for _ in 0..9 {
        r.update(0);
    }
    // Ticks 3, 6 and 9 sample.
    assert_eq!(r.history.len(), 3);
    for _ in 0..200 {
        r.update(0);
    }
    assert_eq!(r.history.len(), HISTORY_SIZE);
}

fn overlapping_cluster(count: usize) -> Vec<Particle> {
    let mut v = Vec::new();
    for k in 0..count {
        v.push(Particle {
            x: 5_000 + (k as i64),
            y: 5_000,
            velocity_x: 10,
            velocity_y: -10,
            lifetime: 200,
            radius: 200,
            energy: 1_000,
        });
    }
    v
}

#[test]
fn total_collisions_saturates_and_never_wraps() {
    let mut r = Reactor::new();
    r.total_collisions = usize::MAX - 1;
    r.particles = overlapping_cluster(8);
    r.update_counter = 1; // the next tick is even: the scan runs
    r.update(0);
    assert!(r.collisions() > 0, "the overlapping cluster must collide");
    assert_eq!(r.total_collisions, usize::MAX - 1);
    r.update_counter = 1;
    r.update(0);
    assert_eq!(r.total_collisions, usize::MAX - 1);
}

#[test]
fn collisions_heat_the_core_up_to_the_cap() {
    let mut r = Reactor::new();
    r.core_temperature = TEMP_MAX - 10;
    r.particles = overlapping_cluster(14);
    r.update_counter = 1;
    r.update(10_000);
    // 14 overlapping particles give 91 collisions: far more heat than the
    // gap the thermal easing opened below the cap.
    assert!(r.collisions() >= 55);
    assert_eq!(r.core_temperature, TEMP_MAX);
}

#[test]
fn population_never_exceeds_the_hard_cap() {
    let mut r = Reactor::new();
    r.particles = overlapping_cluster(MAX_PARTICLES);
    for _ in 0..100 {
        r.update(10_000);
        assert!(r.particles.len() <= MAX_PARTICLES);
        if r.is_exploding {
            break;
        }
    }
}

#[test]
fn explosion_latch_and_frozen_fields() {
    let mut r = Reactor::new();
    r.total_collisions = 101;
    r.rod_position = 10_000;
    r.core_temperature = 92_000;
    r.update(10_000);
    assert!(r.is_exploding, "the compound trigger must latch");
    assert_eq!(r.explosion_frame, 0);

    let radiation = r.radiation_level;
    let temperature = r.core_temperature;
    let pressure = r.pressure;
    let rod = r.rod_position;
    let instability = r.instability;
    let coolant = r.coolant_level;
    let total = r.total_collisions;
    let history: Vec<i64> = r.history.iter().copied().collect();
    let particles = r.particles.len();

    let mut frames = Vec::new();
    for _ in 0..60 {
        r.update(0);
        frames.push(r.explosion_frame);
        assert!(r.is_exploding);
        assert_eq!(r.radiation_level, radiation);
        assert_eq!(r.core_temperature, temperature);
        assert_eq!(r.pressure, pressure);
        assert_eq!(r.rod_position, rod);
        assert_eq!(r.instability, instability);
        assert_eq!(r.coolant_level, coolant);
        assert_eq!(r.total_collisions, total);
        assert_eq!(r.history.iter().copied().collect::<Vec<i64>>(), history);
        assert_eq!(r.particles.len(), particles);
    }
    // The animation advanced on its slowed cadence and capped at ten.
    assert_eq!(*frames.last().unwrap(), 10);
    assert!(frames.windows(2).all(|w| w[0] <= w[1] && w[1] <= w[0] + 1));
}

#[test]
fn sustained_high_load_heats_spawns_and_melts_down() {
    let mut r = Reactor::new();
    let mut saw_particles = false;
    let mut peak_temperature = r.core_temperature;
    for _ in 0..1_000 {
        r.update(9_500);
        saw_particles = saw_particles || !r.particles.is_empty();
        peak_temperature = peak_temperature.max(r.core_temperature);
    }
    assert!(saw_particles, "high load must generate particles");
    assert!(
        peak_temperature > 80_000,
        "the core must trend toward its high-load target, peak {peak_temperature}"
    );
    assert!(r.is_exploding, "sustained high load must reach the meltdown");
}

#[test]
fn idle_load_stays_calm() {
    let mut r = Reactor::new();
    for _ in 0..1_000 {
        r.update(0);
        // At idle the dynamic ceiling is 30% of the hard cap.
        assert!(r.particles.len() <= 60, "idle load must keep the population small");
        assert!(r.stability() < 2_000, "idle stability must stay low, got {}", r.stability());
        assert!(!r.is_exploding);
    }
}

#[test]
fn same_seed_same_run() {
    let mut a = Reactor::with_seed(99);
    let mut b = Reactor::with_seed(99);
    for step in 0..300i64 {
        let load = (step * 37) % 10_000;
        a.update(load);
        b.update(load);
    }
    assert_eq!(a.core_temperature, b.core_temperature);
    assert_eq!(a.instability, b.instability);
    assert_eq!(a.total_collisions, b.total_collisions);
    assert_eq!(a.particles.len(), b.particles.len());
    assert_eq!(a.stability(), b.stability());
}
