use nuclear_monitor::particle::{Particle, RADIUS, SCALE};
use rand::SeedableRng;

fn still(x: i64, y: i64) -> Particle {
    Particle { x, y, velocity_x: 0, velocity_y: 0, lifetime: 1, radius: RADIUS, energy: 0 }
}

#[test]
fn lifetime_decays_by_one() {
    let mut p = still(5_000, 5_000);
    p.lifetime = 7;
    p.update();
    assert_eq!(p.lifetime, 6);
    assert!(p.is_alive());
}

#[test]
fn lifetime_floors_at_zero() {
    let mut p = still(5_000, 5_000);
    p.lifetime = 0;
    p.update();
    assert_eq!(p.lifetime, 0);
    assert!(!p.is_alive());
}

#[test]
fn wall_reflection_left() {
    // Just inside of the left wall, moving left: the step crosses the wall.
    let mut p = still(RADIUS - 1, 5_000);
    p.lifetime = 10;
    p.velocity_x = -50;
    p.update();
    assert_eq!(p.x, RADIUS);
    // Sign flipped, magnitude damped to 8/10.
    assert_eq!(p.velocity_x, 40);
}

#[test]
fn wall_reflection_right() {
    let mut p = still(SCALE - RADIUS, 5_000);
    p.lifetime = 10;
    p.velocity_x = 100;
    p.update();
    assert_eq!(p.x, SCALE - RADIUS);
    assert_eq!(p.velocity_x, -80);
}

#[test]
fn free_flight_integrates_position() {
    let mut p = still(5_000, 5_000);
    p.lifetime = 10;
    p.velocity_x = 30;
    p.velocity_y = -40;
    p.update();
    assert_eq!(p.x, 5_030);
    assert_eq!(p.y, 4_960);
    assert_eq!(p.velocity_x, 30);
    assert_eq!(p.velocity_y, -40);
}

#[test]
fn collision_is_symmetric() {
    let pairs = [
        (still(5_000, 5_000), still(5_300, 5_000)),
        (still(5_000, 5_000), still(5_400, 5_000)),
        (still(200, 200), still(9_800, 9_800)),
        (still(4_000, 4_100), still(4_050, 4_200)),
    ];
    for (a, b) in pairs.iter() {
        assert_eq!(a.collides_with(b), b.collides_with(a));
    }
}

#[test]
fn collision_threshold_is_squared_distance() {
    let a = still(5_000, 5_000);
    // 300 apart: 300^2 < (2 * RADIUS)^2.
    assert!(a.collides_with(&still(5_300, 5_000)));
    // Exactly 400 apart: not strictly below the threshold.
    assert!(!a.collides_with(&still(5_400, 5_000)));
}

#[test]
fn new_particle_is_bounded_and_alive() {
    let mut rng = rand::rngs::StdRng::seed_from_u64(11);
    for intensity in [0i64, 2_500, 5_000, 10_000] {
        let p = Particle::new(5_000, 5_000, intensity, &mut rng);
        assert!(p.is_alive());
        assert!((60..=254).contains(&(p.lifetime as i64)));
        assert!(p.velocity_x.abs() <= 1_000);
        assert!(p.velocity_y.abs() <= 1_000);
        assert!(p.velocity_x != 0 || p.velocity_y != 0);
        assert_eq!(p.energy, 5_000 + intensity / 2);
        assert_eq!(p.radius, RADIUS);
    }
}

#[test]
fn new_particle_clamps_position() {
    let mut rng = rand::rngs::StdRng::seed_from_u64(12);
    let p = Particle::new(-5_000, 50_000, 0, &mut rng);
    assert_eq!(p.x, RADIUS);
    assert_eq!(p.y, SCALE - RADIUS);
}

#[test]
fn spawn_from_collision_midpoint_energy_lifetime() {
    let mut rng = rand::rngs::StdRng::seed_from_u64(13);
    let mut a = still(4_000, 5_000);
    a.lifetime = 90;
    a.energy = 10_000;
    let mut b = still(5_000, 6_000);
    b.lifetime = 40;
    b.energy = 5_000;
    let c = Particle::spawn_from_collision(&a, &b, &mut rng);
    assert_eq!(c.x, 4_500);
    assert_eq!(c.y, 5_500);
    assert_eq!(c.energy, 9_000); // (10_000 + 5_000) * 6 / 10
    assert_eq!(c.lifetime, 43); // (90 + 40) / 3
    assert_eq!(c.radius, RADIUS);
}
