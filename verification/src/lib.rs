//! Terminal "nuclear reactor" load visualizer: the simulation core.
//!
//! All physical quantities are fixed-point integers:
//! - fractions (positions, velocities, rod position, intensity, energy) are
//!   scaled by 10_000 (`SCALE`), so `10_000` stands for `1.0`;
//! - percentage-like quantities (load, radiation, coolant, stability) are in
//!   centi-percent, `0..=10_000` standing for `0.0..=100.0` percent;
//! - temperatures are in centi-degrees (`22_000` stands for `220.0`);
//! - pressure is in centi-kPa (`10_130` stands for `101.3`).

pub mod control;
pub mod particle;
pub mod reactor;
pub mod regions;
pub mod rng;
pub mod util;

pub use control::AppState;
pub use particle::Particle;
pub use reactor::Reactor;
pub use regions::find_fillable_regions;
pub use util::clamp;
