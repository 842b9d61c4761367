//! Simulation core of a 2D arcade shoot-'em-up: components, an entity store with
//! deferred structural changes, the per-tick systems and wave generation.
//!
//! Coordinates are fixed-point integers: one screen pixel is `SUBPIXELS` units.
//!
//! - `geom`: points, clamping, rectangle overlap, aiming vectors.
//! - `components`: the data attached to entities and the archetype constructors.
//! - `resources`: singleton resources and the tuning constants.
//! - `world`: generational entity handles, slots, deferred creation and deletion.
//! - `movement`, `shooting`, `combat`: the systems of one tick.
//! - `waves`: difficulty budgets and wave rosters.
//! - `game`: the driver's decisions and the ordered pipeline.
//! - `laws`: properties spanning several systems or ticks.
pub mod geom;
pub mod components;
mod rng;
pub mod resources;
pub mod world;
pub mod combat;
pub mod shooting;
pub mod waves;
pub mod movement;
pub mod game;
pub mod laws;
