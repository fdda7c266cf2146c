//! Gameplay-simulation core of a 2D arcade shooter.
//!
//! Entity state lives in composable data fragments (components) held by a
//! component store; the world advances once per fixed tick through an ordered
//! pipeline of systems; physical overlap between entities becomes gameplay
//! events, which are resolved into damage, death, pickup and scoring; entities
//! are never destroyed, only retired into inert background decorations.
//!
//! Positions are stored in thousandths of a world unit ("milliunits"), so that
//! integrating a velocity given in units per second over a tick given in
//! milliseconds is exact integer arithmetic.

pub mod actor;
pub mod combat;
pub mod comp;
pub mod director;
pub mod entity;
pub mod events;
pub mod lifecycle;
pub mod physics;
pub mod pickup;
pub mod rng;
pub mod sched;
pub mod spawn;
pub mod world;
