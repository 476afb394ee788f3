//! Discrete core of a small bullet-hell simulation: entity tags, hit points and
//! time-to-live counters, invulnerability and firing timers, hit resolution,
//! pruning of dead entities, the angular layout of circle spawn patterns, and
//! the entity catalog reader.
//!
//! Everything geometric (positions, velocities, facing angles) is carried as an
//! opaque body type `B` chosen by the caller; the library never looks inside it.
//! Durations are integer microseconds.
pub mod actor;
pub mod actor_state;
pub mod actor_type;
pub mod catalog;
pub mod input;
pub mod main_state;
pub mod pattern;
pub mod timer;
