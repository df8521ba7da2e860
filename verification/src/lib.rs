//! Simulation core of a small side-scrolling survival game.
//!
//! The core is a discrete-time game loop: a top-level state machine selects,
//! each tick, which subsystems run (monster spawner, roster cull, entity
//! updates, ambient decoration, screen transition). Every quantity the rules
//! touch is a fixed-point integer — world coordinates and the transition
//! alpha are kept in hundredths of a unit — so each update rule is exact and
//! machine-checked.
//!
//! Entity-internal behaviour (the hero's and the monsters' animation and
//! combat state machines, the drift of ambient particles and lights) belongs
//! to external collaborators; the core owns the entities' observable state
//! (position, activity, hittability) and guarantees when and in which order
//! each collaborator's step runs.
pub mod ambient;
pub mod draw;
pub mod game;
pub mod geometry;
pub mod hero;
pub mod laws;
pub mod monster;
pub mod rng;
pub mod transition;
