//! Vector arcade games: per-frame simulation, collision rules and state
//! machines, on fixed-point coordinates.
//!
//! Distances are counted in units of `1 / UNIT` of the playfield half-width
//! (the field spans `-UNIT ..= UNIT` on each axis) and time in ticks of
//! `1 / TICKS_PER_SEC` seconds. Velocities are distance units per second.
//! Everything that the games decide (motion, wrap-around, collisions,
//! splitting, scoring, state changes) is computed here on those integers,
//! and so is what each frame looks like, as a list of draw commands (all
//! but Battlezone's perspective view, which the host projects). Input
//! devices, the random source and trigonometry stay with the host, which
//! hands the library plain values: key states, time steps, random draws and
//! unit direction vectors.

pub mod asteroids;
pub mod battlezone;
pub mod chess_demo;
pub mod draw;
pub mod geom;
pub mod input;
pub mod lunar_lander;
pub mod pong;
pub mod tempest;
