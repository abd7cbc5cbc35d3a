//! Simulation core of a grid-based snake game: a discrete-time state machine
//! that moves a growing snake over a fixed field, latches directional input
//! while rejecting reversals, detects out-of-bounds and self-collision deaths,
//! grows the snake when it eats, places food on free cells through a seeded
//! random source, and resets the board after a death. Every stage carries a
//! contract, and the inter-tick invariants — pairwise-distinct body cells,
//! food never on the snake — are proved to hold after every tick.

pub mod game;
pub mod grid;
mod rng;
