//! A verified model of a small 2D scene: two physics-simulated "crate"
//! sprites (one movable, one fixed) and an orthographic camera, assembled
//! once at startup, plus an empty per-tick dispatcher.
//!
//! The library holds the assembly logic and its contracts. The engine that
//! renders the scene and simulates the bodies works on floating-point data
//! and does file I/O, so it is driven from an unverified front end that
//! translates this model's plain values into engine calls.

pub mod paths;
pub mod scene;
pub mod state;
pub mod world;
