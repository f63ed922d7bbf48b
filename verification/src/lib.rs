//! A verified model of a procedurally instanced, oscillating 3D scene.
//!
//! A load gate blocks scene construction until an asset bundle is resident;
//! a one-shot instancer then turns a grid configuration and a seeded random
//! stream into paired button/holder instances; per-frame systems drive each
//! instance and the camera with phase-offset oscillators. All fractional
//! quantities are fixed-point integers in micro-units (`n` stands for
//! `n / 1_000_000`), so every rule here is stated and proved exactly.

pub mod assets;
pub mod camera;
pub mod gate;
pub mod grid;
pub mod instance;
pub mod instancer;
pub mod oscillator;
pub mod rng;
pub mod scene;
pub mod units;
