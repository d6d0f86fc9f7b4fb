//! Simulation core of a single-screen asteroids-style arcade game.
//!
//! A thrust-driven ship fires one projectile at a time at obstacles that
//! drift across a borderless playfield; a destroyed obstacle leaves a short
//! lived cluster of debris. Everything is fixed-point and deterministic:
//! [`game::Game::tick`] advances one frame, and its contract gives the next
//! state exactly.

pub mod fixed;
pub mod vector;
pub mod rng;
pub mod pool;
pub mod collision;
pub mod score;
pub mod render;
pub mod ship;
pub mod entities;
pub mod game;
