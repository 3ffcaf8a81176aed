//! Scene/UI composition and draw-submission engine for a board-game client.
//!
//! The crate owns the logic of a frame: a component tree with cached
//! geometry and hit-testing, heterogeneous vertex batching with
//! multi-pipeline draw orchestration, an instanced-model registry, and the
//! first-person camera model that drives the 3-D view transform.
//!
//! All coordinates, colors, angles and durations are carried as signed
//! fixed-point integers in micro-units (`fixed::FX_ONE` is 1.0), so that
//! every computation here is exact and fully specified.  The thin shell
//! around this crate converts to floating point at the GPU boundary.

pub mod action_cards;
pub mod board;
pub mod camera;
pub mod fixed;
pub mod frame;
pub mod game;
pub mod player;
pub mod property;
pub mod render;
pub mod ui;
pub mod utils;
