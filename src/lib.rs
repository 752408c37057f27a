//! A breakout-style arcade game engine: collision math, game-flow state machine,
//! brick layout, per-tick physics response, and a resource-loading barrier.
pub mod geometry;
pub mod config;
pub mod state;
pub mod arena;
pub mod physics;
pub mod layout;
pub mod assets_tracking;
pub mod flow;
pub mod animation;
