//! Runtime core of a legged robot's control stack: a cyclic dataflow
//! framework that wires independent processing nodes together through a
//! path-addressable value store, runs them once per trigger inside a
//! cycler, and aggregates termination of all cyclers into one exit status.

pub mod action;
pub mod ball_state_composer;
pub mod cycler;
pub mod dispatch;
pub mod filtering;
pub mod geometry;
pub mod node;
pub mod robot_info;
pub mod runtime;
pub mod store;
pub mod timeline;
pub mod time_to_reach_kick_position;
pub mod types;
pub mod walk_to_ball;
