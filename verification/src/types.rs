//! Plain data carried between nodes: cycle timing, ball perception,
//! planned-path segments and motion commands.
//!
//! Durations and timestamps are milliseconds, lengths are millimeters,
//! speeds are millimeters per second, angular rates are milliradians per
//! second.

use vstd::prelude::*;

use crate::geometry::{Point2, Vector2};

verus! {

/// Which half of the field, seen along the y axis.
#[derive(Clone, Copy, Debug, PartialEq, Eq, Structural)]
pub enum Side {
    Left,
    Right,
}

/// Where a penalty shot is heading, as judged by the ball filter.
#[derive(Clone, Copy, Debug, PartialEq, Eq, Structural)]
pub enum PenaltyShotDirection {
    NotMoving,
    Left,
    Right,
}

/// The coarse mode the robot is in, as filtered from game control and the
/// chest button.
#[derive(Clone, Copy, Debug, PartialEq, Eq, Structural)]
pub enum PrimaryState {
    Unstiff,
    Initial,
    Ready,
    Playing,
    Penalized,
    Finished,
}

/// Timing of the current cycle, published once per trigger by the cycler
/// that owns timing.
#[derive(Clone, Copy, Debug, PartialEq, Eq, Structural)]
pub struct CycleTime {
    /// Timestamp of the instant the cycle was triggered.
    pub start_time_ms: u64,
    /// Time elapsed between the previous trigger and this one.
    pub last_cycle_duration_ms: u64,
}

/// A ball detection in some frame: where, how fast, and when last seen.
#[derive(Clone, Copy, Debug, PartialEq, Eq)]
pub struct BallPosition {
    pub position: Point2,
    pub velocity: Vector2,
    pub last_seen_ms: u64,
}

/// The composed per-cycle ball snapshot, in both frames, with the
/// hysteresis-stabilized field side.
#[derive(Clone, Copy, Debug, PartialEq, Eq)]
pub struct BallState {
    pub ball_in_ground: Point2,
    pub ball_in_field: Point2,
    pub ball_in_ground_velocity: Vector2,
    pub last_seen_ball_ms: u64,
    pub field_side: Side,
    pub penalty_shot_direction: Option<PenaltyShotDirection>,
}

/// A trajectory primitive of a planned path, with its known length.
#[derive(Clone, Copy, Debug, PartialEq, Eq, Structural)]
pub enum PathSegment {
    /// A straight stretch of the given length in millimeters.
    Line { length_mm: u32 },
    /// An arc stretch of the given length in millimeters.
    Arc { length_mm: u32 },
}

impl PathSegment {
    /// Length of the segment in millimeters, whatever its shape.
    pub fn length_mm(&self) -> (r: u32)
        ensures
            r == self.spec_length_mm(),
    {
        match self {
            PathSegment::Line { length_mm } => *length_mm,
            PathSegment::Arc { length_mm } => *length_mm,
        }
    }

    /// Length of the segment in millimeters.
    pub open spec fn spec_length_mm(&self) -> u32 {
        match self {
            PathSegment::Line { length_mm } => *length_mm,
            PathSegment::Arc { length_mm } => *length_mm,
        }
    }
}

/// Which camera a head motion should favor.
#[derive(Clone, Copy, Debug, PartialEq, Eq, Structural)]
pub enum CameraPosition {
    Top,
    Bottom,
}

/// Where in the image a look-at target should land.
#[derive(Clone, Copy, Debug, PartialEq, Eq, Structural)]
pub enum ImageRegion {
    Center,
    Bottom,
}

/// What the head should do this cycle.
#[derive(Clone, Copy, Debug, PartialEq, Eq)]
pub enum HeadMotion {
    /// Track a ground-frame target.
    LookAt { target: Point2, image_region_target: ImageRegion, camera: Option<CameraPosition> },
    /// Hold the head centered.
    ZeroAngles,
}

/// The unit of actuation intent for one cycle.
#[derive(Clone, Copy, Debug, PartialEq, Eq)]
pub enum MotionCommand {
    /// Stand still, moving only the head.
    Stand { head: HeadMotion },
    /// Walk with the given ground-frame velocity (mm/s) and angular
    /// velocity (mrad/s), moving the head as requested.
    Walk { head: HeadMotion, velocity: Vector2, angular_velocity: i64 },
}

} // verus!
