//! Motion-generation node that walks toward the ball: the commanded
//! velocity is the unit direction toward the ball scaled by a fixed walk
//! speed, and the angular velocity is the ball's lateral offset clamped
//! into a fixed symmetric range, while the head tracks the ball.

use vstd::prelude::*;

use crate::geometry::{div_trunc, isqrt, point_in_range, spec_div_trunc, Vector2};
use crate::node::NodeError;
use crate::types::{BallState, CameraPosition, CycleTime, HeadMotion, ImageRegion, MotionCommand};

verus! {

/// Magnitude of the commanded walking velocity, millimeters per second.
pub const WALK_SPEED_MM_S: i64 = 100;

/// Bound of the symmetric angular-velocity clamp, milliradians per second.
pub const MAX_ANGULAR_MRAD_S: i64 = 250;

/// The walk node is stateless.
pub struct WalkToBall {}

/// Parameters needed at construction time: none.
pub struct CreationContext {}

/// What the node reads each cycle.
pub struct CycleContext {
    /// Timing of the current cycle.
    pub cycle_time: CycleTime,
    /// The composed ball state; a required input, so the node only runs
    /// in cycles that have one.
    pub ball_state: BallState,
}

/// What the node publishes each cycle.
pub struct MainOutputs {
    /// The walking command toward the ball.
    pub motion_command: MotionCommand,
}

/// `n` is the integer norm (rounded down) of the vector `(x, y)`.
pub open spec fn is_norm(x: int, y: int, n: int) -> bool {
    0 <= n && n * n <= x * x + y * y < (n + 1) * (n + 1)
}

/// The integer norm of the vector `(x, y)`: the unique `n` with
/// `is_norm(x, y, n)`.
pub open spec fn spec_norm(x: int, y: int) -> int {
    choose|n: int| is_norm(x, y, n)
}

/// Law: the integer norm is pinned down — any witness of `is_norm` is the
/// norm, so a caller can compute it by hand and identify it.
pub proof fn lemma_spec_norm(x: int, y: int, n: int)
    requires
        is_norm(x, y, n),
    ensures
        spec_norm(x, y) == n,
{
    let m = choose|m: int| is_norm(x, y, m);
    lemma_norm_unique(x * x + y * y, m, n);
}

/// The lateral offset clamped into the symmetric angular range.
pub open spec fn spec_clamped_angular(y: int) -> int {
    if y < -MAX_ANGULAR_MRAD_S {
        -MAX_ANGULAR_MRAD_S as int
    } else if y > MAX_ANGULAR_MRAD_S {
        MAX_ANGULAR_MRAD_S as int
    } else {
        y
    }
}

/// Law: the commanded angular velocity never leaves the symmetric range,
/// and inside the range it is the lateral offset itself.
pub proof fn lemma_angular_clamp(y: int)
    ensures
        -MAX_ANGULAR_MRAD_S <= spec_clamped_angular(y) <= MAX_ANGULAR_MRAD_S,
        -MAX_ANGULAR_MRAD_S <= y <= MAX_ANGULAR_MRAD_S ==> spec_clamped_angular(y) == y,
        y > MAX_ANGULAR_MRAD_S ==> spec_clamped_angular(y) == MAX_ANGULAR_MRAD_S,
        y < -MAX_ANGULAR_MRAD_S ==> spec_clamped_angular(y) == -MAX_ANGULAR_MRAD_S,
{
}

/// Two integer norms of the same vector coincide.
proof fn lemma_norm_unique(s: int, a: int, b: int)
    requires
        0 <= a,
        0 <= b,
        a * a <= s < (a + 1) * (a + 1),
        b * b <= s < (b + 1) * (b + 1),
    ensures
        a == b,
{
    if a < b {
        assert((a + 1) * (a + 1) <= b * b) by (nonlinear_arith)
            requires
                0 <= a,
                a + 1 <= b,
        ;
    }
    if b < a {
        assert((b + 1) * (b + 1) <= a * a) by (nonlinear_arith)
            requires
                0 <= b,
                b + 1 <= a,
        ;
    }
}

impl WalkToBall {
    /// Constructs the node; nothing can fail here.
    pub fn new(_context: CreationContext) -> (r: Result<Self, NodeError>)
        ensures
            r is Ok,
    {
        Ok(WalkToBall {  })
    }

    /// One cycle: commands a walk whose velocity is the unit direction
    /// toward the ball scaled by the fixed walk speed (integer norm,
    /// division truncating toward zero) and whose angular velocity is the
    /// ball's lateral offset clamped symmetrically, with the head looking
    /// at the ball. A ball standing exactly at the origin has no
    /// direction, so that single input is refused as degenerate.
    pub fn cycle(&mut self, context: CycleContext) -> (r: Result<MainOutputs, NodeError>)
        requires
            point_in_range(context.ball_state.ball_in_ground),
        ensures
            (r is Ok) <==> !(context.ball_state.ball_in_ground.x == 0
                && context.ball_state.ball_in_ground.y == 0),
            r is Err ==> r->Err_0 == NodeError::DegenerateInput,
            r matches Ok(out) ==> {
                let ball = context.ball_state.ball_in_ground;
                &&& out.motion_command is Walk
                &&& out.motion_command->Walk_head == (HeadMotion::LookAt {
                    target: ball,
                    image_region_target: ImageRegion::Center,
                    camera: Some(CameraPosition::Bottom),
                })
                &&& out.motion_command->Walk_angular_velocity as int == spec_clamped_angular(
                    ball.y as int,
                )
                &&& out.motion_command->Walk_velocity.x as int == spec_div_trunc(
                    ball.x as int * WALK_SPEED_MM_S,
                    spec_norm(ball.x as int, ball.y as int),
                )
                &&& out.motion_command->Walk_velocity.y as int == spec_div_trunc(
                    ball.y as int * WALK_SPEED_MM_S,
                    spec_norm(ball.x as int, ball.y as int),
                )
            },
    {
        let ball = context.ball_state.ball_in_ground;
        let x = ball.x;
        let y = ball.y;
        proof {
            assert(0 <= x * x <= 4_000_000_000_000_000_000) by (nonlinear_arith)
                requires
                    -2_000_000_000 <= x <= 2_000_000_000,
            ;
            assert(0 <= y * y <= 4_000_000_000_000_000_000) by (nonlinear_arith)
                requires
                    -2_000_000_000 <= y <= 2_000_000_000,
            ;
        }
        let squared = x * x + y * y;
        if squared == 0 {
            proof {
                assert(x == 0 && y == 0) by (nonlinear_arith)
                    requires
                        x * x + y * y == 0,
                ;
            }
            return Err(NodeError::DegenerateInput);
        }
        proof {
            assert(!(x == 0 && y == 0)) by (nonlinear_arith)
                requires
                    x * x + y * y > 0,
            ;
        }
        let norm = isqrt(squared as u64);
        proof {
            assert(norm >= 1) by (nonlinear_arith)
                requires
                    (squared as u64) < (norm + 1) * (norm + 1),
                    squared as u64 >= 1,
            ;
        }
        let vx = div_trunc(x * WALK_SPEED_MM_S, norm);
        let vy = div_trunc(y * WALK_SPEED_MM_S, norm);
        let angular_velocity = if y < -MAX_ANGULAR_MRAD_S {
            -MAX_ANGULAR_MRAD_S
        } else if y > MAX_ANGULAR_MRAD_S {
            MAX_ANGULAR_MRAD_S
        } else {
            y
        };
        proof {
            lemma_spec_norm(x as int, y as int, norm as int);
        }
        Ok(
            MainOutputs {
                motion_command: MotionCommand::Walk {
                    head: HeadMotion::LookAt {
                        target: ball,
                        image_region_target: ImageRegion::Center,
                        camera: Some(CameraPosition::Bottom),
                    },
                    velocity: Vector2 { x: vx, y: vy },
                    angular_velocity,
                },
            },
        )
    }
}

} // verus!
