//! Composes the per-cycle ball state out of zero or more raw detections,
//! with a fixed precedence: a locally observed ball takes priority over a
//! team-shared estimate; with neither (or without the ground-to-field
//! transform) the cycle's ball state is absent rather than a stale
//! carry-over.
//!
//! Which half of the field the ball is on is stabilized with a hysteresis
//! band around the centerline, kept as the node's persistent side memory.

use vstd::prelude::*;

use crate::filtering::{greater_than_with_hysteresis, spec_greater_than_with_hysteresis};
use crate::geometry::{
    isometry_well_formed, point_in_range, spec_inverse_vec_x, spec_inverse_vec_y, spec_inverse_x,
    spec_inverse_y, spec_transform_x, spec_transform_y, vector_in_range, Isometry2, Point2,
    Vector2,
};
use crate::node::NodeError;
use crate::types::{BallPosition, BallState, CycleTime, PenaltyShotDirection, Side};

verus! {

/// Width of the hysteresis band around the field centerline, millimeters.
pub const FIELD_SIDE_HYSTERESIS_MM: i64 = 200;

/// The composer's cross-cycle state: the field side the ball was last on.
pub struct BallStateComposer {
    pub last_ball_field_side: Side,
}

/// Parameters needed at construction time: none.
pub struct CreationContext {}

/// What the node reads each cycle.
pub struct CycleContext {
    /// Timing of the current cycle.
    pub cycle_time: CycleTime,
    /// The ball detected by this robot's own cameras, in the ground frame.
    pub ball_position: Option<BallPosition>,
    /// Where a penalty shot is heading, if one is being tracked.
    pub penalty_shot_direction: Option<PenaltyShotDirection>,
    /// The transform from the ground frame to the field frame, if
    /// localization currently provides one.
    pub ground_to_field: Option<Isometry2>,
    /// The ball estimate shared by teammates, in the field frame.
    pub team_ball: Option<BallPosition>,
}

/// What the node publishes each cycle.
pub struct MainOutputs {
    /// The composed ball state, absent when no source can place the ball.
    pub ball_state: Option<BallState>,
}

/// A ball state is published this cycle: some source places the ball and
/// the ground-to-field transform is available to express it in both
/// frames.
pub open spec fn spec_ball_present(ctx: CycleContext) -> bool {
    ctx.ground_to_field is Some && (ctx.ball_position is Some || ctx.team_ball is Some)
}

/// The composition draws on the local observation (which wins over a
/// team-shared estimate whenever both are present).
pub open spec fn spec_uses_local(ctx: CycleContext) -> bool {
    ctx.ground_to_field is Some && ctx.ball_position is Some
}

/// Ground-frame x of the composed ball: the local observation itself, or
/// the team estimate taken back through the inverse transform.
pub open spec fn spec_composed_ground_x(ctx: CycleContext) -> int
    recommends
        spec_ball_present(ctx),
{
    if ctx.ball_position is Some {
        ctx.ball_position->0.position.x as int
    } else {
        spec_inverse_x(
            ctx.ground_to_field->0,
            ctx.team_ball->0.position.x as int,
            ctx.team_ball->0.position.y as int,
        )
    }
}

/// Ground-frame y of the composed ball.
pub open spec fn spec_composed_ground_y(ctx: CycleContext) -> int
    recommends
        spec_ball_present(ctx),
{
    if ctx.ball_position is Some {
        ctx.ball_position->0.position.y as int
    } else {
        spec_inverse_y(
            ctx.ground_to_field->0,
            ctx.team_ball->0.position.x as int,
            ctx.team_ball->0.position.y as int,
        )
    }
}

/// Field-frame x of the composed ball: the local observation pushed
/// through the transform, or the team estimate itself.
pub open spec fn spec_composed_field_x(ctx: CycleContext) -> int
    recommends
        spec_ball_present(ctx),
{
    if ctx.ball_position is Some {
        spec_transform_x(
            ctx.ground_to_field->0,
            ctx.ball_position->0.position.x as int,
            ctx.ball_position->0.position.y as int,
        )
    } else {
        ctx.team_ball->0.position.x as int
    }
}

/// Field-frame y of the composed ball; also the coordinate the field-side
/// hysteresis judges.
pub open spec fn spec_composed_field_y(ctx: CycleContext) -> int
    recommends
        spec_ball_present(ctx),
{
    if ctx.ball_position is Some {
        spec_transform_y(
            ctx.ground_to_field->0,
            ctx.ball_position->0.position.x as int,
            ctx.ball_position->0.position.y as int,
        )
    } else {
        ctx.team_ball->0.position.y as int
    }
}

/// Ground-frame x velocity of the composed ball.
pub open spec fn spec_composed_velocity_x(ctx: CycleContext) -> int
    recommends
        spec_ball_present(ctx),
{
    if ctx.ball_position is Some {
        ctx.ball_position->0.velocity.x as int
    } else {
        spec_inverse_vec_x(
            ctx.ground_to_field->0,
            ctx.team_ball->0.velocity.x as int,
            ctx.team_ball->0.velocity.y as int,
        )
    }
}

/// Ground-frame y velocity of the composed ball.
pub open spec fn spec_composed_velocity_y(ctx: CycleContext) -> int
    recommends
        spec_ball_present(ctx),
{
    if ctx.ball_position is Some {
        ctx.ball_position->0.velocity.y as int
    } else {
        spec_inverse_vec_y(
            ctx.ground_to_field->0,
            ctx.team_ball->0.velocity.x as int,
            ctx.team_ball->0.velocity.y as int,
        )
    }
}

/// When the composed ball was last seen: by the source that placed it.
pub open spec fn spec_composed_last_seen_ms(ctx: CycleContext) -> u64
    recommends
        spec_ball_present(ctx),
{
    if ctx.ball_position is Some {
        ctx.ball_position->0.last_seen_ms
    } else {
        ctx.team_ball->0.last_seen_ms
    }
}

/// The field side the composed ball falls on, judged with hysteresis from
/// the side remembered across cycles.
pub open spec fn spec_composed_side(ctx: CycleContext, last_side: Side) -> Side
    recommends
        spec_ball_present(ctx),
{
    if spec_greater_than_with_hysteresis(
        last_side == Side::Left,
        spec_composed_field_y(ctx),
        0,
        FIELD_SIDE_HYSTERESIS_MM as int,
    ) {
        Side::Left
    } else {
        Side::Right
    }
}

/// The machine limits a cycle context must respect: a present transform
/// is well formed and present detections are inside the coordinate range.
pub open spec fn ctx_in_range(ctx: CycleContext) -> bool {
    &&& (ctx.ground_to_field matches Some(gtf) ==> isometry_well_formed(gtf))
    &&& (ctx.ball_position matches Some(bp) ==> point_in_range(bp.position))
    &&& (ctx.team_ball matches Some(tb) ==> point_in_range(tb.position) && vector_in_range(
        tb.velocity,
    ))
}

/// Builds one ball state around the given coordinates and stabilizes the
/// field side through the remembered one.
pub fn create_ball_state(
    ball_in_ground: Point2,
    ball_in_field: Point2,
    ball_in_ground_velocity: Vector2,
    last_seen_ball_ms: u64,
    last_ball_field_side: &mut Side,
    penalty_shot_direction: Option<PenaltyShotDirection>,
) -> (state: BallState)
    ensures
        state.ball_in_ground == ball_in_ground,
        state.ball_in_field == ball_in_field,
        state.ball_in_ground_velocity == ball_in_ground_velocity,
        state.last_seen_ball_ms == last_seen_ball_ms,
        state.penalty_shot_direction == penalty_shot_direction,
        state.field_side == (if spec_greater_than_with_hysteresis(
            *old(last_ball_field_side) == Side::Left,
            ball_in_field.y as int,
            0,
            FIELD_SIDE_HYSTERESIS_MM as int,
        ) {
            Side::Left
        } else {
            Side::Right
        }),
        *final(last_ball_field_side) == state.field_side,
{
    let was_in_left_half = *last_ball_field_side == Side::Left;
    let is_in_left_half = greater_than_with_hysteresis(
        was_in_left_half,
        ball_in_field.y,
        0,
        FIELD_SIDE_HYSTERESIS_MM,
    );
    let side = if is_in_left_half {
        Side::Left
    } else {
        Side::Right
    };
    *last_ball_field_side = side;
    BallState {
        ball_in_ground,
        ball_in_field,
        ball_in_ground_velocity,
        last_seen_ball_ms,
        field_side: side,
        penalty_shot_direction,
    }
}

impl BallStateComposer {
    /// Constructs the node; the remembered side starts on the left half.
    pub fn new(_context: CreationContext) -> (r: Result<Self, NodeError>)
        ensures
            r matches Ok(node) && node.last_ball_field_side == Side::Left,
    {
        Ok(BallStateComposer { last_ball_field_side: Side::Left })
    }

    /// One cycle: composes the ball state from the available sources with
    /// the local observation taking priority, or publishes an absent ball
    /// state when no source can place the ball.
    pub fn cycle(&mut self, context: CycleContext) -> (r: Result<MainOutputs, NodeError>)
        requires
            ctx_in_range(context),
        ensures
            r is Ok,
            (r->Ok_0.ball_state is Some) == spec_ball_present(context),
            spec_ball_present(context) ==> {
                let state = r->Ok_0.ball_state->0;
                &&& state.ball_in_ground.x as int == spec_composed_ground_x(context)
                &&& state.ball_in_ground.y as int == spec_composed_ground_y(context)
                &&& state.ball_in_field.x as int == spec_composed_field_x(context)
                &&& state.ball_in_field.y as int == spec_composed_field_y(context)
                &&& state.ball_in_ground_velocity.x as int == spec_composed_velocity_x(context)
                &&& state.ball_in_ground_velocity.y as int == spec_composed_velocity_y(context)
                &&& state.last_seen_ball_ms == spec_composed_last_seen_ms(context)
                &&& state.penalty_shot_direction == context.penalty_shot_direction
                &&& state.field_side == spec_composed_side(
                    context,
                    old(self).last_ball_field_side,
                )
                &&& final(self).last_ball_field_side == state.field_side
            },
            !spec_ball_present(context) ==> final(self).last_ball_field_side == old(
                self,
            ).last_ball_field_side,
    {
        let ball = match (&context.ball_position, &context.team_ball, &context.ground_to_field) {
            (Some(ball_position), _, Some(ground_to_field)) => {
                let ball_in_field = ground_to_field.transform_point(ball_position.position);
                Some(
                    create_ball_state(
                        ball_position.position,
                        ball_in_field,
                        ball_position.velocity,
                        ball_position.last_seen_ms,
                        &mut self.last_ball_field_side,
                        context.penalty_shot_direction,
                    ),
                )
            },
            (None, Some(team_ball), Some(ground_to_field)) => {
                let ball_in_ground = ground_to_field.inverse_transform_point(team_ball.position);
                let velocity = ground_to_field.inverse_transform_vector(team_ball.velocity);
                Some(
                    create_ball_state(
                        ball_in_ground,
                        team_ball.position,
                        velocity,
                        team_ball.last_seen_ms,
                        &mut self.last_ball_field_side,
                        context.penalty_shot_direction,
                    ),
                )
            },
            _ => None,
        };
        Ok(MainOutputs { ball_state: ball })
    }
}

/// Law: the field side is stable around the centerline. As long as the
/// composed ball's field-frame y coordinate stays inside the hysteresis
/// band (left edge excluded), the side is whatever was remembered, so it
/// cannot flip back and forth while the ball straddles the centerline.
pub proof fn lemma_field_side_stable(ctx: CycleContext, last_side: Side)
    requires
        spec_ball_present(ctx),
        -FIELD_SIDE_HYSTERESIS_MM < spec_composed_field_y(ctx) <= FIELD_SIDE_HYSTERESIS_MM as int,
    ensures
        spec_composed_side(ctx, last_side) == last_side,
{
    crate::filtering::lemma_hysteresis_holds_inside_band(
        last_side == Side::Left,
        spec_composed_field_y(ctx),
        0,
        FIELD_SIDE_HYSTERESIS_MM as int,
    );
}

/// Law: the composition's precedence. A locally observed ball fixes the
/// ground-frame position to the observation itself, whatever the team
/// shares; with only a team-shared ball the ground-frame position is the
/// inverse transform applied to it; with no source (or no transform) no
/// ball state is published at all.
pub proof fn lemma_ball_source_precedence(ctx: CycleContext)
    ensures
        spec_uses_local(ctx) ==> spec_ball_present(ctx) && spec_composed_ground_x(ctx)
            == ctx.ball_position->0.position.x as int && spec_composed_ground_y(ctx)
            == ctx.ball_position->0.position.y as int,
        ctx.ball_position is None && ctx.team_ball is Some && ctx.ground_to_field is Some ==> {
            &&& spec_ball_present(ctx)
            &&& spec_composed_ground_x(ctx) == spec_inverse_x(
                ctx.ground_to_field->0,
                ctx.team_ball->0.position.x as int,
                ctx.team_ball->0.position.y as int,
            )
            &&& spec_composed_ground_y(ctx) == spec_inverse_y(
                ctx.ground_to_field->0,
                ctx.team_ball->0.position.x as int,
                ctx.team_ball->0.position.y as int,
            )
        },
        ctx.ball_position is None && ctx.team_ball is None ==> !spec_ball_present(ctx),
        ctx.ground_to_field is None ==> !spec_ball_present(ctx),
{
}

} // verus!
