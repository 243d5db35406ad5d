//! Path-time estimator: turns the planned dribble path into the walking
//! duration left before the robot reaches its kick position, and maintains
//! that duration as persistent state across cycles.
//!
//! Each segment contributes its length divided by the speed constant of
//! its type; recovery durations for a pending front or back stand-up are
//! added on top; with no path at all a fixed large sentinel is stored
//! instead of an unbounded value.

use vstd::prelude::*;

use crate::node::NodeError;
use crate::types::PathSegment;

verus! {

/// Stored when no path is available: half an hour in milliseconds,
/// effectively "unreachable" on a game clock while safely far from the
/// numeric maximum.
pub const NO_PATH_TIME_MS: u64 = 1_800_000;

/// Walking speed constants per segment type, millimeters per second.
#[derive(Clone, Copy, Debug, PartialEq, Eq, Structural)]
pub struct PathPlanningParameters {
    pub line_walking_speed_mm_s: u32,
    pub arc_walking_speed_mm_s: u32,
}

/// The behavior configuration this node reads; loaded externally and
/// treated as read-only during a cycle.
#[derive(Clone, Copy, Debug, PartialEq, Eq, Structural)]
pub struct BehaviorParameters {
    pub path_planning: PathPlanningParameters,
}

/// Parameters a cycle can run on: both speeds are nonzero, so a segment
/// time is a division by a positive constant.
pub open spec fn params_valid(p: BehaviorParameters) -> bool {
    p.path_planning.line_walking_speed_mm_s >= 1 && p.path_planning.arc_walking_speed_mm_s >= 1
}

/// Parameters needed at construction time: none.
pub struct CreationContext {}

/// What the node reads each cycle.
pub struct CycleContext {
    /// The planned path toward the kick position, if one exists.
    pub dribble_path: Option<Vec<PathSegment>>,
    /// The behavior configuration holding the speed constants.
    pub configuration: BehaviorParameters,
    /// Time a running back stand-up still needs, if one is running.
    pub stand_up_back_estimated_remaining_duration_ms: Option<u64>,
    /// Time a running front stand-up still needs, if one is running.
    pub stand_up_front_estimated_remaining_duration_ms: Option<u64>,
}

/// The node publishes nothing; its whole effect is the persistent
/// time-to-reach duration.
pub struct MainOutputs {}

/// The estimator node itself is stateless.
pub struct TimeToReachKickPosition {}

/// Milliseconds a single segment takes: its length over the speed constant
/// of its type, truncated.
pub open spec fn spec_segment_walk_ms(seg: PathSegment, p: BehaviorParameters) -> int {
    match seg {
        PathSegment::Line { length_mm } => (length_mm as int * 1000) / (
        p.path_planning.line_walking_speed_mm_s as int),
        PathSegment::Arc { length_mm } => (length_mm as int * 1000) / (
        p.path_planning.arc_walking_speed_mm_s as int),
    }
}

/// Milliseconds the whole path takes: the sum of the segments' times.
pub open spec fn spec_path_walk_ms(path: Seq<PathSegment>, p: BehaviorParameters) -> int
    decreases path.len(),
{
    if path.len() == 0 {
        0
    } else {
        spec_path_walk_ms(path.drop_last(), p) + spec_segment_walk_ms(path.last(), p)
    }
}

/// What an absent recovery duration contributes: zero.
pub open spec fn spec_recovery_ms(d: Option<u64>) -> int {
    match d {
        Some(ms) => ms as int,
        None => 0,
    }
}

/// The full estimate for a present path: walking time plus both recovery
/// contributions.
pub open spec fn spec_time_to_reach_ms(path: Seq<PathSegment>, ctx: CycleContext) -> int {
    spec_path_walk_ms(path, ctx.configuration) + spec_recovery_ms(
        ctx.stand_up_back_estimated_remaining_duration_ms,
    ) + spec_recovery_ms(ctx.stand_up_front_estimated_remaining_duration_ms)
}

/// Saturation into the storable range; exact whenever the value fits.
pub open spec fn clamp_to_u64(x: int) -> int {
    if x >= u64::MAX {
        u64::MAX as int
    } else if x <= 0 {
        0
    } else {
        x
    }
}

/// A segment never takes negative time.
pub proof fn lemma_segment_walk_ms_nonneg(seg: PathSegment, p: BehaviorParameters)
    requires
        params_valid(p),
    ensures
        0 <= spec_segment_walk_ms(seg, p),
{
    match seg {
        PathSegment::Line { length_mm } => {
            vstd::arithmetic::div_mod::lemma_div_pos_is_pos(
                length_mm as int * 1000,
                p.path_planning.line_walking_speed_mm_s as int,
            );
        },
        PathSegment::Arc { length_mm } => {
            vstd::arithmetic::div_mod::lemma_div_pos_is_pos(
                length_mm as int * 1000,
                p.path_planning.arc_walking_speed_mm_s as int,
            );
        },
    }
}

/// A path never takes negative time.
pub proof fn lemma_path_walk_ms_nonneg(path: Seq<PathSegment>, p: BehaviorParameters)
    requires
        params_valid(p),
    ensures
        0 <= spec_path_walk_ms(path, p),
    decreases path.len(),
{
    if path.len() > 0 {
        lemma_path_walk_ms_nonneg(path.drop_last(), p);
        lemma_segment_walk_ms_nonneg(path.last(), p);
    }
}

/// Law: the walking time of a path is the segment-wise sum — extending a
/// path by one segment extends the estimate by exactly that segment's
/// length over its type's speed.
pub proof fn lemma_walk_time_sums_segments(
    path: Seq<PathSegment>,
    seg: PathSegment,
    p: BehaviorParameters,
)
    ensures
        spec_path_walk_ms(path.push(seg), p) == spec_path_walk_ms(path, p) + spec_segment_walk_ms(
            seg,
            p,
        ),
{
    assert(path.push(seg).drop_last() =~= path);
    assert(path.push(seg).last() == seg);
}

/// Law: present recovery durations add exactly their sum to the walking
/// time, and an absent one contributes exactly zero.
pub proof fn lemma_recovery_durations_add(path: Seq<PathSegment>, ctx: CycleContext)
    ensures
        ctx.stand_up_back_estimated_remaining_duration_ms matches Some(back) ==> (
        ctx.stand_up_front_estimated_remaining_duration_ms matches Some(front)
            ==> spec_time_to_reach_ms(path, ctx) == spec_path_walk_ms(path, ctx.configuration)
            + back + front),
        ctx.stand_up_back_estimated_remaining_duration_ms is None
            && ctx.stand_up_front_estimated_remaining_duration_ms is None
            ==> spec_time_to_reach_ms(path, ctx) == spec_path_walk_ms(path, ctx.configuration),
{
}

/// Law: the stored estimate is the true sum itself whenever that sum fits
/// the storable range; saturation never fabricates a different in-range
/// value.
pub proof fn lemma_estimate_exact_when_in_range(x: int)
    requires
        0 <= x <= u64::MAX,
    ensures
        clamp_to_u64(x) == x,
{
}

/// Addition capped at the numeric maximum.
fn sat_add_u64(a: u64, b: u64) -> (r: u64)
    ensures
        r as int == clamp_to_u64(a as int + b as int),
{
    if a <= u64::MAX - b {
        a + b
    } else {
        u64::MAX
    }
}

/// Milliseconds a single segment takes.
fn segment_walk_ms(seg: &PathSegment, p: &BehaviorParameters) -> (r: u64)
    requires
        params_valid(*p),
    ensures
        r as int == spec_segment_walk_ms(*seg, *p),
{
    match seg {
        PathSegment::Line { length_mm } => (*length_mm as u64 * 1000) / (
        p.path_planning.line_walking_speed_mm_s as u64),
        PathSegment::Arc { length_mm } => (*length_mm as u64 * 1000) / (
        p.path_planning.arc_walking_speed_mm_s as u64),
    }
}

/// Milliseconds the whole path takes, saturating at the numeric maximum.
fn path_walk_ms(path: &Vec<PathSegment>, p: &BehaviorParameters) -> (r: u64)
    requires
        params_valid(*p),
    ensures
        r as int == clamp_to_u64(spec_path_walk_ms(path@, *p)),
{
    let mut total: u64 = 0;
    let mut i: usize = 0;
    while i < path.len()
        invariant
            params_valid(*p),
            i <= path@.len(),
            total as int == clamp_to_u64(spec_path_walk_ms(path@.take(i as int), *p)),
        decreases path@.len() - i,
    {
        let seg_ms = segment_walk_ms(&path[i], p);
        proof {
            assert(path@.take(i as int + 1).drop_last() =~= path@.take(i as int));
            assert(path@.take(i as int + 1).last() == path@[i as int]);
            lemma_path_walk_ms_nonneg(path@.take(i as int), *p);
            lemma_segment_walk_ms_nonneg(path@[i as int], *p);
        }
        total = sat_add_u64(total, seg_ms);
        i += 1;
    }
    proof {
        assert(path@.take(path@.len() as int) =~= path@);
    }
    total
}

impl TimeToReachKickPosition {
    /// Constructs the node; nothing can fail here.
    pub fn new(_context: CreationContext) -> (r: Result<Self, NodeError>)
        ensures
            r is Ok,
    {
        Ok(TimeToReachKickPosition {  })
    }

    /// One cycle: stores into the persistent slot the estimated time to
    /// reach the kick position — the segment-wise walking time of the
    /// planned path plus any pending stand-up recovery durations, or the
    /// fixed sentinel when no path exists.
    pub fn cycle(
        &mut self,
        context: CycleContext,
        time_to_reach_kick_position_ms: &mut u64,
    ) -> (r: Result<MainOutputs, NodeError>)
        requires
            params_valid(context.configuration),
        ensures
            r is Ok,
            context.dribble_path is None ==> *final(time_to_reach_kick_position_ms)
                == NO_PATH_TIME_MS,
            context.dribble_path matches Some(path) ==> *final(time_to_reach_kick_position_ms)
                as int == clamp_to_u64(spec_time_to_reach_ms(path@, context)),
    {
        match &context.dribble_path {
            None => {
                *time_to_reach_kick_position_ms = NO_PATH_TIME_MS;
            },
            Some(path) => {
                let walk_ms = path_walk_ms(path, &context.configuration);
                let back_ms = match context.stand_up_back_estimated_remaining_duration_ms {
                    Some(ms) => ms,
                    None => 0,
                };
                let front_ms = match context.stand_up_front_estimated_remaining_duration_ms {
                    Some(ms) => ms,
                    None => 0,
                };
                proof {
                    lemma_path_walk_ms_nonneg(path@, context.configuration);
                }
                let with_back = sat_add_u64(walk_ms, back_ms);
                *time_to_reach_kick_position_ms = sat_add_u64(with_back, front_ms);
            },
        }
        Ok(MainOutputs {  })
    }
}

} // verus!
