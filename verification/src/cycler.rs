//! The cycler: owns an ordered list of nodes, runs them back-to-back once
//! per trigger on one snapshot of the store, and publishes their main
//! outputs as a batch at the end of the cycle.
//!
//! Bindings are resolved once at registration; each cycle then reads the
//! pre-cycle snapshot, runs the ball-state composer, the path-time
//! estimator and the walk-to-ball node in declaration order, and a node's
//! per-cycle failure is reported with its identity while the remaining
//! nodes still run — only the failing node's outputs stay unpublished,
//! leaving downstream readers the previous value, one cycle stale.

use vstd::prelude::*;

use crate::ball_state_composer::{
    spec_ball_present, spec_composed_field_x, spec_composed_field_y, spec_composed_ground_x,
    spec_composed_ground_y, spec_composed_last_seen_ms, spec_composed_side,
    spec_composed_velocity_x, spec_composed_velocity_y, BallStateComposer,
};
use crate::ball_state_composer;
use crate::geometry::{isometry_well_formed, point_in_range, vector_in_range, Isometry2};
use crate::geometry::{check_point_in_range, check_vector_in_range};
use crate::node::{NodeError, NodeId, NodeReport};
use crate::store::{BindError, TypeTag, Value, ValueStore};
use crate::time_to_reach_kick_position::{
    clamp_to_u64, params_valid, spec_path_walk_ms, spec_recovery_ms, BehaviorParameters,
    TimeToReachKickPosition, NO_PATH_TIME_MS,
};
use crate::time_to_reach_kick_position;
use crate::types::{BallPosition, BallState, CycleTime, MotionCommand, PathSegment};
use crate::walk_to_ball::{spec_clamped_angular, spec_norm, WalkToBall, WALK_SPEED_MM_S};
use crate::walk_to_ball;

verus! {

pub const PATH_ID_CYCLE_TIME: u64 = 1;

pub const PATH_ID_BALL_POSITION: u64 = 2;

pub const PATH_ID_PENALTY_SHOT_DIRECTION: u64 = 3;

pub const PATH_ID_GROUND_TO_FIELD: u64 = 4;

pub const PATH_ID_TEAM_BALL: u64 = 5;

pub const PATH_ID_DRIBBLE_PATH: u64 = 6;

pub const PATH_ID_STAND_UP_BACK: u64 = 7;

pub const PATH_ID_STAND_UP_FRONT: u64 = 8;

pub const PATH_ID_BALL_STATE: u64 = 9;

pub const PATH_ID_MOTION_COMMAND: u64 = 10;

/// The slot indices a cycler resolved at registration, one per declared
/// binding.
pub struct CyclerSlots {
    pub cycle_time: usize,
    pub ball_position: usize,
    pub penalty_shot_direction: usize,
    pub ground_to_field: usize,
    pub team_ball: usize,
    pub dribble_path: usize,
    pub stand_up_back: usize,
    pub stand_up_front: usize,
    pub ball_state: usize,
    pub motion_command: usize,
}

/// Every resolved binding points at a live slot of the declared type.
pub open spec fn bindings_valid(slots: CyclerSlots, store: ValueStore) -> bool {
    &&& slots.cycle_time < store.slots@.len() && store.slots@[slots.cycle_time as int].tag
        == TypeTag::CycleTime
    &&& slots.ball_position < store.slots@.len() && store.slots@[slots.ball_position as int].tag
        == TypeTag::BallPosition
    &&& slots.penalty_shot_direction < store.slots@.len() && store.slots@[
        slots.penalty_shot_direction as int
    ].tag == TypeTag::PenaltyShot
    &&& slots.ground_to_field < store.slots@.len() && store.slots@[
        slots.ground_to_field as int
    ].tag == TypeTag::Transform
    &&& slots.team_ball < store.slots@.len() && store.slots@[slots.team_ball as int].tag
        == TypeTag::BallPosition
    &&& slots.dribble_path < store.slots@.len() && store.slots@[slots.dribble_path as int].tag
        == TypeTag::PathSegments
    &&& slots.stand_up_back < store.slots@.len() && store.slots@[slots.stand_up_back as int].tag
        == TypeTag::DurationMs
    &&& slots.stand_up_front < store.slots@.len() && store.slots@[slots.stand_up_front as int].tag
        == TypeTag::DurationMs
    &&& slots.ball_state < store.slots@.len() && store.slots@[slots.ball_state as int].tag
        == TypeTag::BallState
    &&& slots.motion_command < store.slots@.len() && store.slots@[slots.motion_command as int].tag
        == TypeTag::MotionCommand
}

/// The ball-position value a slot currently holds, if it holds one.
pub open spec fn spec_slot_ball_position(v: Option<Value>) -> Option<BallPosition> {
    match v {
        Some(Value::BallPosition(b)) => Some(b),
        _ => None,
    }
}

/// The transform value a slot currently holds, if it holds one.
pub open spec fn spec_slot_transform(v: Option<Value>) -> Option<Isometry2> {
    match v {
        Some(Value::Transform(t)) => Some(t),
        _ => None,
    }
}

/// The penalty-shot value a slot currently holds, if it holds one.
pub open spec fn spec_slot_penalty(v: Option<Value>) -> Option<
    crate::types::PenaltyShotDirection,
> {
    match v {
        Some(Value::PenaltyShot(p)) => Some(p),
        _ => None,
    }
}

/// The duration value a slot currently holds, if it holds one.
pub open spec fn spec_slot_duration(v: Option<Value>) -> Option<u64> {
    match v {
        Some(Value::DurationMs(d)) => Some(d),
        _ => None,
    }
}

/// The path value a slot currently holds, if it holds one.
pub open spec fn spec_slot_path(v: Option<Value>) -> Option<Seq<PathSegment>> {
    match v {
        Some(Value::PathSegments(p)) => Some(p@),
        _ => None,
    }
}

/// The composed ball state a slot currently holds: absent both when never
/// published and when the composer last published an absent ball.
pub open spec fn spec_slot_ball_state(v: Option<Value>) -> Option<BallState> {
    match v {
        Some(Value::BallState(ob)) => ob,
        _ => None,
    }
}

/// The motion command a slot currently holds, if it holds one.
pub open spec fn spec_slot_motion(v: Option<Value>) -> Option<MotionCommand> {
    match v {
        Some(Value::MotionCommand(m)) => Some(m),
        _ => None,
    }
}

/// The cycle timing derived from the trigger time and the previous
/// trigger: the delta saturates at zero if the clock ran backwards.
pub open spec fn spec_cycle_time(last_start_ms: u64, now_ms: u64) -> CycleTime {
    CycleTime {
        start_time_ms: now_ms,
        last_cycle_duration_ms: if now_ms >= last_start_ms {
            (now_ms - last_start_ms) as u64
        } else {
            0
        },
    }
}

/// The composer's cycle context as gathered from a store snapshot.
pub open spec fn spec_composer_ctx(
    store: ValueStore,
    slots: CyclerSlots,
    cycle_time: CycleTime,
) -> ball_state_composer::CycleContext {
    ball_state_composer::CycleContext {
        cycle_time,
        ball_position: spec_slot_ball_position(store.slots@[slots.ball_position as int].value),
        penalty_shot_direction: spec_slot_penalty(
            store.slots@[slots.penalty_shot_direction as int].value,
        ),
        ground_to_field: spec_slot_transform(store.slots@[slots.ground_to_field as int].value),
        team_ball: spec_slot_ball_position(store.slots@[slots.team_ball as int].value),
    }
}

/// The recoverable error the composer reports for this snapshot, if its
/// inputs cannot be trusted: the first offending input in declaration
/// order.
pub open spec fn spec_composer_error(ctx: ball_state_composer::CycleContext) -> Option<NodeError> {
    if !(ctx.ground_to_field matches Some(gtf) ==> isometry_well_formed(gtf)) {
        Some(NodeError::InvalidInput { path_id: PATH_ID_GROUND_TO_FIELD })
    } else if !(ctx.ball_position matches Some(bp) ==> point_in_range(bp.position)) {
        Some(NodeError::InvalidInput { path_id: PATH_ID_BALL_POSITION })
    } else if !(ctx.team_ball matches Some(tb) ==> point_in_range(tb.position) && vector_in_range(
        tb.velocity,
    )) {
        Some(NodeError::InvalidInput { path_id: PATH_ID_TEAM_BALL })
    } else {
        None
    }
}

/// The recoverable error the walk node reports for the ball state it was
/// handed, if any: the ball state is its required input.
pub open spec fn spec_walk_error(ball: Option<BallState>) -> Option<NodeError> {
    match ball {
        None => Some(NodeError::MissingRequiredInput { path_id: PATH_ID_BALL_STATE }),
        Some(bs) => if !point_in_range(bs.ball_in_ground) {
            Some(NodeError::InvalidInput { path_id: PATH_ID_BALL_STATE })
        } else if bs.ball_in_ground.x == 0 && bs.ball_in_ground.y == 0 {
            Some(NodeError::DegenerateInput)
        } else {
            None
        },
    }
}

/// A report sequence out of an optional report.
pub open spec fn opt_report_seq(o: Option<NodeReport>) -> Seq<NodeReport> {
    match o {
        Some(r) => seq![r],
        None => Seq::empty(),
    }
}


/// No slot of the store conflicts with this cycler's declared bindings: a
/// slot under one of its paths already carries the declared type. Holds
/// trivially of a fresh store, and of one other cyclers registered
/// compatible bindings on.
pub open spec fn store_accepts_bindings(store: ValueStore) -> bool {
    forall|j: int|
        0 <= j < store.slots@.len() ==> {
            &&& (store.slots@[j].path_id == PATH_ID_CYCLE_TIME ==> store.slots@[j].tag
                == TypeTag::CycleTime)
            &&& (store.slots@[j].path_id == PATH_ID_BALL_POSITION ==> store.slots@[j].tag
                == TypeTag::BallPosition)
            &&& (store.slots@[j].path_id == PATH_ID_PENALTY_SHOT_DIRECTION ==> store.slots@[
                j
            ].tag == TypeTag::PenaltyShot)
            &&& (store.slots@[j].path_id == PATH_ID_GROUND_TO_FIELD ==> store.slots@[j].tag
                == TypeTag::Transform)
            &&& (store.slots@[j].path_id == PATH_ID_TEAM_BALL ==> store.slots@[j].tag
                == TypeTag::BallPosition)
            &&& (store.slots@[j].path_id == PATH_ID_DRIBBLE_PATH ==> store.slots@[j].tag
                == TypeTag::PathSegments)
            &&& (store.slots@[j].path_id == PATH_ID_STAND_UP_BACK ==> store.slots@[j].tag
                == TypeTag::DurationMs)
            &&& (store.slots@[j].path_id == PATH_ID_STAND_UP_FRONT ==> store.slots@[j].tag
                == TypeTag::DurationMs)
            &&& (store.slots@[j].path_id == PATH_ID_BALL_STATE ==> store.slots@[j].tag
                == TypeTag::BallState)
            &&& (store.slots@[j].path_id == PATH_ID_MOTION_COMMAND ==> store.slots@[j].tag
                == TypeTag::MotionCommand)
        }
}

/// Resolves one binding on a store that holds no slot under this path
/// with another type, so the binding cannot conflict: it lands on the
/// compatible existing slot or on a freshly created one.
fn bind_slot(store: &mut ValueStore, path_id: u64, path: String, tag: TypeTag) -> (i: usize)
    requires
        old(store).well_formed(),
        forall|j: int|
            0 <= j < old(store).slots@.len() && old(store).slots@[j].path_id == path_id ==> old(
                store,
            ).slots@[j].tag == tag,
    ensures
        final(store).well_formed(),
        i < final(store).slots@.len(),
        final(store).slots@[i as int].path_id == path_id,
        final(store).slots@[i as int].tag == tag,
        final(store).slots@.len() == old(store).slots@.len() || final(store).slots@.len() == old(
            store,
        ).slots@.len() + 1,
        forall|j: int|
            0 <= j < old(store).slots@.len() ==> final(store).slots@[j] == old(store).slots@[j],
        forall|j: int|
            old(store).slots@.len() <= j < final(store).slots@.len() ==> final(store).slots@[
                j
            ].path_id == path_id && final(store).slots@[j].tag == tag,
{
    match store.bind(path_id, path, tag) {
        Ok(i) => i,
        Err(_) => {
            proof {
                assert(false);
            }
            vstd::pervasive::unreached()
        },
    }
}

/// An execution unit: the nodes it owns, its exclusive persistent state,
/// its parameters snapshot and its resolved bindings.
pub struct Cycler {
    pub ball_state_composer: BallStateComposer,
    pub time_to_reach_kick_position: TimeToReachKickPosition,
    pub walk_to_ball: WalkToBall,
    /// Read-only configuration, refreshed only between cycles.
    pub behavior_parameters: BehaviorParameters,
    /// Persistent state owned exclusively by this cycler.
    pub time_to_reach_kick_position_ms: u64,
    /// When the previous cycle was triggered.
    pub last_start_time_ms: u64,
    /// The bindings resolved at registration.
    pub slots: CyclerSlots,
}

impl Cycler {
    /// The cycler's own invariant: its parameters admit every cycle.
    pub open spec fn wf(&self) -> bool {
        params_valid(self.behavior_parameters)
    }

    /// Registers a cycler on the store: resolves every declared binding
    /// once (creating missing slots lazily, validating types) and
    /// constructs the nodes. On a store that holds no conflicting slot —
    /// in particular on a fresh one — registration succeeds.
    pub fn new(store: &mut ValueStore, behavior_parameters: BehaviorParameters) -> (r: Result<
        Cycler,
        BindError,
    >)
        requires
            old(store).well_formed(),
            params_valid(behavior_parameters),
            store_accepts_bindings(*old(store)),
        ensures
            final(store).well_formed(),
            r matches Ok(cycler) ==> {
                &&& cycler.wf()
                &&& bindings_valid(cycler.slots, *final(store))
                &&& cycler.behavior_parameters == behavior_parameters
                &&& cycler.ball_state_composer.last_ball_field_side == crate::types::Side::Left
                &&& cycler.time_to_reach_kick_position_ms == NO_PATH_TIME_MS
                &&& cycler.last_start_time_ms == 0
            },
            r is Ok,
    {
        let cycle_time = bind_slot(
            store,
            PATH_ID_CYCLE_TIME,
            "cycle_time".to_owned(),
            TypeTag::CycleTime,
        );
        proof {
            assert(store_accepts_bindings(*store));
        }
        let ball_position = bind_slot(
            store,
            PATH_ID_BALL_POSITION,
            "ball_position".to_owned(),
            TypeTag::BallPosition,
        );
        proof {
            assert(store_accepts_bindings(*store));
        }
        let penalty_shot_direction = bind_slot(
            store,
            PATH_ID_PENALTY_SHOT_DIRECTION,
            "penalty_shot_direction".to_owned(),
            TypeTag::PenaltyShot,
        );
        proof {
            assert(store_accepts_bindings(*store));
        }
        let ground_to_field = bind_slot(
            store,
            PATH_ID_GROUND_TO_FIELD,
            "ground_to_field".to_owned(),
            TypeTag::Transform,
        );
        proof {
            assert(store_accepts_bindings(*store));
        }
        let team_ball = bind_slot(
            store,
            PATH_ID_TEAM_BALL,
            "team_ball".to_owned(),
            TypeTag::BallPosition,
        );
        proof {
            assert(store_accepts_bindings(*store));
        }
        let dribble_path = bind_slot(
            store,
            PATH_ID_DRIBBLE_PATH,
            "dribble_path".to_owned(),
            TypeTag::PathSegments,
        );
        proof {
            assert(store_accepts_bindings(*store));
        }
        let stand_up_back = bind_slot(
            store,
            PATH_ID_STAND_UP_BACK,
            "stand_up_back_estimated_remaining_duration".to_owned(),
            TypeTag::DurationMs,
        );
        proof {
            assert(store_accepts_bindings(*store));
        }
        let stand_up_front = bind_slot(
            store,
            PATH_ID_STAND_UP_FRONT,
            "stand_up_front_estimated_remaining_duration".to_owned(),
            TypeTag::DurationMs,
        );
        proof {
            assert(store_accepts_bindings(*store));
        }
        let ball_state = bind_slot(
            store,
            PATH_ID_BALL_STATE,
            "ball_state".to_owned(),
            TypeTag::BallState,
        );
        proof {
            assert(store_accepts_bindings(*store));
        }
        let motion_command = bind_slot(
            store,
            PATH_ID_MOTION_COMMAND,
            "motion_command".to_owned(),
            TypeTag::MotionCommand,
        );
        proof {
            assert(store_accepts_bindings(*store));
        }
        let composer = match BallStateComposer::new(ball_state_composer::CreationContext {  }) {
            Ok(node) => node,
            Err(_) => {
                proof {
                    assert(false);
                }
                return Err(BindError::TypeMismatch);
            },
        };
        let estimator = match TimeToReachKickPosition::new(
            time_to_reach_kick_position::CreationContext {  },
        ) {
            Ok(node) => node,
            Err(_) => {
                proof {
                    assert(false);
                }
                return Err(BindError::TypeMismatch);
            },
        };
        let walk = match WalkToBall::new(walk_to_ball::CreationContext {  }) {
            Ok(node) => node,
            Err(_) => {
                proof {
                    assert(false);
                }
                return Err(BindError::TypeMismatch);
            },
        };
        Ok(
            Cycler {
                ball_state_composer: composer,
                time_to_reach_kick_position: estimator,
                walk_to_ball: walk,
                behavior_parameters,
                time_to_reach_kick_position_ms: NO_PATH_TIME_MS,
                last_start_time_ms: 0,
                slots: CyclerSlots {
                    cycle_time,
                    ball_position,
                    penalty_shot_direction,
                    ground_to_field,
                    team_ball,
                    dribble_path,
                    stand_up_back,
                    stand_up_front,
                    ball_state,
                    motion_command,
                },
            },
        )
    }
}


/// A report sequence out of an optional error of one node.
pub open spec fn opt_report(node: NodeId, e: Option<NodeError>) -> Seq<NodeReport> {
    match e {
        Some(error) => seq![NodeReport { node, error }],
        None => Seq::empty(),
    }
}

/// An element-wise copy of a planned path.
fn copy_segments(src: &Vec<PathSegment>) -> (r: Vec<PathSegment>)
    ensures
        r@ =~= src@,
{
    let mut r: Vec<PathSegment> = Vec::new();
    let mut i: usize = 0;
    while i < src.len()
        invariant
            i <= src@.len(),
            r@ =~= src@.take(i as int),
        decreases src@.len() - i,
    {
        r.push(src[i]);
        i += 1;
    }
    proof {
        assert(src@.take(src@.len() as int) =~= src@);
    }
    r
}

impl Cycler {
    /// Refreshes the read-only parameters from outside the cycle loop;
    /// the new values are visible from the next cycle on, and nothing
    /// else about the cycler changes.
    pub fn set_parameters(&mut self, behavior_parameters: BehaviorParameters)
        requires
            params_valid(behavior_parameters),
        ensures
            final(self).wf(),
            final(self).behavior_parameters == behavior_parameters,
            final(self).slots == old(self).slots,
            final(self).ball_state_composer == old(self).ball_state_composer,
            final(self).time_to_reach_kick_position_ms == old(
                self,
            ).time_to_reach_kick_position_ms,
            final(self).last_start_time_ms == old(self).last_start_time_ms,
    {
        self.behavior_parameters = behavior_parameters;
    }

    /// One cycle: reads the pre-trigger snapshot of the store, runs the
    /// composer, the estimator and the walk node in declaration order, and
    /// publishes the produced main outputs as a batch at the end. A
    /// failing node is reported with its identity and the cycle completes
    /// without its outputs, so downstream readers keep the previous value;
    /// every other slot of the store is left untouched.
    #[verifier::rlimit(60)]
    pub fn run_cycle(&mut self, store: &mut ValueStore, now_ms: u64) -> (reports: Vec<NodeReport>)
        requires
            old(self).wf(),
            old(store).well_formed(),
            bindings_valid(old(self).slots, *old(store)),
        ensures
            final(store).well_formed(),
            final(self).wf(),
            final(self).slots == old(self).slots,
            final(self).behavior_parameters == old(self).behavior_parameters,
            bindings_valid(final(self).slots, *final(store)),
            final(self).last_start_time_ms == now_ms,
            final(store).slots@.len() == old(store).slots@.len(),
            forall|j: int|
                0 <= j < old(store).slots@.len() && j != old(self).slots.cycle_time as int && j
                    != old(self).slots.ball_state as int && j != old(
                    self,
                ).slots.motion_command as int ==> final(store).slots@[j] == old(store).slots@[j],
            final(store).slots@[old(self).slots.cycle_time as int].value == Some(
                Value::CycleTime(spec_cycle_time(old(self).last_start_time_ms, now_ms)),
            ),
            ({
                let cctx = spec_composer_ctx(
                    *old(store),
                    old(self).slots,
                    spec_cycle_time(old(self).last_start_time_ms, now_ms),
                );
                let bs = old(self).slots.ball_state as int;
                &&& (spec_composer_error(cctx) is Some ==> final(store).slots@[bs] == old(
                    store,
                ).slots@[bs] && final(self).ball_state_composer == old(self).ball_state_composer)
                &&& (spec_composer_error(cctx) is None ==> {
                    &&& final(store).slots@[bs].value matches Some(Value::BallState(ob))
                    &&& (spec_slot_ball_state(final(store).slots@[bs].value) is Some)
                        == spec_ball_present(cctx)
                    &&& (spec_ball_present(cctx) ==> {
                        let state = spec_slot_ball_state(final(store).slots@[bs].value)->0;
                        &&& state.ball_in_ground.x as int == spec_composed_ground_x(cctx)
                        &&& state.ball_in_ground.y as int == spec_composed_ground_y(cctx)
                        &&& state.ball_in_field.x as int == spec_composed_field_x(cctx)
                        &&& state.ball_in_field.y as int == spec_composed_field_y(cctx)
                        &&& state.ball_in_ground_velocity.x as int == spec_composed_velocity_x(
                            cctx,
                        )
                        &&& state.ball_in_ground_velocity.y as int == spec_composed_velocity_y(
                            cctx,
                        )
                        &&& state.last_seen_ball_ms == spec_composed_last_seen_ms(cctx)
                        &&& state.penalty_shot_direction == cctx.penalty_shot_direction
                        &&& state.field_side == spec_composed_side(
                            cctx,
                            old(self).ball_state_composer.last_ball_field_side,
                        )
                        &&& final(self).ball_state_composer.last_ball_field_side
                            == state.field_side
                    })
                    &&& (!spec_ball_present(cctx) ==> final(self).ball_state_composer == old(
                        self,
                    ).ball_state_composer)
                })
            }),
            ({
                let pathv = spec_slot_path(
                    old(store).slots@[old(self).slots.dribble_path as int].value,
                );
                &&& (pathv is None ==> final(self).time_to_reach_kick_position_ms
                    == NO_PATH_TIME_MS)
                &&& (pathv matches Some(ps) ==> final(self).time_to_reach_kick_position_ms as int
                    == clamp_to_u64(
                    spec_path_walk_ms(ps, old(self).behavior_parameters) + spec_recovery_ms(
                        spec_slot_duration(
                            old(store).slots@[old(self).slots.stand_up_back as int].value,
                        ),
                    ) + spec_recovery_ms(
                        spec_slot_duration(
                            old(store).slots@[old(self).slots.stand_up_front as int].value,
                        ),
                    ),
                ))
            }),
            ({
                let ball_used = spec_slot_ball_state(
                    final(store).slots@[old(self).slots.ball_state as int].value,
                );
                let mc = old(self).slots.motion_command as int;
                &&& (spec_walk_error(ball_used) is Some ==> final(store).slots@[mc] == old(
                    store,
                ).slots@[mc])
                &&& (spec_walk_error(ball_used) is None ==> {
                    let ball = ball_used->0.ball_in_ground;
                    let m = spec_slot_motion(final(store).slots@[mc].value);
                    &&& m is Some
                    &&& m->0 is Walk
                    &&& m->0->Walk_head == (crate::types::HeadMotion::LookAt {
                        target: ball,
                        image_region_target: crate::types::ImageRegion::Center,
                        camera: Some(crate::types::CameraPosition::Bottom),
                    })
                    &&& m->0->Walk_angular_velocity as int == spec_clamped_angular(ball.y as int)
                    &&& m->0->Walk_velocity.x as int == crate::geometry::spec_div_trunc(
                        ball.x as int * WALK_SPEED_MM_S,
                        spec_norm(ball.x as int, ball.y as int),
                    )
                    &&& m->0->Walk_velocity.y as int == crate::geometry::spec_div_trunc(
                        ball.y as int * WALK_SPEED_MM_S,
                        spec_norm(ball.x as int, ball.y as int),
                    )
                })
            }),
            ({
                let cctx = spec_composer_ctx(
                    *old(store),
                    old(self).slots,
                    spec_cycle_time(old(self).last_start_time_ms, now_ms),
                );
                let ball_used = spec_slot_ball_state(
                    final(store).slots@[old(self).slots.ball_state as int].value,
                );
                reports@ =~= opt_report(NodeId::BallStateComposer, spec_composer_error(cctx))
                    + opt_report(NodeId::WalkToBall, spec_walk_error(ball_used))
            }),
    {
        let cycle_time = CycleTime {
            start_time_ms: now_ms,
            last_cycle_duration_ms: if now_ms >= self.last_start_time_ms {
                now_ms - self.last_start_time_ms
            } else {
                0
            },
        };
        self.last_start_time_ms = now_ms;

        // the pre-cycle snapshot: all inputs are read before any publish
        let v_ball_position: Option<BallPosition> = match store.read(self.slots.ball_position) {
            Some(Value::BallPosition(b)) => Some(*b),
            _ => None,
        };
        let v_penalty = match store.read(self.slots.penalty_shot_direction) {
            Some(Value::PenaltyShot(p)) => Some(*p),
            _ => None,
        };
        let v_gtf: Option<Isometry2> = match store.read(self.slots.ground_to_field) {
            Some(Value::Transform(t)) => Some(*t),
            _ => None,
        };
        let v_team_ball: Option<BallPosition> = match store.read(self.slots.team_ball) {
            Some(Value::BallPosition(b)) => Some(*b),
            _ => None,
        };
        let v_path: Option<Vec<PathSegment>> = match store.read(self.slots.dribble_path) {
            Some(Value::PathSegments(p)) => Some(copy_segments(p)),
            _ => None,
        };
        let v_back: Option<u64> = match store.read(self.slots.stand_up_back) {
            Some(Value::DurationMs(d)) => Some(*d),
            _ => None,
        };
        let v_front: Option<u64> = match store.read(self.slots.stand_up_front) {
            Some(Value::DurationMs(d)) => Some(*d),
            _ => None,
        };
        let previous_ball: Option<BallState> = match store.read(self.slots.ball_state) {
            Some(Value::BallState(ob)) => *ob,
            _ => None,
        };

        let mut reports: Vec<NodeReport> = Vec::new();

        // ball-state composer: validate its inputs, then run it
        let gtf_bad = match &v_gtf {
            Some(t) => !t.check_well_formed(),
            None => false,
        };
        let bp_bad = match &v_ball_position {
            Some(bp) => !check_point_in_range(&bp.position),
            None => false,
        };
        let tb_bad = match &v_team_ball {
            Some(tb) => !(check_point_in_range(&tb.position) && check_vector_in_range(
                &tb.velocity,
            )),
            None => false,
        };
        let composer_error: Option<NodeError> = if gtf_bad {
            Some(NodeError::InvalidInput { path_id: PATH_ID_GROUND_TO_FIELD })
        } else if bp_bad {
            Some(NodeError::InvalidInput { path_id: PATH_ID_BALL_POSITION })
        } else if tb_bad {
            Some(NodeError::InvalidInput { path_id: PATH_ID_TEAM_BALL })
        } else {
            None
        };
        let ball_published: Option<Option<BallState>> = match composer_error {
            Some(error) => {
                reports.push(NodeReport { node: NodeId::BallStateComposer, error });
                None
            },
            None => {
                let ctx = ball_state_composer::CycleContext {
                    cycle_time,
                    ball_position: v_ball_position,
                    penalty_shot_direction: v_penalty,
                    ground_to_field: v_gtf,
                    team_ball: v_team_ball,
                };
                match self.ball_state_composer.cycle(ctx) {
                    Ok(out) => Some(out.ball_state),
                    Err(_) => {
                        proof {
                            assert(false);
                        }
                        None
                    },
                }
            },
        };

        // path-time estimator: writes only its persistent duration
        let ectx = time_to_reach_kick_position::CycleContext {
            dribble_path: v_path,
            configuration: self.behavior_parameters,
            stand_up_back_estimated_remaining_duration_ms: v_back,
            stand_up_front_estimated_remaining_duration_ms: v_front,
        };
        match self.time_to_reach_kick_position.cycle(
            ectx,
            &mut self.time_to_reach_kick_position_ms,
        ) {
            Ok(_) => {},
            Err(_) => {
                proof {
                    assert(false);
                }
            },
        };

        // walk-to-ball: its required input is the ball state of this
        // cycle, or the previous one when the composer did not publish
        let ball_used: Option<BallState> = match &ball_published {
            Some(ob) => *ob,
            None => previous_ball,
        };
        let mut motion: Option<MotionCommand> = None;
        match ball_used {
            None => {
                reports.push(
                    NodeReport {
                        node: NodeId::WalkToBall,
                        error: NodeError::MissingRequiredInput { path_id: PATH_ID_BALL_STATE },
                    },
                );
            },
            Some(bs) => {
                if !check_point_in_range(&bs.ball_in_ground) {
                    reports.push(
                        NodeReport {
                            node: NodeId::WalkToBall,
                            error: NodeError::InvalidInput { path_id: PATH_ID_BALL_STATE },
                        },
                    );
                } else {
                    let wctx = walk_to_ball::CycleContext { cycle_time, ball_state: bs };
                    match self.walk_to_ball.cycle(wctx) {
                        Ok(out) => {
                            motion = Some(out.motion_command);
                        },
                        Err(error) => {
                            reports.push(NodeReport { node: NodeId::WalkToBall, error });
                        },
                    }
                }
            },
        };

        // the batch publish: all main outputs become visible together
        store.publish(self.slots.cycle_time, Value::CycleTime(cycle_time));
        match ball_published {
            Some(ob) => {
                store.publish(self.slots.ball_state, Value::BallState(ob));
            },
            None => {},
        };
        match motion {
            Some(mc) => {
                store.publish(self.slots.motion_command, Value::MotionCommand(mc));
            },
            None => {},
        };
        reports
    }
}

} // verus!
