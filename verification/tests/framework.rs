use hulk_core::cycler::{
    Cycler, PATH_ID_BALL_POSITION, PATH_ID_BALL_STATE, PATH_ID_CYCLE_TIME, PATH_ID_DRIBBLE_PATH,
    PATH_ID_GROUND_TO_FIELD, PATH_ID_MOTION_COMMAND,
};
use hulk_core::geometry::{Isometry2, Point2, Vector2};
use hulk_core::node::{NodeError, NodeId};
use hulk_core::store::{BindError, TypeTag, Value, ValueStore};
use hulk_core::time_to_reach_kick_position::{
    BehaviorParameters, PathPlanningParameters, NO_PATH_TIME_MS,
};
use hulk_core::types::{BallPosition, CycleTime, MotionCommand, PathSegment};

fn parameters() -> BehaviorParameters {
    BehaviorParameters {
        path_planning: PathPlanningParameters {
            line_walking_speed_mm_s: 200,
            arc_walking_speed_mm_s: 100,
        },
    }
}

#[test]
fn slots_are_created_lazily_and_versioned() {
    let mut store = ValueStore::new();
    let index = store
        .bind(PATH_ID_CYCLE_TIME, "cycle_time".to_owned(), TypeTag::CycleTime)
        .unwrap();
    assert_eq!(store.version(index), 0);
    assert!(store.read(index).is_none());

    let time = CycleTime { start_time_ms: 5, last_cycle_duration_ms: 1 };
    store.publish(index, Value::CycleTime(time));
    assert_eq!(store.version(index), 1);
    assert_eq!(store.read(index), Some(&Value::CycleTime(time)));

    let later = CycleTime { start_time_ms: 9, last_cycle_duration_ms: 4 };
    store.publish(index, Value::CycleTime(later));
    assert_eq!(store.version(index), 2);
    // the reader sees exactly the whole newest value, never a mixture
    assert_eq!(store.read(index), Some(&Value::CycleTime(later)));
}

#[test]
fn binding_detects_a_type_mismatch() {
    let mut store = ValueStore::new();
    store
        .bind(PATH_ID_CYCLE_TIME, "cycle_time".to_owned(), TypeTag::CycleTime)
        .unwrap();
    let second = store.bind(PATH_ID_CYCLE_TIME, "cycle_time".to_owned(), TypeTag::Number);
    assert_eq!(second, Err(BindError::TypeMismatch));
    // binding the same path under the same type resolves to the same slot
    let again = store
        .bind(PATH_ID_CYCLE_TIME, "cycle_time".to_owned(), TypeTag::CycleTime)
        .unwrap();
    assert_eq!(again, 0);
}

#[test]
fn paths_are_kept_for_introspection() {
    let mut store = ValueStore::new();
    let index = store
        .bind(PATH_ID_BALL_STATE, "ball_state".to_owned(), TypeTag::BallState)
        .unwrap();
    assert_eq!(store.path_of(index).as_str(), "ball_state");
}

#[test]
fn empty_cycle_reports_only_the_walk_node() {
    let mut store = ValueStore::new();
    let mut cycler = Cycler::new(&mut store, parameters()).unwrap();
    let reports = cycler.run_cycle(&mut store, 1000);

    // the composer ran and published an absent ball state; only the walk
    // node, whose required input is missing, reported an error
    assert_eq!(reports.len(), 1);
    assert_eq!(reports[0].node, NodeId::WalkToBall);
    assert_eq!(
        reports[0].error,
        NodeError::MissingRequiredInput { path_id: PATH_ID_BALL_STATE }
    );

    assert_eq!(
        store.read(cycler.slots.ball_state),
        Some(&Value::BallState(None))
    );
    assert!(store.read(cycler.slots.motion_command).is_none());
    assert_eq!(cycler.time_to_reach_kick_position_ms, NO_PATH_TIME_MS);
}

#[test]
fn full_cycle_publishes_every_output() {
    let mut store = ValueStore::new();
    let mut cycler = Cycler::new(&mut store, parameters()).unwrap();

    store.publish(
        cycler.slots.ball_position,
        Value::BallPosition(BallPosition {
            position: Point2 { x: 300, y: 400 },
            velocity: Vector2 { x: 0, y: 0 },
            last_seen_ms: 7,
        }),
    );
    store.publish(
        cycler.slots.ground_to_field,
        Value::Transform(Isometry2 {
            cos_milli: 1000,
            sin_milli: 0,
            translation: Vector2 { x: 0, y: 0 },
        }),
    );
    store.publish(
        cycler.slots.dribble_path,
        Value::PathSegments(vec![PathSegment::Line { length_mm: 1000 }]),
    );

    let reports = cycler.run_cycle(&mut store, 2000);
    assert!(reports.is_empty());

    match store.read(cycler.slots.ball_state) {
        Some(Value::BallState(Some(state))) => {
            assert_eq!(state.ball_in_ground, Point2 { x: 300, y: 400 });
            assert_eq!(state.ball_in_field, Point2 { x: 300, y: 400 });
        }
        other => panic!("expected a present ball state, got {other:?}"),
    }
    match store.read(cycler.slots.motion_command) {
        Some(Value::MotionCommand(MotionCommand::Walk { velocity, angular_velocity, .. })) => {
            assert_eq!(*velocity, Vector2 { x: 60, y: 80 });
            assert_eq!(*angular_velocity, 250);
        }
        other => panic!("expected a walk command, got {other:?}"),
    }
    assert_eq!(cycler.time_to_reach_kick_position_ms, 5000);
}

#[test]
fn cycle_time_delta_tracks_the_triggers() {
    let mut store = ValueStore::new();
    let mut cycler = Cycler::new(&mut store, parameters()).unwrap();
    cycler.run_cycle(&mut store, 1000);
    cycler.run_cycle(&mut store, 1016);
    assert_eq!(
        store.read(cycler.slots.cycle_time),
        Some(&Value::CycleTime(CycleTime { start_time_ms: 1016, last_cycle_duration_ms: 16 }))
    );
}

#[test]
fn failing_node_does_not_stop_the_cycle() {
    let mut store = ValueStore::new();
    let mut cycler = Cycler::new(&mut store, parameters()).unwrap();

    // a malformed transform: not on the scaled unit circle
    store.publish(
        cycler.slots.ground_to_field,
        Value::Transform(Isometry2 {
            cos_milli: 1000,
            sin_milli: 1000,
            translation: Vector2 { x: 0, y: 0 },
        }),
    );
    store.publish(
        cycler.slots.dribble_path,
        Value::PathSegments(vec![PathSegment::Arc { length_mm: 500 }]),
    );

    let reports = cycler.run_cycle(&mut store, 3000);

    // the composer failed on its transform, the walk node on the ball
    // state that consequently never appeared
    assert_eq!(reports.len(), 2);
    assert_eq!(reports[0].node, NodeId::BallStateComposer);
    assert_eq!(
        reports[0].error,
        NodeError::InvalidInput { path_id: PATH_ID_GROUND_TO_FIELD }
    );
    assert_eq!(reports[1].node, NodeId::WalkToBall);

    // the failing node's output stayed unpublished
    assert!(store.read(cycler.slots.ball_state).is_none());
    // but the cycle completed: timing was published and the estimator ran
    assert!(store.read(cycler.slots.cycle_time).is_some());
    assert_eq!(cycler.time_to_reach_kick_position_ms, 5000);
}

#[test]
fn unpublished_output_leaves_the_previous_value() {
    let mut store = ValueStore::new();
    let mut cycler = Cycler::new(&mut store, parameters()).unwrap();

    store.publish(
        cycler.slots.ball_position,
        Value::BallPosition(BallPosition {
            position: Point2 { x: 300, y: 400 },
            velocity: Vector2 { x: 0, y: 0 },
            last_seen_ms: 7,
        }),
    );
    store.publish(
        cycler.slots.ground_to_field,
        Value::Transform(Isometry2 {
            cos_milli: 1000,
            sin_milli: 0,
            translation: Vector2 { x: 0, y: 0 },
        }),
    );
    cycler.run_cycle(&mut store, 1000);
    let first_version = store.version(cycler.slots.ball_state);

    // now the transform goes bad: the composer skips its publish, and the
    // downstream reader keeps the previous ball state, one cycle stale
    store.publish(
        cycler.slots.ground_to_field,
        Value::Transform(Isometry2 {
            cos_milli: 7,
            sin_milli: 7,
            translation: Vector2 { x: 0, y: 0 },
        }),
    );
    let reports = cycler.run_cycle(&mut store, 1012);
    assert_eq!(reports.len(), 1);
    assert_eq!(reports[0].node, NodeId::BallStateComposer);
    assert_eq!(store.version(cycler.slots.ball_state), first_version);
    match store.read(cycler.slots.ball_state) {
        Some(Value::BallState(Some(state))) => {
            assert_eq!(state.ball_in_ground, Point2 { x: 300, y: 400 });
        }
        other => panic!("expected the stale ball state, got {other:?}"),
    }
    // and the walk node still produced a command from the stale value
    assert!(store.read(cycler.slots.motion_command).is_some());
}

#[test]
fn unrelated_slots_are_untouched_by_a_cycle() {
    let mut store = ValueStore::new();
    let mut cycler = Cycler::new(&mut store, parameters()).unwrap();
    store.publish(
        cycler.slots.ball_position,
        Value::BallPosition(BallPosition {
            position: Point2 { x: 1, y: 2 },
            velocity: Vector2 { x: 0, y: 0 },
            last_seen_ms: 0,
        }),
    );
    let before = store.version(cycler.slots.ball_position);
    cycler.run_cycle(&mut store, 500);
    assert_eq!(store.version(cycler.slots.ball_position), before);
}

#[test]
fn a_second_cycler_resolves_the_same_slots() {
    let mut store = ValueStore::new();
    let mut first = Cycler::new(&mut store, parameters()).unwrap();
    let second = Cycler::new(&mut store, parameters()).unwrap();
    // registration on a store that already holds the slots resolves the
    // declared bindings to the existing slots instead of new ones
    assert_eq!(first.slots.ball_state, second.slots.ball_state);
    assert_eq!(first.slots.cycle_time, second.slots.cycle_time);
    // what one cycler publishes is visible through the other's binding
    first.run_cycle(&mut store, 100);
    assert!(store.read(second.slots.cycle_time).is_some());
}

#[test]
fn refreshed_parameters_apply_from_the_next_cycle() {
    let mut store = ValueStore::new();
    let mut cycler = Cycler::new(&mut store, parameters()).unwrap();
    store.publish(
        cycler.slots.dribble_path,
        Value::PathSegments(vec![PathSegment::Line { length_mm: 1000 }]),
    );
    cycler.run_cycle(&mut store, 100);
    assert_eq!(cycler.time_to_reach_kick_position_ms, 5000);

    cycler.set_parameters(BehaviorParameters {
        path_planning: PathPlanningParameters {
            line_walking_speed_mm_s: 100,
            arc_walking_speed_mm_s: 100,
        },
    });
    cycler.run_cycle(&mut store, 112);
    assert_eq!(cycler.time_to_reach_kick_position_ms, 10_000);
}

#[test]
fn path_ids_are_distinct() {
    let ids = [
        PATH_ID_CYCLE_TIME,
        PATH_ID_BALL_POSITION,
        PATH_ID_GROUND_TO_FIELD,
        PATH_ID_DRIBBLE_PATH,
        PATH_ID_BALL_STATE,
        PATH_ID_MOTION_COMMAND,
    ];
    for (i, a) in ids.iter().enumerate() {
        for b in ids.iter().skip(i + 1) {
            assert_ne!(a, b);
        }
    }
}
