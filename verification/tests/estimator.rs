use hulk_core::time_to_reach_kick_position::{
    BehaviorParameters, CreationContext, CycleContext, PathPlanningParameters,
    TimeToReachKickPosition, NO_PATH_TIME_MS,
};
use hulk_core::types::PathSegment;

fn parameters(line: u32, arc: u32) -> BehaviorParameters {
    BehaviorParameters {
        path_planning: PathPlanningParameters {
            line_walking_speed_mm_s: line,
            arc_walking_speed_mm_s: arc,
        },
    }
}

#[test]
fn walk_time_is_sum_of_segment_times() {
    let mut node = TimeToReachKickPosition::new(CreationContext {}).unwrap();
    let mut stored: u64 = 0;
    let context = CycleContext {
        dribble_path: Some(vec![
            PathSegment::Line { length_mm: 1000 },
            PathSegment::Arc { length_mm: 500 },
        ]),
        configuration: parameters(200, 100),
        stand_up_back_estimated_remaining_duration_ms: None,
        stand_up_front_estimated_remaining_duration_ms: None,
    };
    node.cycle(context, &mut stored).unwrap();
    // 1000 mm at 200 mm/s is 5000 ms; 500 mm at 100 mm/s is 5000 ms
    assert_eq!(stored, 10_000);
}

#[test]
fn segment_type_selects_its_speed() {
    let mut node = TimeToReachKickPosition::new(CreationContext {}).unwrap();
    let mut stored: u64 = 0;
    let context = CycleContext {
        dribble_path: Some(vec![
            PathSegment::Line { length_mm: 900 },
            PathSegment::Arc { length_mm: 900 },
        ]),
        configuration: parameters(300, 100),
        stand_up_back_estimated_remaining_duration_ms: None,
        stand_up_front_estimated_remaining_duration_ms: None,
    };
    node.cycle(context, &mut stored).unwrap();
    // 3000 ms for the line, 9000 ms for the arc
    assert_eq!(stored, 12_000);
}

#[test]
fn no_path_stores_the_sentinel() {
    let mut node = TimeToReachKickPosition::new(CreationContext {}).unwrap();
    let mut stored: u64 = 7;
    let context = CycleContext {
        dribble_path: None,
        configuration: parameters(200, 100),
        stand_up_back_estimated_remaining_duration_ms: Some(1500),
        stand_up_front_estimated_remaining_duration_ms: Some(2500),
    };
    node.cycle(context, &mut stored).unwrap();
    assert_eq!(stored, NO_PATH_TIME_MS);
    assert_eq!(NO_PATH_TIME_MS, 1_800_000);
}

#[test]
fn recovery_durations_add_exactly() {
    let mut node = TimeToReachKickPosition::new(CreationContext {}).unwrap();
    let mut stored: u64 = 0;
    let context = CycleContext {
        dribble_path: Some(vec![PathSegment::Line { length_mm: 1000 }]),
        configuration: parameters(200, 100),
        stand_up_back_estimated_remaining_duration_ms: Some(1500),
        stand_up_front_estimated_remaining_duration_ms: Some(2500),
    };
    node.cycle(context, &mut stored).unwrap();
    assert_eq!(stored, 5000 + 1500 + 2500);
}

#[test]
fn absent_recovery_contributes_zero() {
    let mut node = TimeToReachKickPosition::new(CreationContext {}).unwrap();
    let mut stored: u64 = 0;
    let context = CycleContext {
        dribble_path: Some(vec![PathSegment::Line { length_mm: 1000 }]),
        configuration: parameters(200, 100),
        stand_up_back_estimated_remaining_duration_ms: Some(1500),
        stand_up_front_estimated_remaining_duration_ms: None,
    };
    node.cycle(context, &mut stored).unwrap();
    assert_eq!(stored, 6500);
}

#[test]
fn empty_path_takes_no_time() {
    let mut node = TimeToReachKickPosition::new(CreationContext {}).unwrap();
    let mut stored: u64 = 99;
    let context = CycleContext {
        dribble_path: Some(vec![]),
        configuration: parameters(200, 100),
        stand_up_back_estimated_remaining_duration_ms: None,
        stand_up_front_estimated_remaining_duration_ms: None,
    };
    node.cycle(context, &mut stored).unwrap();
    assert_eq!(stored, 0);
}

#[test]
fn segment_time_truncates() {
    let mut node = TimeToReachKickPosition::new(CreationContext {}).unwrap();
    let mut stored: u64 = 0;
    let context = CycleContext {
        dribble_path: Some(vec![PathSegment::Line { length_mm: 100 }]),
        configuration: parameters(300, 100),
        stand_up_back_estimated_remaining_duration_ms: None,
        stand_up_front_estimated_remaining_duration_ms: None,
    };
    node.cycle(context, &mut stored).unwrap();
    // 100_000 / 300 truncates to 333 ms
    assert_eq!(stored, 333);
}
