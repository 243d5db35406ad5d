use hulk_core::geometry::{isqrt, Point2, Vector2};
use hulk_core::node::NodeError;
use hulk_core::types::{
    BallState, CameraPosition, CycleTime, HeadMotion, ImageRegion, MotionCommand, Side,
};
use hulk_core::walk_to_ball::{CreationContext, CycleContext, WalkToBall};

fn ball_at(x: i64, y: i64) -> BallState {
    BallState {
        ball_in_ground: Point2 { x, y },
        ball_in_field: Point2 { x, y },
        ball_in_ground_velocity: Vector2 { x: 0, y: 0 },
        last_seen_ball_ms: 0,
        field_side: Side::Left,
        penalty_shot_direction: None,
    }
}

fn walk_command(x: i64, y: i64) -> MotionCommand {
    let mut node = WalkToBall::new(CreationContext {}).unwrap();
    let context = CycleContext {
        cycle_time: CycleTime { start_time_ms: 0, last_cycle_duration_ms: 12 },
        ball_state: ball_at(x, y),
    };
    node.cycle(context).unwrap().motion_command
}

#[test]
fn velocity_is_normalized_direction_times_speed() {
    // |(300, 400)| = 500, so the unit direction is (0.6, 0.8)
    match walk_command(300, 400) {
        MotionCommand::Walk { velocity, .. } => {
            assert_eq!(velocity, Vector2 { x: 60, y: 80 });
        }
        other => panic!("expected a walk, got {other:?}"),
    }
}

#[test]
fn velocity_keeps_its_magnitude_on_the_axes() {
    match walk_command(0, -500) {
        MotionCommand::Walk { velocity, .. } => {
            assert_eq!(velocity, Vector2 { x: 0, y: -100 });
        }
        other => panic!("expected a walk, got {other:?}"),
    }
    match walk_command(3, 4) {
        MotionCommand::Walk { velocity, .. } => {
            assert_eq!(velocity, Vector2 { x: 60, y: 80 });
        }
        other => panic!("expected a walk, got {other:?}"),
    }
}

#[test]
fn angular_velocity_passes_through_inside_the_range() {
    for y in [-249, -100, 0, 100, 249] {
        match walk_command(1000, y) {
            MotionCommand::Walk { angular_velocity, .. } => assert_eq!(angular_velocity, y),
            other => panic!("expected a walk, got {other:?}"),
        }
    }
}

#[test]
fn angular_velocity_clamps_at_the_boundaries() {
    let cases = [(250, 250), (251, 250), (400, 250), (-250, -250), (-251, -250), (-400, -250)];
    for (y, expected) in cases {
        match walk_command(1000, y) {
            MotionCommand::Walk { angular_velocity, .. } => {
                assert_eq!(angular_velocity, expected, "at y = {y}")
            }
            other => panic!("expected a walk, got {other:?}"),
        }
    }
}

#[test]
fn head_looks_at_the_ball() {
    match walk_command(300, 400) {
        MotionCommand::Walk { head, .. } => {
            assert_eq!(
                head,
                HeadMotion::LookAt {
                    target: Point2 { x: 300, y: 400 },
                    image_region_target: ImageRegion::Center,
                    camera: Some(CameraPosition::Bottom),
                }
            );
        }
        other => panic!("expected a walk, got {other:?}"),
    }
}

#[test]
fn ball_at_the_origin_is_degenerate() {
    let mut node = WalkToBall::new(CreationContext {}).unwrap();
    let context = CycleContext {
        cycle_time: CycleTime { start_time_ms: 0, last_cycle_duration_ms: 12 },
        ball_state: ball_at(0, 0),
    };
    match node.cycle(context) {
        Err(error) => assert_eq!(error, NodeError::DegenerateInput),
        Ok(_) => panic!("expected the degenerate input to be refused"),
    }
}

#[test]
fn integer_square_root_brackets_its_argument() {
    assert_eq!(isqrt(0), 0);
    assert_eq!(isqrt(1), 1);
    assert_eq!(isqrt(2), 1);
    assert_eq!(isqrt(3), 1);
    assert_eq!(isqrt(4), 2);
    assert_eq!(isqrt(249_999), 499);
    assert_eq!(isqrt(250_000), 500);
    assert_eq!(isqrt(u64::MAX), 4_294_967_295);
}
