use hulk_core::ball_state_composer::{BallStateComposer, CreationContext, CycleContext};
use hulk_core::filtering::greater_than_with_hysteresis;
use hulk_core::geometry::{Isometry2, Point2, Vector2};
use hulk_core::types::{BallPosition, CycleTime, PenaltyShotDirection, Side};

fn identity() -> Isometry2 {
    Isometry2 { cos_milli: 1000, sin_milli: 0, translation: Vector2 { x: 0, y: 0 } }
}

fn cycle_time() -> CycleTime {
    CycleTime { start_time_ms: 0, last_cycle_duration_ms: 12 }
}

fn context() -> CycleContext {
    CycleContext {
        cycle_time: cycle_time(),
        ball_position: None,
        penalty_shot_direction: None,
        ground_to_field: None,
        team_ball: None,
    }
}

fn local_ball(x: i64, y: i64) -> BallPosition {
    BallPosition { position: Point2 { x, y }, velocity: Vector2 { x: 10, y: -5 }, last_seen_ms: 42 }
}

#[test]
fn local_observation_is_the_ground_position() {
    let mut node = BallStateComposer::new(CreationContext {}).unwrap();
    let mut ctx = context();
    ctx.ball_position = Some(local_ball(300, 400));
    ctx.ground_to_field = Some(identity());
    let out = node.cycle(ctx).unwrap();
    let state = out.ball_state.unwrap();
    assert_eq!(state.ball_in_ground, Point2 { x: 300, y: 400 });
    assert_eq!(state.ball_in_field, Point2 { x: 300, y: 400 });
    assert_eq!(state.ball_in_ground_velocity, Vector2 { x: 10, y: -5 });
    assert_eq!(state.last_seen_ball_ms, 42);
}

#[test]
fn team_ball_is_inverse_transformed() {
    let mut node = BallStateComposer::new(CreationContext {}).unwrap();
    let mut ctx = context();
    ctx.team_ball = Some(BallPosition {
        position: Point2 { x: 500, y: 600 },
        velocity: Vector2 { x: 100, y: 0 },
        last_seen_ms: 77,
    });
    ctx.ground_to_field = Some(Isometry2 {
        cos_milli: 1000,
        sin_milli: 0,
        translation: Vector2 { x: 100, y: -50 },
    });
    let out = node.cycle(ctx).unwrap();
    let state = out.ball_state.unwrap();
    // untranslate: (500 - 100, 600 + 50), identity rotation
    assert_eq!(state.ball_in_ground, Point2 { x: 400, y: 650 });
    assert_eq!(state.ball_in_field, Point2 { x: 500, y: 600 });
    // a vector only rotates, so it comes back unchanged
    assert_eq!(state.ball_in_ground_velocity, Vector2 { x: 100, y: 0 });
    assert_eq!(state.last_seen_ball_ms, 77);
}

#[test]
fn rotated_transform_is_exact() {
    let mut node = BallStateComposer::new(CreationContext {}).unwrap();
    let mut ctx = context();
    ctx.ball_position = Some(local_ball(1000, 0));
    // cosine 0.6, sine 0.8: an exact point on the scaled unit circle
    ctx.ground_to_field = Some(Isometry2 {
        cos_milli: 600,
        sin_milli: 800,
        translation: Vector2 { x: 10, y: 20 },
    });
    let out = node.cycle(ctx).unwrap();
    let state = out.ball_state.unwrap();
    assert_eq!(state.ball_in_field, Point2 { x: 610, y: 820 });
}

#[test]
fn local_observation_wins_over_team_ball() {
    let mut node = BallStateComposer::new(CreationContext {}).unwrap();
    let mut ctx = context();
    ctx.ball_position = Some(local_ball(300, 400));
    ctx.team_ball = Some(local_ball(-900, -900));
    ctx.ground_to_field = Some(identity());
    let out = node.cycle(ctx).unwrap();
    let state = out.ball_state.unwrap();
    assert_eq!(state.ball_in_ground, Point2 { x: 300, y: 400 });
}

#[test]
fn no_source_publishes_no_ball_state() {
    let mut node = BallStateComposer::new(CreationContext {}).unwrap();
    let out = node.cycle(context()).unwrap();
    assert!(out.ball_state.is_none());
}

#[test]
fn no_transform_publishes_no_ball_state() {
    let mut node = BallStateComposer::new(CreationContext {}).unwrap();
    let mut ctx = context();
    ctx.ball_position = Some(local_ball(300, 400));
    let out = node.cycle(ctx).unwrap();
    assert!(out.ball_state.is_none());
}

#[test]
fn penalty_shot_direction_is_carried_through() {
    let mut node = BallStateComposer::new(CreationContext {}).unwrap();
    let mut ctx = context();
    ctx.ball_position = Some(local_ball(1, 1));
    ctx.ground_to_field = Some(identity());
    ctx.penalty_shot_direction = Some(PenaltyShotDirection::NotMoving);
    let out = node.cycle(ctx).unwrap();
    let state = out.ball_state.unwrap();
    assert_eq!(state.penalty_shot_direction, Some(PenaltyShotDirection::NotMoving));
}

fn side_after(node: &mut BallStateComposer, y: i64) -> Side {
    let mut ctx = context();
    ctx.ball_position = Some(local_ball(0, y));
    ctx.ground_to_field = Some(identity());
    let out = node.cycle(ctx).unwrap();
    out.ball_state.unwrap().field_side
}

#[test]
fn side_holds_inside_the_hysteresis_band() {
    let mut node = BallStateComposer::new(CreationContext {}).unwrap();
    // starting on the left, small steps straddling zero never flip
    for y in [150, 100, 50, 0, -50, -100, -150, -199, -200 + 1] {
        assert_eq!(side_after(&mut node, y), Side::Left, "flipped at y = {y}");
    }
}

#[test]
fn side_flips_only_past_the_band() {
    let mut node = BallStateComposer::new(CreationContext {}).unwrap();
    assert_eq!(side_after(&mut node, -199), Side::Left);
    // crossing the band edge flips to the right
    assert_eq!(side_after(&mut node, -200), Side::Right);
    // and small values straddling zero now keep the right side
    for y in [-150, -50, 0, 50, 150, 200] {
        assert_eq!(side_after(&mut node, y), Side::Right, "flipped at y = {y}");
    }
    // until the band is fully crossed upward
    assert_eq!(side_after(&mut node, 201), Side::Left);
}

#[test]
fn hysteresis_comparison_at_the_edges() {
    // previously greater: stays greater strictly above the lowered threshold
    assert!(greater_than_with_hysteresis(true, -199, 0, 200));
    assert!(!greater_than_with_hysteresis(true, -200, 0, 200));
    // previously not greater: needs to climb strictly above the raised one
    assert!(!greater_than_with_hysteresis(false, 200, 0, 200));
    assert!(greater_than_with_hysteresis(false, 201, 0, 200));
}
