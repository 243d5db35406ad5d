use hulk_core::action::Action;
use hulk_core::robot_info::{Battery, RobotConfiguration, RobotInfo, SharedState};
use hulk_core::store::Value;
use hulk_core::timeline::{action_name, Change, Timeline};

fn timeline_with(changes: Vec<(u64, Value)>, message_count: u64) -> Timeline {
    let mut timeline = Timeline::new();
    let updates = changes
        .into_iter()
        .map(|(message_number, value)| Change { message_number, value })
        .collect();
    timeline.apply_update(updates, message_count);
    timeline
}

#[test]
fn segments_run_from_change_to_change() {
    let timeline = timeline_with(
        vec![
            (0, Value::Action(Action::Search)),
            (5, Value::Action(Action::Dribble)),
            (9, Value::Text("kickoff".to_owned())),
        ],
        12,
    );
    let segments = timeline.segments();
    assert_eq!(segments.len(), 3);
    assert_eq!((segments[0].start, segments[0].end), (0, 5));
    assert_eq!((segments[1].start, segments[1].end), (5, 9));
    // the last segment stays open until the current message count
    assert_eq!((segments[2].start, segments[2].end), (9, 12));
    assert_eq!(segments[0].name(), "Search");
    assert_eq!(segments[1].name(), "Dribble");
    assert_eq!(segments[2].name(), "kickoff");
}

#[test]
fn updates_extend_the_change_list() {
    let mut timeline = timeline_with(vec![(0, Value::Boolean(false))], 3);
    timeline.apply_update(vec![Change { message_number: 3, value: Value::Boolean(true) }], 7);
    assert_eq!(timeline.changes.len(), 2);
    assert_eq!(timeline.message_count, 7);
    let segments = timeline.segments();
    assert_eq!((segments[1].start, segments[1].end), (3, 7));
    assert_eq!(segments[0].name(), "false");
    assert_eq!(segments[1].name(), "true");
}

#[test]
fn clearing_keeps_the_latest_value() {
    let mut timeline = timeline_with(
        vec![(0, Value::Number(1)), (4, Value::Number(2)), (8, Value::Number(3))],
        10,
    );
    timeline.clear_keeping_last();
    assert_eq!(timeline.changes.len(), 1);
    assert_eq!(timeline.changes[0].message_number, 0);
    assert_eq!(timeline.changes[0].value, Value::Number(3));
    assert_eq!(timeline.message_count, 10);
}

#[test]
fn clearing_an_empty_timeline_keeps_it_empty() {
    let mut timeline = Timeline::new();
    timeline.clear_keeping_last();
    assert_eq!(timeline.changes.len(), 0);
}

#[test]
fn values_plot_under_their_kind_or_name() {
    let timeline = timeline_with(
        vec![(0, Value::Number(17)), (1, Value::DurationMs(5)), (2, Value::Boolean(true))],
        3,
    );
    let segments = timeline.segments();
    assert_eq!(segments[0].name(), "<Number>");
    assert_eq!(segments[1].name(), "<Duration>");
    assert_eq!(segments[2].name(), "true");
}

#[test]
fn every_action_has_its_variant_name() {
    assert_eq!(action_name(Action::DefendGoal), "DefendGoal");
    assert_eq!(action_name(Action::WalkToPenaltyKick), "WalkToPenaltyKick");
    assert_eq!(action_name(Action::SearchForLostBall), "SearchForLostBall");
}

#[test]
fn robot_identity_is_read_from_the_shared_state() {
    let info = RobotInfo {
        shared_state: SharedState {
            configuration: Some(RobotConfiguration {
                head_id: "hd-0042".to_owned(),
                body_id: "bd-0017".to_owned(),
            }),
            battery: Some(Battery { charge_permille: 870, current_milliamps: -320 }),
        },
    };
    assert_eq!(info.head_id().as_deref(), Some("hd-0042"));
    assert_eq!(info.body_id().as_deref(), Some("bd-0017"));
    assert_eq!(info.battery(), Some(Battery { charge_permille: 870, current_milliamps: -320 }));
}

#[test]
fn absent_configuration_yields_no_identity() {
    let info = RobotInfo { shared_state: SharedState { configuration: None, battery: None } };
    assert_eq!(info.head_id(), None);
    assert_eq!(info.body_id(), None);
    assert_eq!(info.battery(), None);
}
