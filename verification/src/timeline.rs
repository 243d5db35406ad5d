//! Telemetry timeline: subscribers receive published values keyed by a
//! monotonically increasing message number per subscription, and this
//! module reconstructs from those changes the segments of a value-over-
//! time plot — each change opens a segment that the next change closes,
//! the last one running to the subscription's current message count.

use vstd::prelude::*;

use crate::action::Action;
use crate::store::Value;
use crate::types::{MotionCommand, PathSegment, PrimaryState};

verus! {

/// One recorded change of a subscribed value.
pub struct Change {
    /// The message number the new value arrived with.
    pub message_number: u64,
    /// The value from that message on.
    pub value: Value,
}

/// One segment of the plot: the value held from message `start` to
/// message `end`.
pub struct Segment {
    pub start: u64,
    pub end: u64,
    pub value: Value,
}

/// The state of one subscription: every change seen so far and the total
/// number of messages the subscription has delivered.
pub struct Timeline {
    pub changes: Vec<Change>,
    pub message_count: u64,
}

/// Two values are the same: deep equality, comparing texts and paths by
/// their contents.
pub open spec fn value_equiv(a: Value, b: Value) -> bool {
    match (a, b) {
        (Value::Text(x), Value::Text(y)) => x@ == y@,
        (Value::PathSegments(x), Value::PathSegments(y)) => x@ =~= y@,
        (x, y) => x == y,
    }
}

impl Value {
    /// A copy of the value, equal to it in contents.
    pub fn duplicate(&self) -> (r: Value)
        ensures
            value_equiv(r, *self),
    {
        match self {
            Value::Boolean(b) => Value::Boolean(*b),
            Value::Number(n) => Value::Number(*n),
            Value::Text(s) => Value::Text(s.clone()),
            Value::DurationMs(d) => Value::DurationMs(*d),
            Value::Point(p) => Value::Point(*p),
            Value::PathSegments(p) => Value::PathSegments(copy_path(p)),
            Value::BallState(b) => Value::BallState(*b),
            Value::BallPosition(b) => Value::BallPosition(*b),
            Value::Transform(t) => Value::Transform(*t),
            Value::MotionCommand(m) => Value::MotionCommand(*m),
            Value::Action(a) => Value::Action(*a),
            Value::CycleTime(c) => Value::CycleTime(*c),
            Value::PenaltyShot(p) => Value::PenaltyShot(*p),
            Value::PrimaryState(p) => Value::PrimaryState(*p),
        }
    }
}

/// An element-wise copy of a path value.
fn copy_path(src: &Vec<PathSegment>) -> (r: Vec<PathSegment>)
    ensures
        r@ =~= src@,
{
    let mut r: Vec<PathSegment> = Vec::new();
    let mut i: usize = 0;
    while i < src.len()
        invariant
            i <= src@.len(),
            r@ =~= src@.take(i as int),
        decreases src@.len() - i,
    {
        r.push(src[i]);
        i += 1;
    }
    proof {
        assert(src@.take(src@.len() as int) =~= src@);
    }
    r
}

/// Where segment `j` of a change list ends: at the next change, or at the
/// message count for the still-open last segment.
pub open spec fn spec_segment_end(changes: Seq<Change>, message_count: u64, j: int) -> u64
    recommends
        0 <= j < changes.len(),
{
    if j + 1 < changes.len() {
        changes[j + 1].message_number
    } else {
        message_count
    }
}

impl Timeline {
    /// A fresh subscription: no changes, no messages.
    pub fn new() -> (t: Timeline)
        ensures
            t.changes@.len() == 0,
            t.message_count == 0,
    {
        Timeline { changes: Vec::new(), message_count: 0 }
    }

    /// Folds one batch of updates in: the new changes extend the recorded
    /// ones in order, and the message count becomes the batch's.
    pub fn apply_update(&mut self, updates: Vec<Change>, message_count: u64)
        ensures
            final(self).changes@ =~= old(self).changes@ + updates@,
            final(self).message_count == message_count,
    {
        let ghost all_updates = updates@;
        let mut rest = updates;
        while rest.len() > 0
            invariant
                self.changes@ + rest@ =~= old(self).changes@ + all_updates,
            decreases rest@.len(),
        {
            let c = rest.remove(0);
            self.changes.push(c);
        }
        proof {
            assert(self.changes@ + rest@ =~= self.changes@);
        }
        self.message_count = message_count;
    }

    /// The plot segments: each change holds until the next one, and the
    /// last change holds until the current message count.
    pub fn segments(&self) -> (r: Vec<Segment>)
        ensures
            r@.len() == self.changes@.len(),
            forall|j: int|
                #![trigger r@[j]]
                0 <= j < r@.len() ==> {
                    &&& r@[j].start == self.changes@[j].message_number
                    &&& r@[j].end == spec_segment_end(self.changes@, self.message_count, j)
                    &&& value_equiv(r@[j].value, self.changes@[j].value)
                },
    {
        let mut r: Vec<Segment> = Vec::new();
        let mut i: usize = 0;
        while i < self.changes.len()
            invariant
                i <= self.changes@.len(),
                r@.len() == i,
                forall|j: int|
                    #![trigger r@[j]]
                    0 <= j < i ==> {
                        &&& r@[j].start == self.changes@[j].message_number
                        &&& r@[j].end == spec_segment_end(self.changes@, self.message_count, j)
                        &&& value_equiv(r@[j].value, self.changes@[j].value)
                    },
            decreases self.changes@.len() - i,
        {
            let end = if i + 1 < self.changes.len() {
                self.changes[i + 1].message_number
            } else {
                self.message_count
            };
            r.push(
                Segment {
                    start: self.changes[i].message_number,
                    end,
                    value: self.changes[i].value.duplicate(),
                },
            );
            proof {
                assert(r@[i as int].end == spec_segment_end(
                    self.changes@,
                    self.message_count,
                    i as int,
                ));
            }
            i += 1;
        }
        r
    }

    /// Clears the plot but keeps the latest value as a change at message
    /// number zero, so the plot starts over without losing the current
    /// state; the message count keeps running.
    pub fn clear_keeping_last(&mut self)
        ensures
            final(self).message_count == old(self).message_count,
            old(self).changes@.len() == 0 ==> final(self).changes@.len() == 0,
            old(self).changes@.len() > 0 ==> {
                &&& final(self).changes@.len() == 1
                &&& final(self).changes@[0].message_number == 0
                &&& final(self).changes@[0].value == old(self).changes@.last().value
            },
    {
        match self.changes.pop() {
            None => {},
            Some(last) => {
                self.changes = Vec::new();
                self.changes.push(Change { message_number: 0, value: last.value });
            },
        }
    }
}

/// The label a value plots under: texts and enum-like values show their
/// own name, everything else shows its kind.
pub open spec fn spec_name(v: Value) -> Seq<char> {
    match v {
        Value::Boolean(b) => if b {
            "true"@
        } else {
            "false"@
        },
        Value::Number(_) => "<Number>"@,
        Value::Text(s) => s@,
        Value::DurationMs(_) => "<Duration>"@,
        Value::Point(_) => "<Point>"@,
        Value::PathSegments(_) => "<Path>"@,
        Value::BallState(_) => "<BallState>"@,
        Value::BallPosition(_) => "<BallPosition>"@,
        Value::Transform(_) => "<Transform>"@,
        Value::MotionCommand(m) => match m {
            MotionCommand::Stand { .. } => "Stand"@,
            MotionCommand::Walk { .. } => "Walk"@,
        },
        Value::Action(a) => spec_action_name(a),
        Value::CycleTime(_) => "<CycleTime>"@,
        Value::PenaltyShot(_) => "<PenaltyShot>"@,
        Value::PrimaryState(p) => spec_primary_state_name(p),
    }
}

/// The variant name of an action.
pub open spec fn spec_action_name(a: Action) -> Seq<char> {
    match a {
        Action::DefendGoal => "DefendGoal"@,
        Action::DefendKickOff => "DefendKickOff"@,
        Action::DefendLeft => "DefendLeft"@,
        Action::DefendPenaltyKick => "DefendPenaltyKick"@,
        Action::DefendRight => "DefendRight"@,
        Action::DefendOpponentCornerKick { .. } => "DefendOpponentCornerKick"@,
        Action::Dribble => "Dribble"@,
        Action::Initial => "Initial"@,
        Action::InterceptBall => "InterceptBall"@,
        Action::LookAround => "LookAround"@,
        Action::LookAtReferee => "LookAtReferee"@,
        Action::Penalize => "Penalize"@,
        Action::Search => "Search"@,
        Action::SearchForLostBall => "SearchForLostBall"@,
        Action::Stand => "Stand"@,
        Action::StandUp => "StandUp"@,
        Action::SupportLeft => "SupportLeft"@,
        Action::SupportRight => "SupportRight"@,
        Action::SupportStriker => "SupportStriker"@,
        Action::Unstiff => "Unstiff"@,
        Action::WalkToKickOff => "WalkToKickOff"@,
        Action::WalkToPenaltyKick => "WalkToPenaltyKick"@,
    }
}

/// The variant name of a primary state.
pub open spec fn spec_primary_state_name(p: PrimaryState) -> Seq<char> {
    match p {
        PrimaryState::Unstiff => "Unstiff"@,
        PrimaryState::Initial => "Initial"@,
        PrimaryState::Ready => "Ready"@,
        PrimaryState::Playing => "Playing"@,
        PrimaryState::Penalized => "Penalized"@,
        PrimaryState::Finished => "Finished"@,
    }
}

impl Segment {
    /// The label this segment plots under.
    pub fn name(&self) -> (r: String)
        ensures
            r@ == spec_name(self.value),
    {
        match &self.value {
            Value::Boolean(b) => if *b {
                "true".to_owned()
            } else {
                "false".to_owned()
            },
            Value::Number(_) => "<Number>".to_owned(),
            Value::Text(s) => s.clone(),
            Value::DurationMs(_) => "<Duration>".to_owned(),
            Value::Point(_) => "<Point>".to_owned(),
            Value::PathSegments(_) => "<Path>".to_owned(),
            Value::BallState(_) => "<BallState>".to_owned(),
            Value::BallPosition(_) => "<BallPosition>".to_owned(),
            Value::Transform(_) => "<Transform>".to_owned(),
            Value::MotionCommand(m) => match m {
                MotionCommand::Stand { .. } => "Stand".to_owned(),
                MotionCommand::Walk { .. } => "Walk".to_owned(),
            },
            Value::Action(a) => action_name(*a),
            Value::CycleTime(_) => "<CycleTime>".to_owned(),
            Value::PenaltyShot(_) => "<PenaltyShot>".to_owned(),
            Value::PrimaryState(p) => primary_state_name(*p),
        }
    }
}

/// The variant name of an action, for plotting and logs.
pub fn action_name(a: Action) -> (r: String)
    ensures
        r@ == spec_action_name(a),
{
    match a {
        Action::DefendGoal => "DefendGoal".to_owned(),
        Action::DefendKickOff => "DefendKickOff".to_owned(),
        Action::DefendLeft => "DefendLeft".to_owned(),
        Action::DefendPenaltyKick => "DefendPenaltyKick".to_owned(),
        Action::DefendRight => "DefendRight".to_owned(),
        Action::DefendOpponentCornerKick { .. } => "DefendOpponentCornerKick".to_owned(),
        Action::Dribble => "Dribble".to_owned(),
        Action::Initial => "Initial".to_owned(),
        Action::InterceptBall => "InterceptBall".to_owned(),
        Action::LookAround => "LookAround".to_owned(),
        Action::LookAtReferee => "LookAtReferee".to_owned(),
        Action::Penalize => "Penalize".to_owned(),
        Action::Search => "Search".to_owned(),
        Action::SearchForLostBall => "SearchForLostBall".to_owned(),
        Action::Stand => "Stand".to_owned(),
        Action::StandUp => "StandUp".to_owned(),
        Action::SupportLeft => "SupportLeft".to_owned(),
        Action::SupportRight => "SupportRight".to_owned(),
        Action::SupportStriker => "SupportStriker".to_owned(),
        Action::Unstiff => "Unstiff".to_owned(),
        Action::WalkToKickOff => "WalkToKickOff".to_owned(),
        Action::WalkToPenaltyKick => "WalkToPenaltyKick".to_owned(),
    }
}

/// The variant name of a primary state, for plotting and logs.
pub fn primary_state_name(p: PrimaryState) -> (r: String)
    ensures
        r@ == spec_primary_state_name(p),
{
    match p {
        PrimaryState::Unstiff => "Unstiff".to_owned(),
        PrimaryState::Initial => "Initial".to_owned(),
        PrimaryState::Ready => "Ready".to_owned(),
        PrimaryState::Playing => "Playing".to_owned(),
        PrimaryState::Penalized => "Penalized".to_owned(),
        PrimaryState::Finished => "Finished".to_owned(),
    }
}

} // verus!
