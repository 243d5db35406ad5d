//! Behavior dispatch: maps the current world state to exactly one `Action`
//! per cycle through an ordered rule list whose first match wins — the
//! rules are mutually exclusive by construction, since each one is only
//! reached when every rule above it declined.
//!
//! Downstream motion nodes read the selected action; which motion source
//! is authoritative for a given action is fixed here at registration time,
//! so two motion nodes never compete for the same cycle.

use vstd::prelude::*;

use crate::action::Action;
use crate::types::{BallState, PrimaryState};

verus! {

/// The aggregated perception snapshot the dispatch rules read.
pub struct WorldState {
    /// The coarse robot mode.
    pub primary_state: PrimaryState,
    /// Whether the robot is currently fallen.
    pub fallen: bool,
    /// The composed ball state, if any source placed the ball.
    pub ball: Option<BallState>,
}

/// The motion-generating source whose output is authoritative for a cycle.
#[derive(Clone, Copy, Debug, PartialEq, Eq, Structural)]
pub enum MotionSource {
    /// The walk-to-ball node produces the command.
    WalkToBall,
    /// The built-in fallback produces a standing command.
    StandFallback,
}

/// The ordered dispatch rules, first match first.
pub open spec fn spec_dispatch(world: WorldState) -> Action {
    if world.primary_state == PrimaryState::Unstiff {
        Action::Unstiff
    } else if world.primary_state == PrimaryState::Penalized {
        Action::Penalize
    } else if world.primary_state == PrimaryState::Initial {
        Action::Initial
    } else if world.fallen {
        Action::StandUp
    } else if world.ball is None {
        Action::Search
    } else {
        Action::Dribble
    }
}

/// Selects the cycle's action by the ordered rules.
pub fn dispatch_action(world: &WorldState) -> (action: Action)
    ensures
        action == spec_dispatch(*world),
{
    if world.primary_state == PrimaryState::Unstiff {
        Action::Unstiff
    } else if world.primary_state == PrimaryState::Penalized {
        Action::Penalize
    } else if world.primary_state == PrimaryState::Initial {
        Action::Initial
    } else if world.fallen {
        Action::StandUp
    } else if world.ball.is_none() {
        Action::Search
    } else {
        Action::Dribble
    }
}

/// Which motion source is authoritative for each action: exactly one per
/// action value, fixed at registration.
pub open spec fn spec_motion_source(action: Action) -> MotionSource {
    match action {
        Action::Dribble => MotionSource::WalkToBall,
        Action::InterceptBall => MotionSource::WalkToBall,
        _ => MotionSource::StandFallback,
    }
}

/// Selects the authoritative motion source for the cycle's action.
pub fn motion_source(action: Action) -> (source: MotionSource)
    ensures
        source == spec_motion_source(action),
{
    match action {
        Action::Dribble => MotionSource::WalkToBall,
        Action::InterceptBall => MotionSource::WalkToBall,
        _ => MotionSource::StandFallback,
    }
}

/// Law: the rules resolve by precedence, so earlier rules win whatever the
/// later inputs say — an unstiff robot never dispatches anything but
/// `Unstiff`, a penalized one always `Penalize`, a fallen playing robot
/// stands up before anything ball-related, and a playing upright robot
/// searches exactly when no ball state is present.
pub proof fn lemma_dispatch_precedence(world: WorldState)
    ensures
        world.primary_state == PrimaryState::Unstiff ==> spec_dispatch(world) == Action::Unstiff,
        world.primary_state == PrimaryState::Penalized ==> spec_dispatch(world)
            == Action::Penalize,
        world.primary_state == PrimaryState::Playing && world.fallen ==> spec_dispatch(world)
            == Action::StandUp,
        world.primary_state == PrimaryState::Playing && !world.fallen ==> (spec_dispatch(world)
            == Action::Search <==> world.ball is None),
{
}

} // verus!
