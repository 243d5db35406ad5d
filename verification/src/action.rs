//! The finite behavior-intent classification: exactly one `Action` is
//! selected per cycle by the dispatch node, and each motion-generating node
//! decides from it whether to emit a command this cycle.

use vstd::prelude::*;

use crate::types::Side;

verus! {

/// The robot's current intent, as classified once per cycle.
#[derive(Clone, Copy, Debug, PartialEq, Eq, Structural)]
pub enum Action {
    DefendGoal,
    DefendKickOff,
    DefendLeft,
    DefendPenaltyKick,
    DefendRight,
    DefendOpponentCornerKick { side: Side },
    Dribble,
    Initial,
    InterceptBall,
    LookAround,
    LookAtReferee,
    Penalize,
    Search,
    SearchForLostBall,
    Stand,
    StandUp,
    SupportLeft,
    SupportRight,
    SupportStriker,
    Unstiff,
    WalkToKickOff,
    WalkToPenaltyKick,
}

} // verus!
