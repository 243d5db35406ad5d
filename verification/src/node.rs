//! The node contract's shared vocabulary: node identities and the
//! recoverable per-cycle errors a node's transform can report.
//!
//! A node is constructed once from a creation context (failure there is
//! fatal to the owning cycler's startup) and then transforms a cycle
//! context into main outputs once per trigger; a failing transform is
//! reported with the node's identity and the cycle goes on without that
//! node's outputs.

use vstd::prelude::*;

verus! {

/// Identity of a processing node, used to attribute per-cycle errors and
/// telemetry.
#[derive(Clone, Copy, Debug, PartialEq, Eq, Structural)]
pub enum NodeId {
    BallStateComposer,
    TimeToReachKickPosition,
    Dispatch,
    WalkToBall,
}

/// A recoverable per-cycle failure of one node: the cycler logs it and
/// completes the remaining nodes, leaving the failing node's outputs
/// unpublished for this cycle.
#[derive(Clone, Copy, Debug, PartialEq, Eq, Structural)]
pub enum NodeError {
    /// A required input was absent at the moment the node's cycle ran.
    MissingRequiredInput { path_id: u64 },
    /// An input was present but outside the range the node can accept,
    /// such as a malformed transform or an out-of-range coordinate.
    InvalidInput { path_id: u64 },
    /// The node's inputs admit no defined result, such as a direction
    /// toward a ball standing exactly at the origin.
    DegenerateInput,
}

/// A per-cycle error together with the node it originated from.
#[derive(Clone, Copy, Debug, PartialEq, Eq, Structural)]
pub struct NodeReport {
    pub node: NodeId,
    pub error: NodeError,
}

} // verus!
