//! Identity and battery accessors of the hardware-interface boundary: the
//! shared state is filled by the hardware side, and these read it out as
//! plain optional values for external inspection.

use vstd::prelude::*;

verus! {

/// The robot's burnt-in identity as the hardware reports it.
pub struct RobotConfiguration {
    pub head_id: String,
    pub body_id: String,
}

/// The battery snapshot the hardware reports: charge in thousandths of
/// full, current in milliamperes.
#[derive(Clone, Copy, Debug, PartialEq, Eq, Structural)]
pub struct Battery {
    pub charge_permille: u16,
    pub current_milliamps: i32,
}

/// What the hardware side has shared so far; absent until the first
/// report arrives.
pub struct SharedState {
    pub configuration: Option<RobotConfiguration>,
    pub battery: Option<Battery>,
}

/// Read-only view over the shared state for external inspection.
pub struct RobotInfo {
    pub shared_state: SharedState,
}

impl RobotInfo {
    /// The head identity, once the hardware has reported one.
    pub fn head_id(&self) -> (r: Option<String>)
        ensures
            (r is Some) == (self.shared_state.configuration is Some),
            r matches Some(id) ==> id@ == self.shared_state.configuration->0.head_id@,
    {
        match &self.shared_state.configuration {
            Some(configuration) => Some(configuration.head_id.clone()),
            None => None,
        }
    }

    /// The body identity, once the hardware has reported one.
    pub fn body_id(&self) -> (r: Option<String>)
        ensures
            (r is Some) == (self.shared_state.configuration is Some),
            r matches Some(id) ==> id@ == self.shared_state.configuration->0.body_id@,
    {
        match &self.shared_state.configuration {
            Some(configuration) => Some(configuration.body_id.clone()),
            None => None,
        }
    }

    /// The latest battery snapshot, if one was reported.
    pub fn battery(&self) -> (r: Option<Battery>)
        ensures
            r == self.shared_state.battery,
    {
        self.shared_state.battery
    }
}

} // verus!
