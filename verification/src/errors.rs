//! Error values of the section store and of the transition engine. Every
//! rejection is a distinct, inspectable value, so a caller can tell a missing
//! section from a refused transition, and a refused transition explains why.

use vstd::prelude::*;

verus! {

/// Why the transition engine refused a request. One variant per refusal the
/// engine can make: an unrecognized or repeated status name, or a source
/// state that no room is currently in.
#[derive(Debug, Clone, Copy, PartialEq, Eq, Structural)]
pub enum TransitionError {
    /// A status outside {available, occupied, disabled}, or equal source and
    /// destination.
    InvalidStatus,
    /// available -> occupied with no room available.
    NoAvailable,
    /// available -> disabled with no room available.
    NoAvailableToDisable,
    /// occupied -> available with no room occupied.
    NoOccupied,
    /// occupied -> disabled with no room occupied.
    NoOccupiedToDisable,
    /// disabled -> available with no room disabled.
    NoDisabled,
    /// disabled -> occupied with no room disabled.
    NoDisabledToOccupy,
}

/// The explanation each refusal carries.
pub open spec fn transition_message(e: TransitionError) -> Seq<char> {
    match e {
        TransitionError::InvalidStatus => "invalid status"@,
        TransitionError::NoAvailable => "No more sections are available"@,
        TransitionError::NoAvailableToDisable => "No more sections are available to disable"@,
        TransitionError::NoOccupied => "No more sections are occupied"@,
        TransitionError::NoOccupiedToDisable => "No more sections are occupied to disable"@,
        TransitionError::NoDisabled => "No more sections are disabled"@,
        TransitionError::NoDisabledToOccupy => "No more sections are disabled to occupy"@,
    }
}

impl TransitionError {
    /// The human-readable reason for the refusal.
    pub fn message(&self) -> (r: String)
        ensures
            r@ == transition_message(*self),
    {
        match self {
            TransitionError::InvalidStatus => "invalid status".to_owned(),
            TransitionError::NoAvailable => "No more sections are available".to_owned(),
            TransitionError::NoAvailableToDisable => {
                "No more sections are available to disable".to_owned()
            },
            TransitionError::NoOccupied => "No more sections are occupied".to_owned(),
            TransitionError::NoOccupiedToDisable => {
                "No more sections are occupied to disable".to_owned()
            },
            TransitionError::NoDisabled => "No more sections are disabled".to_owned(),
            TransitionError::NoDisabledToOccupy => {
                "No more sections are disabled to occupy".to_owned()
            },
        }
    }
}

/// Why a store operation failed: the requested id is absent, no section
/// matched a filtered lookup, or the transition engine refused the step.
#[derive(Debug, Clone, Copy, PartialEq, Eq, Structural)]
pub enum RepositoryError {
    /// No section with this id.
    NotFound(i32),
    /// A gender lookup matched nothing.
    NoSectionForGender,
    /// A building or floor lookup matched nothing.
    NoSectionForBuilding,
    /// The transition engine refused the requested step.
    Transition(TransitionError),
}

} // verus!
