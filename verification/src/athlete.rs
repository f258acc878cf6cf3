//! Athlete resource vocabulary: the closed enumerations of the
//! athlete record. These sets are closed: an unrecognized remote
//! value is a deserialization failure, there is no fallback variant.

use vstd::prelude::*;

verus! {

/// The athlete's sex, as the remote API reports it.
#[derive(Clone, Copy, Debug, PartialEq, Eq, Structural)]
pub enum Gender {
    Male,
    Female,
}

/// Whether one athlete follows another, and in what state.
#[derive(Clone, Copy, Debug, PartialEq, Eq, Structural)]
pub enum FriendshipStatus {
    Pending,
    Accepted,
    Blocked,
}

/// The athlete's preferred unit system.
#[derive(Clone, Copy, Debug, PartialEq, Eq, Structural)]
pub enum MeasurementPreference {
    Feet,
    Meters,
}

} // verus!
