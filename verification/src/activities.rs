//! Activity resource vocabulary: the activity type enumeration and
//! the polyline map record. Unlike the athlete enumerations, the
//! remote activity vocabulary may grow, so `ActivityType` carries a
//! deliberate `Unknown` fallback variant.

use vstd::prelude::*;

verus! {

/// Activity Types
#[derive(Clone, Copy, Debug, PartialEq, Eq, Structural)]
pub enum ActivityType {
    Ride,
    Run,
    Swim,
    Hike,
    Walk,
    AlpineSki,
    BackcountrySki,
    Canoeing,
    Crossfit,
    EBikeRide,
    Elliptical,
    IceSkate,
    InlineSkate,
    Kayaking,
    Kitesurf,
    NordicSki,
    RockClimbing,
    RollerSki,
    Rowing,
    Snowboard,
    Snowshoe,
    StairStepper,
    StandUpPaddling,
    Surfing,
    WeightTraining,
    Windsurf,
    Workout,
    Yoga,
    Unknown,
}

/// All polylines are encoded with Google's polyline algorithm.
#[derive(Debug)]
pub struct PolylineMap {
    /// The identifier of the map
    pub id: String,

    /// The polyline of the map
    pub polyline: Option<String>,

    /// The summary polyline of the map
    pub summary_polyline: Option<String>,
}

} // verus!
