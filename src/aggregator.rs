//! Fan-in of the input producers into one tagged message stream.
use crate::gps::GroundSpeed;
use crate::util::Speed;
use vstd::prelude::*;

verus! {

/// Logical state of a hopper limit switch.
#[derive(Clone, Copy, Debug, PartialEq, Eq, Structural)]
pub enum HopperState {
    Empty,
    Full,
}

/// Logical state of the planter-lift switch.
#[derive(Clone, Copy, Debug, PartialEq, Eq, Structural)]
pub enum LiftState {
    Raised,
    Lowered,
}

impl HopperState {
    /// The state a hopper switch reports at a line level: a high line is a
    /// full hopper.
    pub fn from_level(high: bool) -> (r: HopperState)
        ensures
            r == (if high { HopperState::Full } else { HopperState::Empty }),
    {
        if high {
            HopperState::Full
        } else {
            HopperState::Empty
        }
    }
}

impl LiftState {
    /// The state the lift switch reports at a line level: a low line is a
    /// lowered planter.
    pub fn from_level(high: bool) -> (r: LiftState)
        ensures
            r == (if high { LiftState::Raised } else { LiftState::Lowered }),
    {
        if high {
            LiftState::Raised
        } else {
            LiftState::Lowered
        }
    }
}

/// A value from one of the producers: hopper switch `i`, the lift switch, or
/// the ground-speed provider.
#[derive(Clone, Copy, Debug, PartialEq, Eq, Structural)]
pub enum Source {
    Hopper(usize, HopperState),
    Lift(LiftState),
    Speed(GroundSpeed),
}

/// A message of the aggregated stream that the controller consumes.
#[derive(Clone, Copy, Debug, PartialEq, Eq, Structural)]
pub enum Message {
    GroundSpeed(Speed),
    GroundSpeedLost,
    HopperFull(usize),
    HopperEmpty(usize),
    PlanterRaised,
    PlanterLowered,
}

/// The message that a producer's value becomes.
pub open spec fn tag(s: Source) -> Message {
    match s {
        Source::Hopper(i, HopperState::Full) => Message::HopperFull(i),
        Source::Hopper(i, HopperState::Empty) => Message::HopperEmpty(i),
        Source::Lift(LiftState::Raised) => Message::PlanterRaised,
        Source::Lift(LiftState::Lowered) => Message::PlanterLowered,
        Source::Speed(GroundSpeed::Gps(v)) => Message::GroundSpeed(v),
        Source::Speed(GroundSpeed::Unavailable) => Message::GroundSpeedLost,
    }
}

/// Tags a producer's value for the aggregated stream.
pub fn aggregate(s: Source) -> (r: Message)
    ensures
        r == tag(s),
{
    match s {
        Source::Hopper(i, HopperState::Full) => Message::HopperFull(i),
        Source::Hopper(i, HopperState::Empty) => Message::HopperEmpty(i),
        Source::Lift(LiftState::Raised) => Message::PlanterRaised,
        Source::Lift(LiftState::Lowered) => Message::PlanterLowered,
        Source::Speed(GroundSpeed::Gps(v)) => Message::GroundSpeed(v),
        Source::Speed(GroundSpeed::Unavailable) => Message::GroundSpeedLost,
    }
}

} // verus!
