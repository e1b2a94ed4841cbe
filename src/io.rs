//! Commands to the rig's outputs and events from its inputs, and the rig's
//! pin configuration.
use crate::util::Speed;
use vstd::prelude::*;

verus! {

/// Where the planter's lift position comes from.
#[derive(Clone, Copy, Debug, PartialEq, Eq, Structural)]
pub enum LiftSensor {
    /// Set by hand from the dashboard.
    Software,
    /// A switch on the given pin.
    Hardware { pin: u8 },
}

impl Default for LiftSensor {
    fn default() -> (r: LiftSensor)
        ensures
            r == LiftSensor::Software,
    {
        LiftSensor::Software
    }
}

/// Pin assignment of the rig.
#[derive(Clone, Copy, Debug)]
pub struct IoCfg {
    pub seed_belt_pins: [u8; 2],
    pub seed_wheel_speed_pin: u8,
    pub lift_sensor: LiftSensor,
}

impl Default for IoCfg {
    /// Belts on pins 4 and 5, the seed-wheel sensor on pin 18, lift set by
    /// hand.
    fn default() -> (r: IoCfg)
        ensures
            r.seed_belt_pins@ == seq![4u8, 5u8],
            r.seed_wheel_speed_pin == 18,
            r.lift_sensor == LiftSensor::Software,
    {
        let r = IoCfg { seed_belt_pins: [4, 5], seed_wheel_speed_pin: 18, lift_sensor: LiftSensor::Software };
        assert(r.seed_belt_pins@ =~= seq![4u8, 5u8]);
        r
    }
}

/// A command to the rig's outputs.
#[derive(Clone, Copy, Debug, PartialEq, Eq, Structural)]
pub enum Cmd {
    /// Run (`true`) or stop the seed belt of a hopper.
    SeedBeltControl(usize, bool),
    /// Set the flow motor's throttle, in millionths; the sign is the
    /// direction.
    FlowThrottle(i64),
    /// Stop the flow motor.
    FlowHold,
    RaisePlanter,
    LowerPlanter,
}

/// An event from the rig's inputs.
#[derive(Clone, Copy, Debug, PartialEq, Eq, Structural)]
pub enum Event {
    SeedWheelTick,
    PlanterRaised,
    PlanterLowered,
    /// Ground speed, in millionths of a mph.
    GroundSpeed(Speed),
    /// Seed-wheel speed, in millionths of a revolution per minute.
    SeedWheelSpeed(u64),
    HopperEmpty(usize),
    HopperFull(usize),
}

/// The event with which a simulated rig answers a command.
pub open spec fn echo_spec(cmd: Cmd) -> Option<Event> {
    match cmd {
        Cmd::SeedBeltControl(id, true) => Some(Event::HopperEmpty(id)),
        Cmd::SeedBeltControl(id, false) => Some(Event::HopperFull(id)),
        Cmd::RaisePlanter => Some(Event::PlanterRaised),
        Cmd::LowerPlanter => Some(Event::PlanterLowered),
        Cmd::FlowThrottle(_) | Cmd::FlowHold => None,
    }
}

/// How a simulated rig answers a command: a running belt means its hopper
/// is being filled from empty, a stopped one that it is full; the lift
/// follows its commands; the flow motor reports nothing.
pub fn simulated_echo(cmd: Cmd) -> (r: Option<Event>)
    ensures
        r == echo_spec(cmd),
{
    match cmd {
        Cmd::SeedBeltControl(id, en) => Some(
            if en {
                Event::HopperEmpty(id)
            } else {
                Event::HopperFull(id)
            },
        ),
        Cmd::RaisePlanter => Some(Event::PlanterRaised),
        Cmd::LowerPlanter => Some(Event::PlanterLowered),
        Cmd::FlowThrottle(_) | Cmd::FlowHold => None,
    }
}

} // verus!
