use popl::dash::{io_message, Dash, Page};
use popl::io::{simulated_echo, Cmd, Event, IoCfg, LiftSensor};
use popl::monitor::Monitor;
use popl::msg::Message;

fn monitor() -> Monitor {
    Monitor {
        ground_speed_mph: 3_300_000,
        seed_wheel_speed_rpm: 100_000_000,
        planter_raised: false,
        auto_prime: [true, true],
        priming: [false, false],
        feet_planted: 19_166_400_000,
    }
}

#[test]
fn io_cfg_default_pins() {
    let c = IoCfg::default();
    assert_eq!(c.seed_belt_pins, [4, 5]);
    assert_eq!(c.seed_wheel_speed_pin, 18);
    assert_eq!(c.lift_sensor, LiftSensor::Software);
    assert_eq!(LiftSensor::default(), LiftSensor::Software);
}

#[test]
fn simulated_rig_echoes_commands() {
    assert_eq!(simulated_echo(Cmd::SeedBeltControl(1, true)), Some(Event::HopperEmpty(1)));
    assert_eq!(simulated_echo(Cmd::SeedBeltControl(0, false)), Some(Event::HopperFull(0)));
    assert_eq!(simulated_echo(Cmd::RaisePlanter), Some(Event::PlanterRaised));
    assert_eq!(simulated_echo(Cmd::LowerPlanter), Some(Event::PlanterLowered));
    assert_eq!(simulated_echo(Cmd::FlowThrottle(-5)), None);
    assert_eq!(simulated_echo(Cmd::FlowHold), None);
}

#[test]
fn monitor_applies_events() {
    let mut m = monitor();
    m.handle_event(Event::PlanterRaised);
    assert!(m.planter_raised);
    m.handle_event(Event::PlanterLowered);
    assert!(!m.planter_raised);
    m.handle_event(Event::GroundSpeed(7));
    assert_eq!(m.ground_speed_mph, 7);
    m.handle_event(Event::SeedWheelSpeed(9));
    assert_eq!(m.seed_wheel_speed_rpm, 9);
    m.handle_event(Event::HopperEmpty(1));
    assert_eq!(m.priming, [false, true]);
    m.handle_event(Event::HopperFull(1));
    assert_eq!(m.priming, [false, false]);
    m.handle_event(Event::SeedWheelTick);
    assert_eq!(m.feet_planted, 19_166_400_000);
    assert_eq!(m.enable_seed_belt(1, true), Cmd::SeedBeltControl(1, true));
    assert_eq!(m.halt(), Cmd::FlowHold);
}

#[test]
fn dash_starts_on_dashboard() {
    let d = Dash::new(monitor());
    assert_eq!(d.page, Page::Dashboard);
    assert_eq!(d.in_between_seed, 10_000_000);
    assert!(!d.planter_raised());
    assert!(d.auto_prime_on(0));
    assert!(!d.priming(1));
    assert_eq!(d.row_feet_planted(), 19_166_400_000);
    assert_eq!(d.ground_speed_mph(), 3_300_000);
    assert_eq!(d.seed_wheel_speed_rpm(), 100_000_000);
}

#[test]
fn dash_update_rules() {
    let mut d = Dash::new(monitor());
    assert_eq!(d.update(Message::ToggleAutoPrime(1, false)), None);
    assert!(!d.auto_prime_on(1));
    assert_eq!(d.update(Message::FillHopper(0)), Some(Cmd::SeedBeltControl(0, true)));
    assert!(d.priming(0));
    assert_eq!(d.update(Message::FillHopper(0)), Some(Cmd::SeedBeltControl(0, false)));
    assert!(!d.priming(0));
    assert_eq!(d.update(Message::Halt), Some(Cmd::FlowHold));
    assert_eq!(d.update(Message::TabSelected(1)), None);
    assert_eq!(d.page, Page::SoftIO);
    d.update(Message::TabSelected(5));
    assert_eq!(d.page, Page::SoftIO);
    d.update(Message::TabSelected(0));
    assert_eq!(d.page, Page::Dashboard);
    assert_eq!(d.update(Message::IOEvent(Event::PlanterRaised)), None);
    assert!(d.planter_raised());
    assert_eq!(d.update(Message::SimulateCmd(Cmd::LowerPlanter)), Some(Cmd::LowerPlanter));
    assert_eq!(d.update(Message::IncreaseSpacing), None);
    assert_eq!(d.update(Message::DecreaseSpacing), None);
}

#[test]
fn silent_rig_halts() {
    assert_eq!(io_message(None), Message::Halt);
    assert_eq!(
        io_message(Some(Event::HopperFull(0))),
        Message::IOEvent(Event::HopperFull(0))
    );
}

#[test]
fn hopper_full_ends_priming_among_other_events() {
    let mut m = monitor();
    m.priming = [true, true];
    for e in [
        Event::GroundSpeed(1),
        Event::HopperEmpty(0),
        Event::HopperFull(1),
        Event::PlanterRaised,
        Event::SeedWheelTick,
        Event::HopperFull(0),
    ] {
        m.handle_event(e);
    }
    assert_eq!(m.priming, [false, false]);
}
