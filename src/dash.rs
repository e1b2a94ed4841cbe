//! State and update rules of the planting dashboard.
use crate::io::{Cmd, Event};
use crate::monitor::{event_in_range, Monitor};
use crate::msg::Message;
use crate::util::SCALE;
use vstd::prelude::*;

verus! {

/// The dashboard's pages.
#[derive(Clone, Copy, Debug, PartialEq, Eq, Structural)]
pub enum Page {
    Dashboard,
    SoftIO,
}

/// A message the dashboard can apply: hopper numbers name one of its two
/// hoppers.
pub open spec fn message_in_range(m: Message) -> bool {
    match m {
        Message::ToggleAutoPrime(id, _) | Message::FillHopper(id) => id < 2,
        Message::IOEvent(e) => event_in_range(e),
        _ => true,
    }
}

/// The message for one wait on the rig's event channel: the event that came,
/// or a halt when the channel stayed silent for the whole wait.
pub fn io_message(received: Option<Event>) -> (r: Message)
    ensures
        r == (match received {
            Some(e) => Message::IOEvent(e),
            None => Message::Halt,
        }),
{
    match received {
        Some(e) => Message::IOEvent(e),
        None => Message::Halt,
    }
}

/// Potato planting dashboard.
#[derive(Clone, Copy, Debug)]
pub struct Dash {
    /// The monitored state of the rig.
    pub monitor: Monitor,
    pub page: Page,
    /// Seed spacing, in millionths of an inch.
    pub in_between_seed: u64,
}

impl Dash {
    /// A dashboard on its first page, at the default spacing of 10 in.
    pub fn new(monitor: Monitor) -> (r: Dash)
        ensures
            r.monitor == monitor,
            r.page == Page::Dashboard,
            r.in_between_seed == 10 * SCALE,
    {
        Dash { monitor, page: Page::Dashboard, in_between_seed: 10 * SCALE }
    }

    pub fn planter_raised(&self) -> (r: bool)
        ensures
            r == self.monitor.planter_raised,
    {
        self.monitor.planter_raised
    }

    pub fn auto_prime_on(&self, id: usize) -> (r: bool)
        requires
            id < 2,
        ensures
            r == self.monitor.auto_prime@[id as int],
    {
        self.monitor.auto_prime[id]
    }

    pub fn priming(&self, id: usize) -> (r: bool)
        requires
            id < 2,
        ensures
            r == self.monitor.priming@[id as int],
    {
        self.monitor.priming[id]
    }

    /// Row feet planted, in millionths.
    pub fn row_feet_planted(&self) -> (r: u64)
        ensures
            r == self.monitor.feet_planted,
    {
        self.monitor.feet_planted
    }

    /// Ground speed, in millionths of a mph.
    pub fn ground_speed_mph(&self) -> (r: u64)
        ensures
            r == self.monitor.ground_speed_mph,
    {
        self.monitor.ground_speed_mph
    }

    /// Seed-wheel speed, in millionths of a revolution per minute.
    pub fn seed_wheel_speed_rpm(&self) -> (r: u64)
        ensures
            r == self.monitor.seed_wheel_speed_rpm,
    {
        self.monitor.seed_wheel_speed_rpm
    }

    /// Applies a message; returns the command to send to the rig, if any.
    /// Filling a hopper toggles its priming and runs or stops its belt to
    /// match; halting stops the flow motor; the first two tabs select the
    /// pages; rig events update the monitor; a simulated command is passed on.
    pub fn update(&mut self, message: Message) -> (r: Option<Cmd>)
        requires
            message_in_range(message),
        ensures
            final(self).in_between_seed == old(self).in_between_seed,
            match message {
                Message::ToggleAutoPrime(id, v) => r.is_none() && final(self).page == old(self).page
                    && final(self).monitor.same_but_auto_prime(old(self).monitor)
                    && final(self).monitor.auto_prime@ == old(self).monitor.auto_prime@.update(
                    id as int,
                    v,
                ),
                Message::FillHopper(id) => {
                    let p = !old(self).monitor.priming@[id as int];
                    r == Some(Cmd::SeedBeltControl(id, p)) && final(self).page == old(self).page
                        && final(self).monitor.same_but_priming(old(self).monitor)
                        && final(self).monitor.priming@ == old(self).monitor.priming@.update(
                        id as int,
                        p,
                    )
                },
                Message::Halt => r == Some(Cmd::FlowHold) && final(self).page == old(self).page
                    && final(self).monitor.same_as(old(self).monitor),
                Message::TabSelected(i) => r.is_none() && final(self).monitor.same_as(
                    old(self).monitor,
                ) && final(self).page == (if i == 0 {
                    Page::Dashboard
                } else if i == 1 {
                    Page::SoftIO
                } else {
                    old(self).page
                }),
                Message::IOEvent(e) => r.is_none() && final(self).page == old(self).page
                    && old(self).monitor.applied(e, final(self).monitor),
                Message::SimulateCmd(cmd) => r == Some(cmd) && final(self).page == old(self).page
                    && final(self).monitor.same_as(old(self).monitor),
                Message::IncreaseSpacing | Message::DecreaseSpacing => r.is_none()
                    && final(self).page == old(self).page && final(self).monitor.same_as(
                    old(self).monitor,
                ),
            },
    {
        match message {
            Message::ToggleAutoPrime(id, v) => {
                self.monitor.auto_prime[id] = v;
                None
            },
            Message::FillHopper(id) => {
                let p = !self.monitor.priming[id];
                self.monitor.priming[id] = p;
                Some(self.monitor.enable_seed_belt(id, p))
            },
            Message::Halt => Some(self.monitor.halt()),
            Message::TabSelected(i) => {
                if i == 0 {
                    self.page = Page::Dashboard;
                } else if i == 1 {
                    self.page = Page::SoftIO;
                }
                None
            },
            Message::IOEvent(e) => {
                self.monitor.handle_event(e);
                None
            },
            Message::SimulateCmd(cmd) => Some(cmd),
            Message::IncreaseSpacing | Message::DecreaseSpacing => None,
        }
    }
}

} // verus!
