//! Messages of the dashboard.
use crate::io::{Cmd, Event};
use vstd::prelude::*;

verus! {

/// What the dashboard reacts to: user input, and events from the rig.
#[derive(Clone, Copy, Debug, PartialEq, Eq, Structural)]
pub enum Message {
    Halt,
    IncreaseSpacing,
    DecreaseSpacing,
    ToggleAutoPrime(usize, bool),
    FillHopper(usize),
    TabSelected(usize),
    SimulateCmd(Cmd),
    IOEvent(Event),
}

} // verus!
