//! The dashboard's picture of the rig, kept current from input events.
use crate::io::{Cmd, Event};
use crate::util::Speed;
use vstd::prelude::*;

verus! {

/// What the dashboard shows of the rig. Rates are in millionths.
#[derive(Clone, Copy, Debug)]
pub struct Monitor {
    pub ground_speed_mph: Speed,
    pub seed_wheel_speed_rpm: u64,
    pub planter_raised: bool,
    pub auto_prime: [bool; 2],
    pub priming: [bool; 2],
    pub feet_planted: u64,
}

/// An event the monitor can apply: hopper events name one of its two
/// hoppers.
pub open spec fn event_in_range(e: Event) -> bool {
    match e {
        Event::HopperEmpty(n) | Event::HopperFull(n) => n < 2,
        _ => true,
    }
}

impl Monitor {
    /// Every field but `priming` is the same in `self` and `o`.
    pub open spec fn same_but_priming(self, o: Monitor) -> bool {
        self.ground_speed_mph == o.ground_speed_mph
            && self.seed_wheel_speed_rpm == o.seed_wheel_speed_rpm
            && self.planter_raised == o.planter_raised && self.auto_prime@ == o.auto_prime@
            && self.feet_planted == o.feet_planted
    }

    /// Every field but `auto_prime` is the same in `self` and `o`.
    pub open spec fn same_but_auto_prime(self, o: Monitor) -> bool {
        self.ground_speed_mph == o.ground_speed_mph
            && self.seed_wheel_speed_rpm == o.seed_wheel_speed_rpm
            && self.planter_raised == o.planter_raised && self.priming@ == o.priming@
            && self.feet_planted == o.feet_planted
    }

    /// Every field is the same in `self` and `o`.
    pub open spec fn same_as(self, o: Monitor) -> bool {
        self.same_but_priming(o) && self.priming@ == o.priming@
    }

    /// Whether `o` is this state after event `e`.
    pub open spec fn applied(self, e: Event, o: Monitor) -> bool {
        match e {
            Event::SeedWheelTick => o.same_as(self),
            Event::PlanterRaised => o.same_as(Monitor { planter_raised: true, ..self }),
            Event::PlanterLowered => o.same_as(Monitor { planter_raised: false, ..self }),
            Event::GroundSpeed(mph) => o.same_as(Monitor { ground_speed_mph: mph, ..self }),
            Event::SeedWheelSpeed(rpm) => o.same_as(Monitor { seed_wheel_speed_rpm: rpm, ..self }),
            Event::HopperEmpty(n) => o.same_but_priming(self) && o.priming@ == self.priming@.update(
                n as int,
                true,
            ),
            Event::HopperFull(n) => o.same_but_priming(self) && o.priming@ == self.priming@.update(
                n as int,
                false,
            ),
        }
    }

    /// The command that runs or stops the seed belt of hopper `id`.
    pub fn enable_seed_belt(&self, id: usize, en: bool) -> (r: Cmd)
        ensures
            r == Cmd::SeedBeltControl(id, en),
    {
        Cmd::SeedBeltControl(id, en)
    }

    /// The command that stops the flow motor.
    pub fn halt(&self) -> (r: Cmd)
        ensures
            r == Cmd::FlowHold,
    {
        Cmd::FlowHold
    }

    /// Applies an input event: lift events set the raised flag, speed events
    /// the shown speeds, and an empty (full) hopper starts (ends) priming.
    pub fn handle_event(&mut self, e: Event)
        requires
            event_in_range(e),
        ensures
            old(self).applied(e, *final(self)),
    {
        match e {
            Event::SeedWheelTick => {},
            Event::PlanterRaised => self.planter_raised = true,
            Event::PlanterLowered => self.planter_raised = false,
            Event::GroundSpeed(mph) => self.ground_speed_mph = mph,
            Event::HopperEmpty(n) => self.priming[n] = true,
            Event::HopperFull(n) => self.priming[n] = false,
            Event::SeedWheelSpeed(rpm) => self.seed_wheel_speed_rpm = rpm,
        }
    }
}

/// How many of `es` equal `e`.
pub open spec fn count_event(es: Seq<Event>, e: Event) -> nat
    decreases es.len(),
{
    if es.len() == 0 {
        0
    } else {
        count_event(es.drop_last(), e) + if es.last() == e { 1nat } else { 0nat }
    }
}

/// `ms` are the states that applying the events `es` in turn passes
/// through, from `ms[0]` to `ms.last()`; every event is one that
/// `handle_event` takes.
pub open spec fn applied_in_turn(ms: Seq<Monitor>, es: Seq<Event>) -> bool
    decreases es.len(),
{
    ms.len() == es.len() + 1 && (es.len() > 0 ==> applied_in_turn(ms.drop_last(), es.drop_last())
        && event_in_range(es.last()) && ms[es.len() - 1].applied(es.last(), ms.last()))
}

/// A full event for hopper `n` ends its priming, whatever other events come
/// before or after it, provided no empty event for that hopper comes too.
pub proof fn lemma_hopper_full_ends_priming(ms: Seq<Monitor>, es: Seq<Event>, n: usize)
    requires
        n < 2,
        applied_in_turn(ms, es),
        count_event(es, Event::HopperFull(n)) >= 1,
        count_event(es, Event::HopperEmpty(n)) == 0,
    ensures
        !ms.last().priming@[n as int],
    decreases es.len(),
{
    let k = es.len() - 1;
    let prefix = es.drop_last();
    let before = ms.drop_last();
    assert(count_event(prefix, Event::HopperEmpty(n)) == 0);
    assert(es.last() == es[k]);
    assert(es[k] != Event::HopperEmpty(n));
    assert(ms.last() == ms[k + 1]);
    if es[k] == Event::HopperFull(n) {
        assert(ms[k + 1].priming@ == ms[k].priming@.update(n as int, false));
    } else {
        assert(count_event(prefix, Event::HopperFull(n)) >= 1);
        lemma_hopper_full_ends_priming(before, prefix, n);
        assert(before.last() == ms[k]);
        match es[k] {
            Event::HopperEmpty(m) => {
                assert(ms[k + 1].priming@ == ms[k].priming@.update(m as int, true));
            },
            Event::HopperFull(m) => {
                assert(ms[k + 1].priming@ == ms[k].priming@.update(m as int, false));
            },
            _ => {
                assert(ms[k + 1].priming@ == ms[k].priming@);
            },
        }
    }
}

} // verus!
