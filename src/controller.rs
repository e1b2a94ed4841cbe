//! The flow controller: a relay (bang-bang) loop that pulses the metering
//! motor toward the tick rate that ground speed and seed spacing call for,
//! and drives the hopper relays and the lift interlock from the aggregated
//! message stream.
use crate::aggregator::Message;
use crate::util::{
    div_round,
    fps_to_sps,
    fps_to_sps_spec,
    mph_to_fps,
    mph_to_fps_spec,
    round_div,
    saturate,
    saturate_u64,
    wide_mul,
    Speed,
    TickRate,
    REVOLUTION_PICKS,
    REVOLUTION_TICKS,
    SCALE,
};
use vstd::prelude::*;

verus! {

/// Number of hoppers, and of fill relays.
pub const HOPPERS: usize = 2;

/// A throttle set-point; duties are millionths of full throttle.
#[derive(Clone, Copy, Debug, PartialEq, Eq, Structural)]
pub enum ThrottleCommand {
    Forward(u64),
    Reverse(u64),
    Hold,
}

impl ThrottleCommand {
    /// The set-point as the actuator takes it: millionths of full throttle,
    /// negative in reverse.
    pub fn signed_duty(self) -> (r: i64)
        requires
            match self {
                ThrottleCommand::Forward(d) | ThrottleCommand::Reverse(d) => d <= SCALE,
                ThrottleCommand::Hold => true,
            },
        ensures
            r == match self {
                ThrottleCommand::Forward(d) => d as int,
                ThrottleCommand::Reverse(d) => -d,
                ThrottleCommand::Hold => 0,
            },
    {
        match self {
            ThrottleCommand::Forward(d) => d as i64,
            ThrottleCommand::Reverse(d) => -(d as i64),
            ThrottleCommand::Hold => 0,
        }
    }
}

/// What one control period decides.
#[derive(Clone, Copy, Debug, PartialEq, Eq, Structural)]
pub enum Correction {
    Increase,
    Decrease,
    Hold,
}

/// An actuator step for the event loop to perform, in order.
#[derive(Clone, Copy, Debug, PartialEq, Eq, Structural)]
pub enum Action {
    /// Apply a throttle set-point.
    Throttle(ThrottleCommand),
    /// Keep the current set-point for the given milliseconds.
    Pause(u64),
    /// Drive fill relay `i`: `true` marks the hopper full and stops its fill.
    SetRelay(usize, bool),
}

/// What the controller does with its speed when the provider reports none.
#[derive(Clone, Copy, Debug, PartialEq, Eq, Structural)]
pub enum SpeedLossPolicy {
    /// Keep the last known speed, and so the last target.
    HoldLast,
    /// Take the speed as 0.
    Zero,
}

/// Session-wide settings of the flow controller.
#[derive(Clone, Copy, Debug, PartialEq, Eq, Structural)]
pub struct FlowConfig {
    /// Seed spacing, in millionths of an inch.
    pub spacing: u64,
    /// Throttle duty of a correction pulse, in millionths.
    pub pulse_rate: u64,
    /// Length of a correction pulse, in milliseconds.
    pub pulse_ms: u64,
    /// Control period, in milliseconds.
    pub period_ms: u64,
    /// Debounce interval of the switch lines, in milliseconds.
    pub debounce_ms: u64,
    /// Whether the tick rate is corrected automatically.
    pub auto_correct: bool,
    /// What a lost ground speed means.
    pub on_speed_loss: SpeedLossPolicy,
}

impl FlowConfig {
    /// The spacing is positive and the pulse duty at most full throttle.
    pub open spec fn wf(self) -> bool {
        self.spacing > 0 && self.pulse_rate <= SCALE
    }
}

impl Default for FlowConfig {
    /// Spacing 10 in, full-throttle pulses of 50 ms, a 50 ms period and
    /// debounce, automatic correction on, last speed kept when it is lost.
    fn default() -> (r: FlowConfig)
        ensures
            r == (FlowConfig {
                spacing: 10_000_000,
                pulse_rate: SCALE,
                pulse_ms: 50,
                period_ms: 50,
                debounce_ms: 50,
                auto_correct: true,
                on_speed_loss: SpeedLossPolicy::HoldLast,
            }),
    {
        FlowConfig {
            spacing: 10 * SCALE,
            pulse_rate: SCALE,
            pulse_ms: 50,
            period_ms: 50,
            debounce_ms: 50,
            auto_correct: true,
            on_speed_loss: SpeedLossPolicy::HoldLast,
        }
    }
}

/// Target tick rate, in millionths of a tick per second, for a ground speed
/// in millionths of a mph and a spacing in millionths of an inch.
pub open spec fn target_spec(speed: int, spacing: int) -> int {
    saturate(
        div_round(
            fps_to_sps_spec(mph_to_fps_spec(speed), spacing) * REVOLUTION_TICKS,
            REVOLUTION_PICKS as int,
        ),
    )
}

/// The correction for a measured rate (whole ticks per second) against a
/// target (millionths of a tick per second).
pub open spec fn correction_spec(measured: int, target: int) -> Correction {
    if measured * SCALE < target {
        Correction::Increase
    } else if measured * SCALE > target {
        Correction::Decrease
    } else {
        Correction::Hold
    }
}

/// The actuator steps that carry out a correction.
pub open spec fn pulse_plan_spec(c: Correction, cfg: FlowConfig) -> Seq<Action> {
    match c {
        Correction::Increase => seq![
            Action::Throttle(ThrottleCommand::Forward(cfg.pulse_rate)),
            Action::Pause(cfg.pulse_ms),
            Action::Throttle(ThrottleCommand::Hold),
        ],
        Correction::Decrease => seq![
            Action::Throttle(ThrottleCommand::Reverse(cfg.pulse_rate)),
            Action::Pause(cfg.pulse_ms),
            Action::Throttle(ThrottleCommand::Hold),
        ],
        Correction::Hold => seq![Action::Throttle(ThrottleCommand::Hold)],
    }
}

/// The target tick rate: seeds per second at this ground speed and spacing,
/// times the ticks per pick.
pub fn control_target(speed: Speed, spacing: u64) -> (r: u64)
    requires
        spacing > 0,
    ensures
        r == target_spec(speed as int, spacing as int),
{
    let sps = fps_to_sps(mph_to_fps(speed), spacing);
    saturate_u64(round_div(wide_mul(sps, REVOLUTION_TICKS), REVOLUTION_PICKS as u128))
}

/// Compares a measured tick rate with the target.
pub fn decide(measured: TickRate, target: u64) -> (r: Correction)
    ensures
        r == correction_spec(measured as int, target as int),
{
    let m = measured as u64 * SCALE;
    if m < target {
        Correction::Increase
    } else if m > target {
        Correction::Decrease
    } else {
        Correction::Hold
    }
}

/// The actuator steps of a correction: a pulse at the configured duty and
/// length followed by a hold, or a hold alone.
pub fn pulse_plan(c: Correction, cfg: &FlowConfig) -> (r: Vec<Action>)
    ensures
        r@ == pulse_plan_spec(c, *cfg),
{
    let mut r: Vec<Action> = Vec::new();
    match c {
        Correction::Increase => {
            r.push(Action::Throttle(ThrottleCommand::Forward(cfg.pulse_rate)));
            r.push(Action::Pause(cfg.pulse_ms));
        },
        Correction::Decrease => {
            r.push(Action::Throttle(ThrottleCommand::Reverse(cfg.pulse_rate)));
            r.push(Action::Pause(cfg.pulse_ms));
        },
        Correction::Hold => {},
    }
    r.push(Action::Throttle(ThrottleCommand::Hold));
    proof {
        assert(r@ =~= pulse_plan_spec(c, *cfg));
    }
    r
}

/// Abstract state of the controller.
pub struct ControllerView {
    pub config: FlowConfig,
    /// Latest ground speed, in millionths of a mph.
    pub ground_speed: Speed,
    /// Whether the planter is lowered; correction runs only then.
    pub lowered: bool,
    /// Fill relays; `true` marks a full hopper.
    pub relays: Seq<bool>,
}

impl ControllerView {
    /// Valid settings, and one relay per hopper.
    pub open spec fn wf(self) -> bool {
        self.config.wf() && self.relays.len() == HOPPERS
    }
}

/// State and relay step after message `m`.
pub open spec fn handle_spec(v: ControllerView, m: Message) -> (ControllerView, Option<Action>) {
    match m {
        Message::GroundSpeed(s) => (ControllerView { ground_speed: s, ..v }, None),
        Message::GroundSpeedLost => match v.config.on_speed_loss {
            SpeedLossPolicy::HoldLast => (v, None),
            SpeedLossPolicy::Zero => (ControllerView { ground_speed: 0, ..v }, None),
        },
        Message::HopperFull(i) => if i < v.relays.len() {
            (
                ControllerView { relays: v.relays.update(i as int, true), ..v },
                Some(Action::SetRelay(i, true)),
            )
        } else {
            (v, None)
        },
        Message::HopperEmpty(i) => if i < v.relays.len() {
            (
                ControllerView { relays: v.relays.update(i as int, false), ..v },
                Some(Action::SetRelay(i, false)),
            )
        } else {
            (v, None)
        },
        Message::PlanterRaised => (ControllerView { lowered: false, ..v }, None),
        Message::PlanterLowered => (ControllerView { lowered: true, ..v }, None),
    }
}

/// Actuator steps of one control period at a measured tick rate.
pub open spec fn period_spec(v: ControllerView, measured: int) -> Seq<Action> {
    if v.config.auto_correct && v.lowered {
        pulse_plan_spec(
            correction_spec(measured, target_spec(v.ground_speed as int, v.config.spacing as int)),
            v.config,
        )
    } else {
        seq![]
    }
}

/// State and relay steps after the messages `msgs`, in order.
pub open spec fn run(v: ControllerView, msgs: Seq<Message>) -> (ControllerView, Seq<Option<Action>>)
    decreases msgs.len(),
{
    if msgs.len() == 0 {
        (v, seq![])
    } else {
        let (v1, acts) = run(v, msgs.drop_last());
        let (v2, a) = handle_spec(v1, msgs.last());
        (v2, acts.push(a))
    }
}

/// How many of `msgs` equal `m`.
pub open spec fn count_msg(msgs: Seq<Message>, m: Message) -> nat
    decreases msgs.len(),
{
    if msgs.len() == 0 {
        0
    } else {
        count_msg(msgs.drop_last(), m) + if msgs.last() == m { 1nat } else { 0nat }
    }
}

/// How many of `acts` are `Some(a)`.
pub open spec fn count_action(acts: Seq<Option<Action>>, a: Action) -> nat
    decreases acts.len(),
{
    if acts.len() == 0 {
        0
    } else {
        count_action(acts.drop_last(), a) + if acts.last() == Some(a) { 1nat } else { 0nat }
    }
}

/// The control-loop state: the session settings, the latest ground speed,
/// the lift interlock and the fill relays.
pub struct Controller {
    config: FlowConfig,
    ground_speed: Speed,
    lowered: bool,
    relays: Vec<bool>,
}

impl View for Controller {
    type V = ControllerView;

    closed spec fn view(&self) -> ControllerView {
        ControllerView {
            config: self.config,
            ground_speed: self.ground_speed,
            lowered: self.lowered,
            relays: self.relays@,
        }
    }
}

impl Controller {
    /// A controller at speed 0 with every hopper marked empty; `lowered` is
    /// the lift switch as read at start.
    pub fn new(config: FlowConfig, lowered: bool) -> (r: Controller)
        requires
            config.wf(),
        ensures
            r@.wf(),
            r@.config == config,
            r@.ground_speed == 0,
            r@.lowered == lowered,
            r@.relays == Seq::new(HOPPERS as nat, |i: int| false),
    {
        let mut relays: Vec<bool> = Vec::new();
        let mut k: usize = 0;
        while k < HOPPERS
            invariant
                k <= HOPPERS,
                relays@ == Seq::new(k as nat, |i: int| false),
            decreases HOPPERS - k,
        {
            relays.push(false);
            k = k + 1;
            proof {
                assert(relays@ =~= Seq::new(k as nat, |i: int| false));
            }
        }
        Controller { config, ground_speed: 0, lowered, relays }
    }

    /// Applies one aggregated message: a speed sample updates the speed, a
    /// hopper event drives its relay (returned as the step to perform), a
    /// lift event sets the interlock.
    pub fn handle(&mut self, m: Message) -> (r: Option<Action>)
        ensures
            (final(self)@, r) == handle_spec(old(self)@, m),
    {
        match m {
            Message::GroundSpeed(s) => {
                self.ground_speed = s;
                None
            },
            Message::GroundSpeedLost => {
                match self.config.on_speed_loss {
                    SpeedLossPolicy::HoldLast => {},
                    SpeedLossPolicy::Zero => {
                        self.ground_speed = 0;
                    },
                }
                None
            },
            Message::HopperFull(i) => {
                if i < self.relays.len() {
                    self.relays.set(i, true);
                    Some(Action::SetRelay(i, true))
                } else {
                    None
                }
            },
            Message::HopperEmpty(i) => {
                if i < self.relays.len() {
                    self.relays.set(i, false);
                    Some(Action::SetRelay(i, false))
                } else {
                    None
                }
            },
            Message::PlanterRaised => {
                self.lowered = false;
                None
            },
            Message::PlanterLowered => {
                self.lowered = true;
                None
            },
        }
    }

    /// Target tick rate for the current speed, in millionths of a tick per
    /// second.
    pub fn target_tps(&self) -> (r: u64)
        requires
            self@.wf(),
        ensures
            r == target_spec(self@.ground_speed as int, self@.config.spacing as int),
    {
        control_target(self.ground_speed, self.config.spacing)
    }

    /// The actuator steps of one control period: nothing while correction
    /// is off or the planter is raised, otherwise the correction toward the
    /// target.
    pub fn on_period(&self, measured: TickRate) -> (r: Vec<Action>)
        requires
            self@.wf(),
        ensures
            r@ == period_spec(self@, measured as int),
    {
        if self.config.auto_correct && self.lowered {
            let c = decide(measured, self.target_tps());
            pulse_plan(c, &self.config)
        } else {
            let r: Vec<Action> = Vec::new();
            proof {
                assert(r@ =~= seq![]);
            }
            r
        }
    }

    /// The session settings.
    pub fn config(&self) -> (r: FlowConfig)
        ensures
            r == self@.config,
    {
        self.config
    }

    /// The latest ground speed, in millionths of a mph.
    pub fn ground_speed(&self) -> (r: Speed)
        ensures
            r == self@.ground_speed,
    {
        self.ground_speed
    }

    /// Whether the planter is lowered.
    pub fn lowered(&self) -> (r: bool)
        ensures
            r == self@.lowered,
    {
        self.lowered
    }

    /// Whether relay `i` marks its hopper full.
    pub fn relay_full(&self, i: usize) -> (r: bool)
        requires
            i < self@.relays.len(),
        ensures
            r == self@.relays[i as int],
    {
        self.relays[i]
    }
}

/// Relay steps follow hopper messages one for one, the relay count stays, and
/// a relay is full once a full message for it came with no empty one.
proof fn lemma_relay_steps(v: ControllerView, msgs: Seq<Message>, i: usize)
    requires
        i < v.relays.len(),
    ensures
        run(v, msgs).0.relays.len() == v.relays.len(),
        run(v, msgs).0.config == v.config,
        count_action(run(v, msgs).1, Action::SetRelay(i, true)) == count_msg(
            msgs,
            Message::HopperFull(i),
        ),
        count_action(run(v, msgs).1, Action::SetRelay(i, false)) == count_msg(
            msgs,
            Message::HopperEmpty(i),
        ),
        count_msg(msgs, Message::HopperFull(i)) >= 1 && count_msg(msgs, Message::HopperEmpty(i))
            == 0 ==> run(v, msgs).0.relays[i as int],
    decreases msgs.len(),
{
    if msgs.len() > 0 {
        let prefix = msgs.drop_last();
        lemma_relay_steps(v, prefix, i);
        let (v1, acts) = run(v, prefix);
        assert(acts.push(handle_spec(v1, msgs.last()).1).drop_last() =~= acts);
    }
}

/// Once aggregated, a single full message for hopper `i` sets relay `i` to
/// full exactly once, whatever other messages come with it, and the relay is
/// full after them all; provided no empty message for that hopper comes too.
pub proof fn lemma_hopper_full_sets_relay_once(v: ControllerView, msgs: Seq<Message>, i: usize)
    requires
        v.wf(),
        i < HOPPERS,
        count_msg(msgs, Message::HopperFull(i)) == 1,
        count_msg(msgs, Message::HopperEmpty(i)) == 0,
    ensures
        count_action(run(v, msgs).1, Action::SetRelay(i, true)) == 1,
        count_action(run(v, msgs).1, Action::SetRelay(i, false)) == 0,
        run(v, msgs).0.relays[i as int],
{
    lemma_relay_steps(v, msgs, i);
}

/// While the planter is raised, only a lowered message lowers it: messages
/// that hold none leave the flag unset, and a lowered message sets it.
pub proof fn lemma_only_lowered_event_lowers(v: ControllerView, msgs: Seq<Message>)
    requires
        !v.lowered,
    ensures
        (forall|k: int| 0 <= k < msgs.len() ==> #[trigger] msgs[k] != Message::PlanterLowered)
            ==> !run(v, msgs).0.lowered,
        handle_spec(v, Message::PlanterLowered).0.lowered,
    decreases msgs.len(),
{
    if msgs.len() > 0 {
        let prefix = msgs.drop_last();
        lemma_only_lowered_event_lowers(v, prefix);
        if forall|k: int| 0 <= k < msgs.len() ==> #[trigger] msgs[k] != Message::PlanterLowered {
            assert forall|k: int| 0 <= k < prefix.len() implies #[trigger] prefix[k]
                != Message::PlanterLowered by {
                assert(prefix[k] == msgs[k]);
            }
            assert(msgs[msgs.len() - 1] != Message::PlanterLowered);
        }
    }
}

} // verus!
