//! Ground speed from a GPS receiver: what each serial read leads to.
use crate::util::Speed;
use vstd::prelude::*;

verus! {

/// A ground-speed sample, in millionths of a mph.
#[derive(Clone, Copy, Debug, PartialEq, Eq, Structural)]
pub enum GroundSpeed {
    Unavailable,
    Gps(Speed),
}

/// Failed or timed-out reads in a row after which the reader gives up.
pub const GPS_MAX_FAILURES: u32 = 100;

/// Pause after a failed or timed-out read, in milliseconds.
pub const GPS_BACKOFF_MS: u64 = 100;

/// Outcome of one read from the receiver's serial port.
#[derive(Clone, Copy, Debug, PartialEq, Eq, Structural)]
pub enum ReadOutcome {
    /// A recommended-minimum sentence was read, with its speed over ground
    /// when the fix holds one.
    Fix(Option<Speed>),
    /// Bytes were read that held no recommended-minimum sentence.
    NoFix,
    /// The read timed out.
    TimedOut,
    /// The read failed otherwise. Like a timeout, it is retried after a
    /// pause and counts toward `GPS_MAX_FAILURES`.
    Failed,
}

/// What the reader does after a read.
#[derive(Clone, Copy, Debug, PartialEq, Eq, Structural)]
pub enum GpsAction {
    /// Send the sample downstream, then read again.
    Publish(GroundSpeed),
    /// Read again.
    Continue,
    /// Sleep for the given milliseconds, then read again.
    Backoff(u64),
    /// Stop reading and fail: the receiver is gone.
    GiveUp,
}

/// Retry and deduplication state of the GPS reader.
#[derive(Clone, Copy, Debug, PartialEq, Eq, Structural)]
pub struct GpsPoller {
    /// Failed or timed-out reads since the last read that returned data.
    pub failures: u32,
    /// Last speed published, if the fix has not been lost since; a repeat of
    /// it is not sent again.
    pub last_speed: Option<Speed>,
}

/// Next state and action after a failed or timed-out read.
pub open spec fn failure_step(p: GpsPoller) -> (GpsPoller, GpsAction) {
    if p.failures >= GPS_MAX_FAILURES {
        (p, GpsAction::GiveUp)
    } else {
        (GpsPoller { failures: (p.failures + 1) as u32, ..p }, GpsAction::Backoff(GPS_BACKOFF_MS))
    }
}

/// Next state and action after a read with outcome `o`.
pub open spec fn gps_step(p: GpsPoller, o: ReadOutcome) -> (GpsPoller, GpsAction) {
    match o {
        ReadOutcome::Fix(Some(s)) => if p.last_speed != Some(s) {
            (
                GpsPoller { failures: 0, last_speed: Some(s) },
                GpsAction::Publish(GroundSpeed::Gps(s)),
            )
        } else {
            (GpsPoller { failures: 0, ..p }, GpsAction::Continue)
        },
        ReadOutcome::Fix(None) => (
            GpsPoller { failures: 0, last_speed: None },
            GpsAction::Publish(GroundSpeed::Unavailable),
        ),
        ReadOutcome::NoFix => (GpsPoller { failures: 0, ..p }, GpsAction::Continue),
        ReadOutcome::TimedOut | ReadOutcome::Failed => failure_step(p),
    }
}

impl GpsPoller {
    /// A reader at start: a speed of 0, where the controller's speed starts,
    /// is taken as already known and is not sent.
    pub fn new() -> (r: GpsPoller)
        ensures
            r == (GpsPoller { failures: 0, last_speed: Some(0) }),
    {
        GpsPoller { failures: 0, last_speed: Some(0) }
    }

    /// Decides what follows a read. Failed and timed-out reads are retried
    /// with a fixed pause until more than `GPS_MAX_FAILURES` come in a row;
    /// any read that returns data resets that count. A lost fix is published
    /// and forgets the last speed, so the next speed is published whatever it
    /// is.
    pub fn on_read(&mut self, o: ReadOutcome) -> (r: GpsAction)
        ensures
            (*final(self), r) == gps_step(*old(self), o),
    {
        match o {
            ReadOutcome::Fix(Some(s)) => {
                self.failures = 0;
                let known = match self.last_speed {
                    Some(l) => l == s,
                    None => false,
                };
                if known {
                    GpsAction::Continue
                } else {
                    self.last_speed = Some(s);
                    GpsAction::Publish(GroundSpeed::Gps(s))
                }
            },
            ReadOutcome::Fix(None) => {
                self.failures = 0;
                self.last_speed = None;
                GpsAction::Publish(GroundSpeed::Unavailable)
            },
            ReadOutcome::NoFix => {
                self.failures = 0;
                GpsAction::Continue
            },
            ReadOutcome::TimedOut | ReadOutcome::Failed => {
                if self.failures >= GPS_MAX_FAILURES {
                    GpsAction::GiveUp
                } else {
                    self.failures = self.failures + 1;
                    GpsAction::Backoff(GPS_BACKOFF_MS)
                }
            },
        }
    }
}

} // verus!
