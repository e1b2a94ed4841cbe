//! Debounced reading of one digital line.
//!
//! Polled and interrupt-driven readers both feed their samples through
//! `Debouncer::sample`, so they share one debounce predicate.
use vstd::prelude::*;

verus! {

/// Debounce state of one switch line. Times are milliseconds of a monotonic
/// clock.
#[derive(Clone, Copy, Debug, PartialEq, Eq, Structural)]
pub struct Debouncer {
    /// Minimum time between two accepted transitions.
    pub interval_ms: u64,
    /// Time of the last accepted transition, if any.
    pub last_accepted: Option<u64>,
    /// Level last emitted, if any.
    pub level: Option<bool>,
}

impl Debouncer {
    /// Whether a sample of `level` at time `now` is emitted: the level differs
    /// from the last one emitted, and the debounce interval has passed since
    /// the last accepted transition.
    pub open spec fn accepts(self, now: u64, level: bool) -> bool {
        self.level != Some(level) && match self.last_accepted {
            None => true,
            Some(t) => now >= t + self.interval_ms,
        }
    }

    /// State after a sample of `level` at time `now`.
    pub open spec fn step(self, now: u64, level: bool) -> Debouncer {
        if self.accepts(now, level) {
            Debouncer { last_accepted: Some(now), level: Some(level), ..self }
        } else {
            self
        }
    }

    /// How many of the samples `s`, fed in order, are emitted.
    pub open spec fn emitted_count(self, s: Seq<(u64, bool)>) -> nat
        decreases s.len(),
    {
        if s.len() == 0 {
            0
        } else {
            (if self.accepts(s[0].0, s[0].1) { 1nat } else { 0nat })
                + self.step(s[0].0, s[0].1).emitted_count(s.drop_first())
        }
    }

    /// A debouncer that has seen nothing yet: its first sample is emitted.
    pub fn new(interval_ms: u64) -> (r: Debouncer)
        ensures
            r == (Debouncer { interval_ms, last_accepted: None, level: None }),
    {
        Debouncer { interval_ms, last_accepted: None, level: None }
    }

    /// Feeds one sample of the line; returns the new logical level when the
    /// sample is accepted as a transition, `None` when it is suppressed.
    pub fn sample(&mut self, now: u64, level: bool) -> (r: Option<bool>)
        ensures
            r == (if old(self).accepts(now, level) { Some(level) } else { None }),
            *final(self) == old(self).step(now, level),
    {
        let changed = match self.level {
            None => true,
            Some(l) => l != level,
        };
        let elapsed = match self.last_accepted {
            None => true,
            Some(t) => now >= t && now - t >= self.interval_ms,
        };
        if changed && elapsed {
            self.last_accepted = Some(now);
            self.level = Some(level);
            Some(level)
        } else {
            None
        }
    }
}

/// Once a sample at `a` was accepted, no sample before `a + interval` is.
proof fn lemma_quiet_after_accept(d: Debouncer, a: u64, s: Seq<(u64, bool)>)
    requires
        d.last_accepted == Some(a),
        forall|k: int| 0 <= k < s.len() ==> #[trigger] s[k].0 < a + d.interval_ms,
    ensures
        d.emitted_count(s) == 0,
    decreases s.len(),
{
    if s.len() > 0 {
        assert forall|k: int| 0 <= k < s.drop_first().len() implies #[trigger] s.drop_first()[k].0
            < a + d.interval_ms by {
            assert(s.drop_first()[k] == s[k + 1]);
        }
        lemma_quiet_after_accept(d, a, s.drop_first());
    }
}

/// Samples that all fall within one debounce interval, starting at `t`,
/// give at most one emitted transition.
pub proof fn lemma_close_samples_collapse(d: Debouncer, t: u64, s: Seq<(u64, bool)>)
    requires
        forall|k: int| 0 <= k < s.len() ==> t <= #[trigger] s[k].0 < t + d.interval_ms,
    ensures
        d.emitted_count(s) <= 1,
    decreases s.len(),
{
    if s.len() > 0 {
        let rest = s.drop_first();
        assert forall|k: int| 0 <= k < rest.len() implies t <= #[trigger] rest[k].0 < t + d.interval_ms by {
            assert(rest[k] == s[k + 1]);
        }
        if d.accepts(s[0].0, s[0].1) {
            lemma_quiet_after_accept(d.step(s[0].0, s[0].1), s[0].0, rest);
        } else {
            lemma_close_samples_collapse(d, t, rest);
        }
    }
}

/// Level changes spaced at least one debounce interval apart are each
/// emitted. The first one changes the level last emitted, and comes at least
/// one interval after the last accepted transition, if there was one.
pub proof fn lemma_spaced_transitions_emit(d: Debouncer, s: Seq<(u64, bool)>)
    requires
        s.len() > 0 ==> d.level != Some(s[0].1),
        s.len() > 0 ==> match d.last_accepted {
            None => true,
            Some(t) => s[0].0 >= t + d.interval_ms,
        },
        forall|k: int|
            0 < k < s.len() ==> (#[trigger] s[k]).1 != s[k - 1].1 && s[k].0 >= s[k - 1].0
                + d.interval_ms,
    ensures
        d.emitted_count(s) == s.len(),
    decreases s.len(),
{
    if s.len() > 0 {
        let rest = s.drop_first();
        let d2 = d.step(s[0].0, s[0].1);
        assert forall|k: int| 0 < k < rest.len() implies (#[trigger] rest[k]).1 != rest[k - 1].1
            && rest[k].0 >= rest[k - 1].0 + d2.interval_ms by {
            assert(rest[k] == s[k + 1]);
            assert(rest[k - 1] == s[k]);
        }
        if rest.len() > 0 {
            assert(rest[0] == s[1]);
            assert(0 < 1 < s.len());
            assert(s[1].1 != s[0].1 && s[1].0 >= s[0].0 + d.interval_ms);
            assert(d2.accepts(rest[0].0, rest[0].1));
        }
        lemma_spaced_transitions_emit(d2, rest);
    }
}

} // verus!
