//! Encoder tachometer: tick decoding from two lines, and the windowed tick
//! counter that publishes ticks per second.
use vstd::prelude::*;

verus! {

/// Direction of one encoder tick, read from the data line.
#[derive(Clone, Copy, Debug, PartialEq, Eq, Structural)]
pub enum Direction {
    Forward,
    Backward,
}

/// The shift-register pattern that marks a tick. Each clock sample is shifted
/// in at bit 0; `fill` is forced on after every shift, and a tick is emitted
/// when the register equals `matched`.
#[derive(Clone, Copy, Debug, PartialEq, Eq, Structural)]
pub struct EncoderPattern {
    pub fill: u16,
    pub matched: u16,
}

impl EncoderPattern {
    /// The rig's encoder: one high clock sample followed by twelve low ones.
    pub fn standard() -> (r: EncoderPattern)
        ensures
            r == (EncoderPattern { fill: 0xe000, matched: 0xf000 }),
    {
        EncoderPattern { fill: 0xe000, matched: 0xf000 }
    }
}

/// Register value after shifting in one clock sample.
pub open spec fn shift_in(state: u16, clock: bool, fill: u16) -> u16 {
    (state << 1u16) | (if clock { 1u16 } else { 0u16 }) | fill
}

/// With the standard pattern a tick fires only on a low clock sample whose
/// register holds eleven low samples before it and a high one before those:
/// twelve low samples in a row after a high one. A high glitch inside the
/// run does not fire a tick; it starts the run again.
pub proof fn lemma_standard_tick_needs_low_run(state: u16, clock: bool)
    requires
        shift_in(state, clock, 0xe000) == 0xf000,
    ensures
        !clock,
        state & 0x0fff == 0x0800,
{
    let bit: u16 = if clock { 1 } else { 0 };
    assert(bit == 0 || bit == 1);
    assert(((state << 1u16) | bit | 0xe000u16) == 0xf000u16 && (bit == 0 || bit == 1) ==> bit == 0
        && state & 0x0fffu16 == 0x0800u16) by (bit_vector);
}

/// Tick decoder over the clock and data lines of a quadrature encoder.
#[derive(Clone, Copy, Debug, PartialEq, Eq, Structural)]
pub struct Encoder {
    pub pattern: EncoderPattern,
    pub state: u16,
}

impl Encoder {
    /// A decoder with an empty register.
    pub fn new(pattern: EncoderPattern) -> (r: Encoder)
        ensures
            r == (Encoder { pattern, state: 0 }),
    {
        Encoder { pattern, state: 0 }
    }

    /// Whether the sample `clock` completes the pattern.
    pub open spec fn fires(self, clock: bool) -> bool {
        shift_in(self.state, clock, self.pattern.fill) == self.pattern.matched
    }

    /// Feeds one pair of line samples. On a completed pattern the register is
    /// cleared and a tick is returned, forward when the data line is high.
    pub fn sample(&mut self, clock: bool, data: bool) -> (r: Option<Direction>)
        ensures
            final(self).pattern == old(self).pattern,
            old(self).fires(clock) ==> final(self).state == 0 && r == Some(
                if data { Direction::Forward } else { Direction::Backward },
            ),
            !old(self).fires(clock) ==> final(self).state == shift_in(
                old(self).state,
                clock,
                old(self).pattern.fill,
            ) && r.is_none(),
    {
        let bit: u16 = if clock { 1 } else { 0 };
        let next: u16 = (self.state << 1u16) | bit | self.pattern.fill;
        if next == self.pattern.matched {
            self.state = 0;
            Some(if data { Direction::Forward } else { Direction::Backward })
        } else {
            self.state = next;
            None
        }
    }
}

/// Abstract state of a tick window: ticks counted so far in the open window,
/// and the rate published at the last window boundary.
pub struct WindowView {
    pub pending: nat,
    pub published: nat,
}

/// Counts encoder ticks and publishes, once per window, the number counted
/// in it. Only the owner mutates it; readers see the published rate.
pub struct TickWindow {
    pending: u32,
    published: u32,
}

/// Window state after one tick; the count stops at the largest `u32`.
pub open spec fn after_tick(w: WindowView) -> WindowView {
    WindowView {
        pending: if w.pending < u32::MAX { w.pending + 1 } else { w.pending },
        published: w.published,
    }
}

/// Window state after `n` ticks.
pub open spec fn after_ticks(w: WindowView, n: nat) -> WindowView
    decreases n,
{
    if n == 0 {
        w
    } else {
        after_tick(after_ticks(w, (n - 1) as nat))
    }
}

/// Window state after a boundary: the count is published and restarts at 0.
pub open spec fn after_boundary(w: WindowView) -> WindowView {
    WindowView { pending: 0, published: w.pending }
}

/// Window state after `n` boundaries with no tick between them.
pub open spec fn after_boundaries(w: WindowView, n: nat) -> WindowView
    decreases n,
{
    if n == 0 {
        w
    } else {
        after_boundary(after_boundaries(w, (n - 1) as nat))
    }
}

impl View for TickWindow {
    type V = WindowView;

    closed spec fn view(&self) -> WindowView {
        WindowView { pending: self.pending as nat, published: self.published as nat }
    }
}

impl TickWindow {
    /// A window with nothing counted and nothing published.
    pub fn new() -> (r: TickWindow)
        ensures
            r@.pending == 0,
            r@.published == 0,
    {
        TickWindow { pending: 0, published: 0 }
    }

    /// Counts one tick in the open window.
    pub fn tick(&mut self)
        ensures
            final(self)@ == after_tick(old(self)@),
    {
        if self.pending < u32::MAX {
            self.pending = self.pending + 1;
        }
    }

    /// Closes the window: publishes its count, even when it is 0, and opens
    /// the next window empty. Returns the published rate.
    pub fn close_window(&mut self) -> (r: u32)
        ensures
            r == old(self)@.pending,
            final(self)@ == after_boundary(old(self)@),
    {
        self.published = self.pending;
        self.pending = 0;
        self.published
    }

    /// The rate published at the last boundary, in ticks per window.
    pub fn rate(&self) -> (r: u32)
        ensures
            r == self@.published,
    {
        self.published
    }

    /// Ticks counted so far in the open window.
    pub fn pending(&self) -> (r: u32)
        ensures
            r == self@.pending,
    {
        self.pending
    }
}

proof fn lemma_ticks_count(w: WindowView, n: nat)
    requires
        w.pending + n <= u32::MAX,
    ensures
        after_ticks(w, n).pending == w.pending + n,
        after_ticks(w, n).published == w.published,
    decreases n,
{
    if n > 0 {
        lemma_ticks_count(w, (n - 1) as nat);
    }
}

/// A window in which `t` ticks arrive publishes exactly `t` at its boundary,
/// and each of any number of following silent windows publishes 0.
pub proof fn lemma_window_publishes_count(w: WindowView, t: nat, silent: nat)
    requires
        w.pending == 0,
        t <= u32::MAX,
    ensures
        after_boundary(after_ticks(w, t)).published == t,
        silent > 0 ==> after_boundaries(after_boundary(after_ticks(w, t)), silent).published == 0,
{
    lemma_ticks_count(w, t);
    let closed = after_boundary(after_ticks(w, t));
    if silent > 0 {
        assert(after_boundaries(closed, (silent - 1) as nat).pending == 0) by {
            if silent > 1 {
                assert(after_boundaries(closed, (silent - 1) as nat) == after_boundary(
                    after_boundaries(closed, (silent - 2) as nat),
                ));
            }
        }
    }
}

} // verus!
