use popl::aggregator::{aggregate, HopperState, LiftState, Message, Source};
use popl::debounce::Debouncer;
use popl::gps::{GpsAction, GpsPoller, GroundSpeed, ReadOutcome, GPS_BACKOFF_MS, GPS_MAX_FAILURES};
use popl::tachometer::{Direction, Encoder, EncoderPattern, TickWindow};

#[test]
fn window_publishes_tick_count_then_zero() {
    let mut w = TickWindow::new();
    for t in [0u32, 1, 7, 250] {
        for _ in 0..t {
            w.tick();
        }
        assert_eq!(w.pending(), t);
        assert_eq!(w.close_window(), t);
        assert_eq!(w.rate(), t);
        assert_eq!(w.pending(), 0);
        assert_eq!(w.close_window(), 0);
        assert_eq!(w.rate(), 0);
        assert_eq!(w.close_window(), 0);
        assert_eq!(w.rate(), 0);
    }
}

#[test]
fn debounce_collapses_close_transitions() {
    let mut d = Debouncer::new(50);
    assert_eq!(d.sample(1000, true), Some(true));
    assert_eq!(d.sample(1010, false), None);
    assert_eq!(d.sample(1020, true), None);
    assert_eq!(d.sample(1049, false), None);
    // The settled level is taken once the interval has passed.
    assert_eq!(d.sample(1050, false), Some(false));
}

#[test]
fn debounce_emits_spaced_transitions() {
    let mut d = Debouncer::new(50);
    assert_eq!(d.sample(0, false), Some(false));
    assert_eq!(d.sample(50, true), Some(true));
    assert_eq!(d.sample(100, false), Some(false));
    assert_eq!(d.sample(400, true), Some(true));
}

#[test]
fn debounce_ignores_repeated_level() {
    let mut d = Debouncer::new(50);
    assert_eq!(d.sample(0, true), Some(true));
    assert_eq!(d.sample(500, true), None);
    assert_eq!(d.level, Some(true));
    assert_eq!(d.last_accepted, Some(0));
}

#[test]
fn debounce_zero_interval_passes_every_change() {
    let mut d = Debouncer::new(0);
    assert_eq!(d.sample(5, true), Some(true));
    assert_eq!(d.sample(5, false), Some(false));
}

fn feed(e: &mut Encoder, clock: bool, data: bool, n: usize) -> Vec<Direction> {
    let mut out = Vec::new();
    for _ in 0..n {
        if let Some(d) = e.sample(clock, data) {
            out.push(d);
        }
    }
    out
}

#[test]
fn encoder_ticks_after_high_then_twelve_lows() {
    let mut e = Encoder::new(EncoderPattern::standard());
    assert!(feed(&mut e, true, true, 1).is_empty());
    assert!(feed(&mut e, false, true, 11).is_empty());
    assert_eq!(feed(&mut e, false, true, 1), vec![Direction::Forward]);
    assert_eq!(e.state, 0);
    assert!(feed(&mut e, false, false, 30).is_empty());
}

#[test]
fn encoder_direction_follows_data_line() {
    let mut e = Encoder::new(EncoderPattern::standard());
    feed(&mut e, true, false, 1);
    assert_eq!(feed(&mut e, false, false, 12), vec![Direction::Backward]);
}

#[test]
fn encoder_rejects_short_gap() {
    let mut e = Encoder::new(EncoderPattern::standard());
    feed(&mut e, true, true, 1);
    assert!(feed(&mut e, false, true, 5).is_empty());
    // A glitch restarts the count of low samples.
    assert!(feed(&mut e, true, true, 1).is_empty());
    assert!(feed(&mut e, false, true, 11).is_empty());
    assert_eq!(feed(&mut e, false, true, 1), vec![Direction::Forward]);
}

#[test]
fn encoder_custom_pattern() {
    // One high sample followed by three lows, in a four-bit register.
    let p = EncoderPattern { fill: 0xfff0, matched: 0xfff8 };
    let mut e = Encoder::new(p);
    feed(&mut e, true, true, 1);
    assert!(feed(&mut e, false, true, 2).is_empty());
    assert_eq!(feed(&mut e, false, true, 1), vec![Direction::Forward]);
}

#[test]
fn aggregate_tags_each_source() {
    assert_eq!(aggregate(Source::Hopper(0, HopperState::Full)), Message::HopperFull(0));
    assert_eq!(aggregate(Source::Hopper(1, HopperState::Empty)), Message::HopperEmpty(1));
    assert_eq!(aggregate(Source::Lift(LiftState::Raised)), Message::PlanterRaised);
    assert_eq!(aggregate(Source::Lift(LiftState::Lowered)), Message::PlanterLowered);
    assert_eq!(aggregate(Source::Speed(GroundSpeed::Gps(3))), Message::GroundSpeed(3));
    assert_eq!(aggregate(Source::Speed(GroundSpeed::Unavailable)), Message::GroundSpeedLost);
}

#[test]
fn switch_levels_map_to_states() {
    assert_eq!(HopperState::from_level(true), HopperState::Full);
    assert_eq!(HopperState::from_level(false), HopperState::Empty);
    assert_eq!(LiftState::from_level(true), LiftState::Raised);
    assert_eq!(LiftState::from_level(false), LiftState::Lowered);
}

#[test]
fn gps_publishes_new_speeds_only() {
    let mut p = GpsPoller::new();
    assert_eq!(p.on_read(ReadOutcome::Fix(Some(0))), GpsAction::Continue);
    assert_eq!(p.on_read(ReadOutcome::Fix(Some(5))), GpsAction::Publish(GroundSpeed::Gps(5)));
    assert_eq!(p.on_read(ReadOutcome::Fix(Some(5))), GpsAction::Continue);
    assert_eq!(p.on_read(ReadOutcome::NoFix), GpsAction::Continue);
}

#[test]
fn gps_lost_fix_forgets_last_speed() {
    let mut p = GpsPoller::new();
    assert_eq!(p.on_read(ReadOutcome::Fix(Some(5))), GpsAction::Publish(GroundSpeed::Gps(5)));
    assert_eq!(p.on_read(ReadOutcome::Fix(None)), GpsAction::Publish(GroundSpeed::Unavailable));
    assert_eq!(p.last_speed, None);
    assert_eq!(p.on_read(ReadOutcome::Fix(Some(5))), GpsAction::Publish(GroundSpeed::Gps(5)));
    p.on_read(ReadOutcome::Fix(None));
    // After a lost fix even a speed of 0 is sent again.
    assert_eq!(p.on_read(ReadOutcome::Fix(Some(0))), GpsAction::Publish(GroundSpeed::Gps(0)));
}

#[test]
fn gps_gives_up_after_bounded_timeouts() {
    let mut p = GpsPoller::new();
    for _ in 0..GPS_MAX_FAILURES {
        assert_eq!(p.on_read(ReadOutcome::TimedOut), GpsAction::Backoff(GPS_BACKOFF_MS));
    }
    assert_eq!(p.failures, 100);
    assert_eq!(p.on_read(ReadOutcome::TimedOut), GpsAction::GiveUp);
}

#[test]
fn gps_gives_up_after_bounded_failures() {
    let mut p = GpsPoller::new();
    for k in 0..GPS_MAX_FAILURES {
        let o = if k % 2 == 0 { ReadOutcome::Failed } else { ReadOutcome::TimedOut };
        assert_eq!(p.on_read(o), GpsAction::Backoff(GPS_BACKOFF_MS));
    }
    assert_eq!(p.on_read(ReadOutcome::Failed), GpsAction::GiveUp);
}

#[test]
fn gps_read_resets_failures() {
    let mut p = GpsPoller::new();
    for _ in 0..50 {
        p.on_read(ReadOutcome::TimedOut);
    }
    assert_eq!(p.on_read(ReadOutcome::Failed), GpsAction::Backoff(GPS_BACKOFF_MS));
    assert_eq!(p.failures, 51);
    p.on_read(ReadOutcome::NoFix);
    assert_eq!(p.failures, 0);
}
