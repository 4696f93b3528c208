use cooktop::burner::{Burner, Node, Power};
use cooktop::controller::{
    burner_led, led_state, Command, Controller, Effects, Event, State,
};
use cooktop::dispatch::{dispatch, FrameId, Pending};
use cooktop::exchange::Error;
use cooktop::iox::SwitchState;
use cooktop::leds::{LedState, Pattern, Status};
use cooktop::pan::{Pan, PanState};
use cooktop::script::Procedure;
use cooktop::time::{Duration, Instant};

const SEC: u64 = 1_000_000;
const NOTHING: Effects = Effects { leds: None, heartbeat: None };

fn at(ticks: u64) -> Instant {
    Instant { ticks }
}

fn dials(left: u8, middle: u8, right: u8) -> SwitchState {
    SwitchState { left, middle, right }
}

fn take(c: &mut Controller, event: Event) -> Effects {
    assert!(c.can_take(&event));
    c.step(event)
}

/// A cooktop that is off since power came on, with all dials at zero.
fn off() -> Controller {
    let mut c = Controller::new(SwitchState::off(), at(0));
    take(&mut c, Event::Probed { serial: Ok([1, 2, 3, 4]), now: at(5) });
    c
}

/// A cooktop that was switched on at 10 s by the left dial.
fn on() -> Controller {
    let mut c = off();
    take(&mut c, Event::Turned { switches: dials(3, 0, 0) });
    take(&mut c, Event::Reached { now: at(10 * SEC) });
    take(&mut c, Event::Ran { result: Ok(()), now: at(11 * SEC) });
    take(&mut c, Event::PansSettled { pans: PanState::absent() });
    take(&mut c, Event::Ran { result: Ok(()), now: at(12 * SEC) });
    c
}

#[test]
fn probing_starts_the_heartbeat() {
    let mut c = Controller::new(dials(1, 2, 3), at(7));
    assert_eq!(c.command(), Command::ReadSerial(Node::Psu));
    assert_eq!((c.last_toggle, c.last_activity, c.link_mode), (at(0), at(7), false));
    let effects = take(&mut c, Event::Probed { serial: Ok([0; 4]), now: at(8) });
    assert_eq!(effects, Effects { leds: None, heartbeat: Some(true) });
    assert_eq!(c.state, State::Off { last_input: dials(1, 2, 3) });
    assert_eq!(c.command(), Command::AwaitTurn(Duration { ticks: SEC }));
}

#[test]
fn probing_can_fail() {
    let mut c = Controller::new(SwitchState::off(), at(0));
    let event = Event::Probed { serial: Err(Error::AckTimeout(0x719)), now: at(8) };
    let effects = take(&mut c, event);
    assert_eq!(effects, Effects { leds: Some(LedState::fault()), heartbeat: Some(false) });
    assert_eq!(c.state, State::Fault { since: at(8) });
}

#[test]
fn fault_lasts_thirty_seconds_and_until_dials_are_zero() {
    let mut c = off();
    c.fault(at(100));
    assert_eq!(c.command(), Command::AwaitReading(Duration { ticks: SEC }));
    assert!(!c.can_take(&Event::Reading { switches: SwitchState::off(), now: at(99) }));
    let mut read = |switches, now| take(&mut c, Event::Reading { switches, now: at(now) });
    assert_eq!(read(SwitchState::off(), 100 + 30 * SEC), NOTHING);
    assert_eq!(read(dials(0, 0, 1), 100 + 40 * SEC), NOTHING);
    let effects = read(SwitchState::off(), 101 + 30 * SEC);
    assert_eq!(effects, Effects { leds: Some(LedState::default()), heartbeat: Some(true) });
    assert_eq!(c.state, State::Off { last_input: SwitchState::off() });
}

#[test]
fn quiet_cooktop_reads_its_temperature() {
    let mut c = off();
    let before = c;
    assert_eq!(take(&mut c, Event::Quiet), NOTHING);
    assert_eq!(c.command(), Command::ReadSurfaceTemp(Burner::Left));
    assert_eq!(take(&mut c, Event::Sampled), NOTHING);
    assert_eq!(c, before);
}

#[test]
fn unchanged_or_zero_dials_do_not_switch_on() {
    let mut c = Controller::new(dials(5, 0, 0), at(0));
    take(&mut c, Event::Probed { serial: Ok([0; 4]), now: at(0) });
    let before = c;
    take(&mut c, Event::Turned { switches: dials(5, 0, 0) });
    assert_eq!(c, before);
    take(&mut c, Event::Turned { switches: SwitchState::off() });
    assert_eq!(c, before);
    take(&mut c, Event::Turned { switches: dials(6, 0, 0) });
    assert_eq!(c.state, State::StartDelay { switches: dials(6, 0, 0) });
}

#[test]
fn switching_on_step_by_step() {
    let mut c = off();
    let switches = dials(3, 0, 10);
    let pans = PanState { right: Pan::Present(at(9)), ..PanState::absent() };
    take(&mut c, Event::Turned { switches });
    assert_eq!(c.command(), Command::Until(at(SEC)));
    take(&mut c, Event::Reached { now: at(10 * SEC) });
    assert_eq!((c.last_toggle, c.last_activity), (at(10 * SEC), at(10 * SEC)));
    assert_eq!(c.command(), Command::Run(Procedure::Startup));
    take(&mut c, Event::Ran { result: Ok(()), now: at(11 * SEC) });
    assert_eq!(c.command(), Command::AwaitPans(Duration { ticks: SEC }));
    take(&mut c, Event::PansSettled { pans });
    let powers = Procedure::SetPower {
        left: Power::Level(6),
        right: Power::Boost,
        middle: Power::Standby,
    };
    assert_eq!(c.command(), Command::Run(powers));
    let effects = take(&mut c, Event::Ran { result: Ok(()), now: at(12 * SEC) });
    assert_eq!(effects.leds, Some(led_state(switches, pans, false)));
    assert_eq!(effects.heartbeat, None);
    assert_eq!(c.command(), Command::Serve { until: at(1810 * SEC), poll: at(11 * SEC) });
}

#[test]
fn failures_shut_down_and_fault() {
    let mut starting = off();
    take(&mut starting, Event::Turned { switches: dials(1, 0, 0) });
    take(&mut starting, Event::Reached { now: at(SEC) });
    let mut powering = on();
    let switches = dials(1, 0, 0);
    take(&mut powering, Event::PansChanged { pans: PanState::absent(), switches });
    for mut c in [starting, powering] {
        let failed = Event::Ran { result: Err(Error::TxTimeout), now: at(20 * SEC) };
        assert_eq!(take(&mut c, failed), NOTHING);
        assert_eq!(c.command(), Command::Run(Procedure::Shutdown));
        for result in [Ok(()), Err(Error::AckTimeout(0x609))] {
            let mut d = c;
            let effects = take(&mut d, Event::Ran { result, now: at(21 * SEC) });
            assert_eq!(d.state, State::Fault { since: at(21 * SEC) });
            assert_eq!(effects.heartbeat, Some(false));
        }
    }
}

#[test]
fn turning_dials_sets_powers() {
    let mut c = on();
    let switches = dials(0, 9, 0);
    let event = Event::DialsChanged { pans: PanState::absent(), switches, now: at(20 * SEC) };
    assert_eq!(take(&mut c, event), NOTHING);
    assert_eq!(c.last_activity, at(20 * SEC));
    let powers = Procedure::SetPower {
        left: Power::Standby,
        right: Power::Standby,
        middle: Power::Level(14),
    };
    assert_eq!(c.command(), Command::Run(powers));
    let effects = take(&mut c, Event::Ran { result: Ok(()), now: at(21 * SEC) });
    assert_eq!(effects.leds, Some(led_state(switches, PanState::absent(), false)));
    assert_eq!(c.command(), Command::Serve { until: at(1820 * SEC), poll: at(11 * SEC) });
}

#[test]
fn pans_are_no_activity() {
    let mut c = on();
    let pans = PanState { left: Pan::Present(at(20 * SEC)), ..PanState::absent() };
    take(&mut c, Event::PansChanged { pans, switches: dials(3, 0, 0) });
    take(&mut c, Event::Ran { result: Ok(()), now: at(20 * SEC) });
    assert_eq!(c.command(), Command::Serve { until: at(1810 * SEC), poll: at(11 * SEC) });
}

#[test]
fn zero_dials_switch_off() {
    let mut c = on();
    let switches = SwitchState::off();
    let event = Event::DialsChanged { pans: PanState::absent(), switches, now: at(10 * SEC) };
    take(&mut c, event);
    assert_eq!(c.command(), Command::Until(at(11 * SEC)));
    take(&mut c, Event::Reached { now: at(11 * SEC) });
    assert_eq!((c.last_toggle, c.link_mode), (at(11 * SEC), false));
    assert_eq!(c.command(), Command::Run(Procedure::Shutdown));
    let effects = take(&mut c, Event::Ran { result: Ok(()), now: at(12 * SEC) });
    assert_eq!(effects, Effects { leds: Some(LedState::default()), heartbeat: None });
    assert_eq!(c.state, State::Off { last_input: SwitchState::off() });
}

#[test]
fn inactivity_switches_off() {
    for (known, last_input) in [(Some(dials(3, 0, 0)), dials(3, 0, 0)), (None, dials(0, 0, 0))] {
        let mut c = on();
        take(&mut c, Event::Inactive { known });
        take(&mut c, Event::Reached { now: at(1811 * SEC) });
        let effects = take(&mut c, Event::Ran { result: Ok(()), now: at(1812 * SEC) });
        assert_eq!(c.state, State::Off { last_input });
        assert_eq!(effects.leds, Some(led_state(last_input, PanState::absent(), false)));
    }
}

#[test]
fn failed_shutdown_is_a_fault() {
    let mut c = on();
    take(&mut c, Event::Inactive { known: None });
    take(&mut c, Event::Reached { now: at(1811 * SEC) });
    let failed = Event::Ran { result: Err(Error::TxTimeout), now: at(1812 * SEC) };
    let effects = take(&mut c, failed);
    assert_eq!(effects, Effects { leds: Some(LedState::fault()), heartbeat: Some(false) });
    assert_eq!(c.state, State::Fault { since: at(1812 * SEC) });
}

#[test]
fn unexpected_events_are_told_apart() {
    let c = on();
    assert!(!c.can_take(&Event::Quiet));
    assert!(!c.can_take(&Event::Reached { now: at(0) }));
    assert!(c.can_take(&Event::Inactive { known: None }));
}

#[test]
fn deadlines_must_fit() {
    let mut c = on();
    assert!(c.deadline_fits());
    c.last_activity = at(u64::MAX - 1800 * SEC + 1);
    assert!(!c.deadline_fits());
    c.last_activity = at(u64::MAX - 1800 * SEC);
    assert!(c.deadline_fits());
    assert_eq!(c.command(), Command::Serve { until: at(u64::MAX), poll: at(11 * SEC) });
    c.last_poll = at(u64::MAX - SEC + 1);
    assert!(!c.deadline_fits());
    c.last_poll = at(u64::MAX - SEC);
    assert!(c.deadline_fits());
}

#[test]
fn status_is_polled_every_second() {
    for result in [Ok(()), Err(Error::AckTimeout(0x709))] {
        let mut c = on();
        let before = c;
        assert_eq!(take(&mut c, Event::PollDue { now: at(13 * SEC) }), NOTHING);
        assert_eq!(c.command(), Command::Run(Procedure::PollStatus));
        assert!(!c.can_take(&Event::PollDue { now: at(13 * SEC) }));
        assert_eq!(take(&mut c, Event::Ran { result, now: at(14 * SEC) }), NOTHING);
        assert_eq!(c, Controller { last_poll: at(13 * SEC), ..before });
        assert_eq!(c.command(), Command::Serve { until: at(1810 * SEC), poll: at(14 * SEC) });
    }
}

#[test]
fn pan_reports_do_not_link() {
    let mut pending = Pending::none();
    let mut pans = None;
    for (zone, now) in [(1, 10), (2, 20), (1, 30)] {
        let id = FrameId::Standard(0x493);
        pans = dispatch(&mut pending, pans, id, &[0x02, 0x05, zone], at(now)).pans;
        let mut c = on();
        c.update_link_mode(pans.unwrap());
        assert!(!c.link_mode);
    }
}

#[test]
fn link_mode_needs_pans_placed_together() {
    let mut c = on();
    let mut link = |middle, right| {
        c.update_link_mode(PanState { left: Pan::Absent, middle, right });
        c.link_mode
    };
    assert!(link(Pan::Present(at(5)), Pan::Present(at(5))));
    assert!(link(Pan::Present(at(5)), Pan::Present(at(4 + SEC))));
    assert!(!link(Pan::Present(at(5)), Pan::Present(at(5 + SEC))));
    assert!(link(Pan::Present(at(4 + SEC)), Pan::Present(at(5))));
    assert!(!link(Pan::Present(at(5 + SEC)), Pan::Present(at(5))));
    assert!(!link(Pan::Present(at(5)), Pan::Absent));
    assert!(!link(Pan::Absent, Pan::Present(at(5))));
    assert!(!link(Pan::Absent, Pan::Absent));
}

#[test]
fn linked_middle_burner_follows_the_right_dial() {
    let mut c = on();
    let pans = PanState { middle: Pan::Present(at(1)), right: Pan::Present(at(2)), left: Pan::Absent };
    c.update_link_mode(pans);
    let level = Power::Level(10);
    assert_eq!(
        c.set_power(dials(0, 1, 7)),
        Procedure::SetPower { left: Power::Standby, right: level, middle: level }
    );
}

#[test]
fn burner_leds() {
    let pan = Pan::Present(at(1));
    assert_eq!(burner_led(0, pan), (Pattern::On, Status::Green(Pattern::Off)));
    assert_eq!(burner_led(4, pan), (Pattern::On, Status::Green(Pattern::On)));
    assert_eq!(burner_led(0, Pan::Absent), (Pattern::Off, Status::Green(Pattern::Off)));
    assert_eq!(burner_led(1, Pan::Absent), (Pattern::Slow, Status::Green(Pattern::On)));
}

#[test]
fn leds_of_linked_burners() {
    let pans = PanState { left: Pan::Absent, middle: Pan::Absent, right: Pan::Present(at(1)) };
    let linked = led_state(dials(2, 0, 3), pans, true);
    assert_eq!(linked.pan, [Pattern::Slow, Pattern::On, Pattern::On]);
    assert_eq!(linked.status, [Status::Green(Pattern::On); 3]);
    assert_eq!(linked.link_mode, Pattern::On);
    let apart = led_state(dials(2, 0, 3), pans, false);
    assert_eq!(apart.pan, [Pattern::Slow, Pattern::Off, Pattern::On]);
    assert_eq!(apart.link_mode, Pattern::Off);
    let zero = led_state(dials(0, 5, 0), pans, true);
    assert_eq!(zero.pan, [Pattern::Off, Pattern::Slow, Pattern::On]);
}
