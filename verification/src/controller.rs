//! The states of the cooktop as a whole, and what takes it from one to another.

use vstd::prelude::*;

use crate::burner::{Burner, Node, Power};
use crate::exchange::Error;
use crate::iox::SwitchState;
use crate::leds::{LedState, Pattern, Status};
use crate::pan::{Pan, PanState};
use crate::script::Procedure;
use crate::time::{Duration, Instant};

verus! {

/// What the pan LED and the status LED of a burner show, where `sw` is the
/// position of its dial. A burner that is on and has no pan asks for one.
pub open spec fn spec_burner_led(sw: u8, pan: Pan) -> (Pattern, Status) {
    (
        if pan is Present {
            Pattern::On
        } else if sw > 0 {
            Pattern::Slow
        } else {
            Pattern::Off
        },
        Status::Green(
            if sw > 0 {
                Pattern::On
            } else {
                Pattern::Off
            },
        ),
    )
}

pub fn burner_led(sw: u8, pan: Pan) -> (r: (Pattern, Status))
    ensures
        r == spec_burner_led(sw, pan),
{
    let pan_led = if matches!(pan, Pan::Present(_)) {
        Pattern::On
    } else if sw > 0 {
        Pattern::Slow
    } else {
        Pattern::Off
    };

    let status = if sw > 0 {
        Status::Green(Pattern::On)
    } else {
        Status::Green(Pattern::Off)
    };

    (pan_led, status)
}

/// What the LEDs show while the cooktop works. In link mode the middle burner
/// shows what the right one does, if the right one's dial is not at zero.
pub open spec fn spec_led_state(switches: SwitchState, pans: PanState, link_mode: bool) -> LedState {
    let left = spec_burner_led(switches.left, pans.left);
    let right = spec_burner_led(switches.right, pans.right);
    let middle = if switches.right > 0 && link_mode {
        right
    } else {
        spec_burner_led(switches.middle, pans.middle)
    };
    LedState {
        pan: [left.0, middle.0, right.0],
        link_mode: if link_mode {
            Pattern::On
        } else {
            Pattern::Off
        },
        status: [left.1, middle.1, right.1],
    }
}

pub fn led_state(switches: SwitchState, pans: PanState, link_mode: bool) -> (r: LedState)
    ensures
        r == spec_led_state(switches, pans, link_mode),
{
    let (pan_l, st_l) = burner_led(switches.left, pans.left);
    let (pan_r, st_r) = burner_led(switches.right, pans.right);

    let (pan_m, st_m) = if switches.right > 0 && link_mode {
        (pan_r, st_r)
    } else {
        burner_led(switches.middle, pans.middle)
    };

    LedState {
        pan: [pan_l, pan_m, pan_r],
        link_mode: if link_mode {
            Pattern::On
        } else {
            Pattern::Off
        },
        status: [st_l, st_m, st_r],
    }
}

/// The span between two points in time, whichever comes first.
pub open spec fn apart(a: Instant, b: Instant) -> int {
    if a.ticks < b.ticks {
        b.ticks - a.ticks
    } else {
        a.ticks - b.ticks
    }
}

/// Whether the middle and the right burner are linked: their pans were placed
/// within one second of each other. The reports of the right coil name one of
/// its two burners at a time, so pans that are known from them alone are never
/// linked (see `reports_do_not_link`); link mode takes pans that are known to be
/// on both burners.
pub open spec fn linked(pans: PanState) -> bool {
    match (pans.middle, pans.right) {
        (Pan::Present(middle), Pan::Present(right)) => apart(middle, right) < crate::time::secs(1),
        _ => false,
    }
}

/// The powers that the dials ask for. In link mode the middle burner follows
/// the right dial.
pub open spec fn power_for(switches: SwitchState, link_mode: bool) -> Procedure {
    Procedure::SetPower {
        left: Power::spec_from_dial(switches.left),
        right: Power::spec_from_dial(switches.right),
        middle: Power::spec_from_dial(
            if link_mode {
                switches.right
            } else {
                switches.middle
            },
        ),
    }
}

/// What the cooktop is doing.
#[derive(Clone, Copy, PartialEq, Eq, Debug, Structural)]
pub enum State {
    /// It is being asked for a sign of life.
    Probing { last_input: SwitchState },
    /// Something went wrong.
    Fault { since: Instant },
    /// It is off. The dials were last seen like this.
    Off { last_input: SwitchState },
    /// It is off, and its temperature is being read.
    Sampling { last_input: SwitchState },
    /// It is to be switched on, but was switched on or off a moment ago.
    StartDelay { switches: SwitchState },
    /// The boards are being brought up.
    Starting { switches: SwitchState },
    /// The boards are up, and pans are being detected.
    PanWait { switches: SwitchState },
    /// The powers of the burners are being set.
    Powering { switches: SwitchState, pans: PanState },
    /// It is on.
    On,
    /// It is on, and the status registers are being read.
    Polling,
    /// It is to be switched off, but was switched on or off a moment ago.
    StopDelay { switches: SwitchState },
    /// The boards are being shut down.
    Stopping { switches: SwitchState },
    /// Something went wrong, and the boards are being shut down.
    Recovering,
}

/// The cooktop as a whole.
#[derive(Clone, Copy, PartialEq, Eq, Debug, Structural)]
pub struct Controller {
    pub state: State,
    /// Whether the middle burner follows the right dial.
    pub link_mode: bool,
    /// When the cooktop was last switched on or off.
    pub last_toggle: Instant,
    /// When a dial was last turned.
    pub last_activity: Instant,
    /// When the status registers were last read, or the cooktop was switched
    /// on.
    pub last_poll: Instant,
}

/// What is to be done next, and to be answered by an event.
#[derive(Clone, Copy, PartialEq, Eq, Debug, Structural)]
pub enum Command {
    /// Read the serial number of a node.
    ReadSerial(Node),
    /// Wait for a dial to be turned, for so long at most, and report the dials
    /// in any case.
    AwaitReading(Duration),
    /// Wait for a dial to be turned, for so long at most, and report the dials
    /// if one was.
    AwaitTurn(Duration),
    /// Read the surface temperature of a burner.
    ReadSurfaceTemp(Burner),
    /// Wait until a point in time.
    Until(Instant),
    /// Carry out a procedure.
    Run(Procedure),
    /// Wait for a pan on any burner, for so long at most, and report the pans
    /// in any case.
    AwaitPans(Duration),
    /// Wait for the pans to change or a dial to be turned, until either point
    /// in time: `until`, when the cooktop has been left alone for too long, or
    /// `poll`, when its status is to be read. Where both are reached, `until`
    /// is reported.
    Serve { until: Instant, poll: Instant },
}

/// What happened.
#[derive(Clone, Copy, PartialEq, Eq, Debug)]
pub enum Event {
    /// The serial number was read, or could not be.
    Probed { serial: Result<[u8; 4], Error>, now: Instant },
    /// After waiting for a reading, the dials are like this.
    Reading { switches: SwitchState, now: Instant },
    /// A dial was turned while the cooktop was off.
    Turned { switches: SwitchState },
    /// No dial was turned while the cooktop was off.
    Quiet,
    /// The surface temperature was read, or could not be.
    Sampled,
    /// The point in time is reached.
    Reached { now: Instant },
    /// The procedure is over.
    Ran { result: Result<(), Error>, now: Instant },
    /// After waiting for them, the pans are like this.
    PansSettled { pans: PanState },
    /// The pans have changed while the cooktop was on.
    PansChanged { pans: PanState, switches: SwitchState },
    /// A dial was turned while the cooktop was on.
    DialsChanged { pans: PanState, switches: SwitchState, now: Instant },
    /// The cooktop was on and has been left alone for too long. The dials are
    /// like this, if anything is known of them.
    Inactive { known: Option<SwitchState> },
    /// The cooktop was on, and its status is to be read.
    PollDue { now: Instant },
}

/// What an event changes on the panel and on the heartbeat.
#[derive(Clone, Copy, PartialEq, Eq, Debug)]
pub struct Effects {
    pub leds: Option<LedState>,
    pub heartbeat: Option<bool>,
}

/// The span that must pass between switching the cooktop on and off.
pub open spec fn toggle_gap() -> int {
    crate::time::secs(1)
}

/// The span without a dial being turned after which the cooktop is switched
/// off.
pub open spec fn activity_timeout() -> int {
    crate::time::secs(1800)
}

/// The span after which the status registers of a cooktop that is on are read
/// again.
pub open spec fn poll_period() -> int {
    crate::time::secs(1)
}

/// The span for which a fault lasts at least.
pub open spec fn fault_hold() -> int {
    crate::time::secs(30)
}

pub open spec fn no_effects() -> Effects {
    Effects { leds: None, heartbeat: None }
}

impl Controller {
    /// The cooktop when power comes on.
    pub open spec fn spec_new(initial_switch_pos: SwitchState, now: Instant) -> Controller {
        Controller {
            state: State::Probing { last_input: initial_switch_pos },
            link_mode: false,
            last_toggle: Instant { ticks: 0 },
            last_activity: now,
            last_poll: now,
        }
    }

    /// The cooktop when power comes on, with the dials like this.
    pub fn new(initial_switch_pos: SwitchState, now: Instant) -> (r: Controller)
        ensures
            r == (Controller {
                state: State::Probing { last_input: initial_switch_pos },
                link_mode: false,
                last_toggle: Instant { ticks: 0 },
                last_activity: now,
                last_poll: now,
            }),
            r == Controller::spec_new(initial_switch_pos, now),
            r.consistent(),
    {
        Controller {
            state: State::Probing { last_input: initial_switch_pos },
            link_mode: false,
            last_toggle: Instant { ticks: 0 },
            last_activity: now,
            last_poll: now,
        }
    }

    /// Whether the points in time up to which is to be waited, if there are
    /// any, can be represented.
    pub open spec fn spec_deadline_fits(self) -> bool {
        match self.state {
            State::StartDelay { .. } | State::StopDelay { .. } => self.last_toggle.reaches(
                toggle_gap(),
            ),
            State::On => self.last_activity.reaches(activity_timeout()) && self.last_poll.reaches(
                poll_period(),
            ),
            _ => true,
        }
    }

    pub fn deadline_fits(&self) -> (r: bool)
        ensures
            r == self.spec_deadline_fits(),
    {
        match self.state {
            State::StartDelay { .. } | State::StopDelay { .. } => self.last_toggle.ticks <= u64::MAX
                - Duration::from_secs(1).ticks,
            State::On => self.last_activity.ticks <= u64::MAX - Duration::from_secs(30 * 60).ticks
                && self.last_poll.ticks <= u64::MAX - Duration::from_secs(1).ticks,
            _ => true,
        }
    }

    /// What is to be done next.
    pub open spec fn spec_command(self) -> Command {
        match self.state {
            State::Probing { .. } => Command::ReadSerial(Node::Psu),
            State::Fault { .. } => Command::AwaitReading(
                Duration { ticks: crate::time::secs(1) as u64 },
            ),
            State::Off { .. } => Command::AwaitTurn(
                Duration { ticks: crate::time::secs(1) as u64 },
            ),
            State::Sampling { .. } => Command::ReadSurfaceTemp(Burner::Left),
            State::StartDelay { .. } | State::StopDelay { .. } => Command::Until(
                Instant { ticks: (self.last_toggle.ticks + toggle_gap()) as u64 },
            ),
            State::Starting { .. } => Command::Run(Procedure::Startup),
            State::PanWait { .. } => Command::AwaitPans(
                Duration { ticks: crate::time::secs(1) as u64 },
            ),
            State::Powering { switches, .. } => Command::Run(power_for(switches, self.link_mode)),
            State::On => Command::Serve {
                until: Instant { ticks: (self.last_activity.ticks + activity_timeout()) as u64 },
                poll: Instant { ticks: (self.last_poll.ticks + poll_period()) as u64 },
            },
            State::Polling => Command::Run(Procedure::PollStatus),
            State::Stopping { .. } => Command::Run(Procedure::Shutdown),
            State::Recovering => Command::Run(Procedure::Shutdown),
        }
    }

    pub fn command(&self) -> (r: Command)
        requires
            self.spec_deadline_fits(),
        ensures
            r == self.spec_command(),
    {
        match self.state {
            State::Probing { .. } => Command::ReadSerial(Node::Psu),
            State::Fault { .. } => Command::AwaitReading(Duration::from_secs(1)),
            State::Off { .. } => Command::AwaitTurn(Duration::from_secs(1)),
            State::Sampling { .. } => Command::ReadSurfaceTemp(Burner::Left),
            State::StartDelay { .. } | State::StopDelay { .. } => Command::Until(
                self.last_toggle.plus(Duration::from_secs(1)),
            ),
            State::Starting { .. } => Command::Run(Procedure::Startup),
            State::PanWait { .. } => Command::AwaitPans(Duration::from_secs(1)),
            State::Powering { switches, .. } => Command::Run(self.set_power(switches)),
            State::On => Command::Serve {
                // 30m without activity kills the stove.
                until: self.last_activity.plus(Duration::from_secs(30 * 60)),
                poll: self.last_poll.plus(Duration::from_secs(1)),
            },
            State::Polling => Command::Run(Procedure::PollStatus),
            State::Stopping { .. } => Command::Run(Procedure::Shutdown),
            State::Recovering => Command::Run(Procedure::Shutdown),
        }
    }

    /// Updates link mode based on pan detection. Link mode activates when both
    /// the middle and right pans are placed within one second of each other.
    pub fn update_link_mode(&mut self, pans: PanState)
        ensures
            *final(self) == (Controller { link_mode: linked(pans), ..*old(self) }),
    {
        let (middle, right) = match (pans.middle, pans.right) {
            (Pan::Present(middle), Pan::Present(right)) => (middle, right),
            _ => {
                self.link_mode = false;
                return;
            },
        };

        let diff = if middle.ticks < right.ticks {
            right.since(middle)
        } else {
            middle.since(right)
        };

        self.link_mode = diff.ticks < Duration::from_secs(1).ticks;
    }

    /// The procedure that sets the burners to what the dials ask for.
    pub fn set_power(&self, switches: SwitchState) -> (r: Procedure)
        ensures
            r == power_for(switches, self.link_mode),
    {
        let middle = if self.link_mode {
            Power::from_dial(switches.right)
        } else {
            Power::from_dial(switches.middle)
        };
        Procedure::SetPower {
            left: Power::from_dial(switches.left),
            right: Power::from_dial(switches.right),
            middle,
        }
    }

    /// The cooktop once something went wrong.
    pub open spec fn faulted(self, now: Instant) -> Controller {
        Controller { state: State::Fault { since: now }, link_mode: false, ..self }
    }

    /// The panel shows the fault. Without the heartbeat there is neither pan
    /// detection nor power.
    pub open spec fn fault_effects() -> Effects {
        Effects { leds: Some(LedState::spec_fault()), heartbeat: Some(false) }
    }

    pub fn fault(&mut self, now: Instant) -> (r: Effects)
        ensures
            *final(self) == old(self).faulted(now),
            r == Controller::fault_effects(),
    {
        self.link_mode = false;
        self.state = State::Fault { since: now };
        Effects { leds: Some(LedState::fault()), heartbeat: Some(false) }
    }

    /// The panel and the heartbeat once a fault is over.
    pub open spec fn reset_effects() -> Effects {
        Effects { leds: Some(LedState::spec_dark()), heartbeat: Some(true) }
    }

    pub fn fault_reset(&mut self, switches: SwitchState) -> (r: Effects)
        ensures
            *final(self) == (Controller { state: State::Off { last_input: switches }, ..*old(self) }),
            r == Controller::reset_effects(),
    {
        self.state = State::Off { last_input: switches };
        Effects { leds: Some(LedState::default()), heartbeat: Some(true) }
    }

    /// Whether `event` can answer what is to be done.
    pub open spec fn expects(self, event: Event) -> bool {
        match self.state {
            State::Probing { .. } => event is Probed,
            State::Fault { since } => event matches Event::Reading { now, .. } && since.ticks
                <= now.ticks,
            State::Off { .. } => event is Turned || event is Quiet,
            State::Sampling { .. } => event is Sampled,
            State::StartDelay { .. } | State::StopDelay { .. } => event is Reached,
            State::PanWait { .. } => event is PansSettled,
            State::On => event is PansChanged || event is DialsChanged || event is Inactive || event
                is PollDue,
            State::Starting { .. } | State::Powering { .. } | State::Polling
            | State::Stopping { .. } | State::Recovering => event is Ran,
        }
    }

    pub fn can_take(&self, event: &Event) -> (r: bool)
        ensures
            r == self.expects(*event),
    {
        match self.state {
            State::Probing { .. } => matches!(event, Event::Probed { .. }),
            State::Fault { since } => match event {
                Event::Reading { now, .. } => since.ticks <= now.ticks,
                _ => false,
            },
            State::Off { .. } => matches!(event, Event::Turned { .. } | Event::Quiet),
            State::Sampling { .. } => matches!(event, Event::Sampled),
            State::StartDelay { .. } | State::StopDelay { .. } => matches!(
                event,
                Event::Reached { .. }
            ),
            State::PanWait { .. } => matches!(event, Event::PansSettled { .. }),
            State::On => matches!(
                event,
                Event::PansChanged { .. } | Event::DialsChanged { .. } | Event::Inactive { .. }
                    | Event::PollDue { .. }
            ),
            State::Starting { .. } | State::Powering { .. } | State::Polling
            | State::Stopping { .. } | State::Recovering => matches!(event, Event::Ran { .. }),
        }
    }

    /// The cooktop while it is on, after the pans or the dials have changed.
    pub open spec fn served(self, pans: PanState, switches: SwitchState) -> Controller {
        Controller {
            state: if switches == SwitchState::spec_off() {
                State::StopDelay { switches }
            } else {
                State::Powering { switches, pans }
            },
            link_mode: linked(pans),
            ..self
        }
    }

    fn serve(&mut self, pans: PanState, switches: SwitchState)
        ensures
            *final(self) == old(self).served(pans, switches),
    {
        self.update_link_mode(pans);
        if switches == SwitchState::off() {
            self.state = State::StopDelay { switches };
        } else {
            self.state = State::Powering { switches, pans };
        }
    }

    /// The cooktop after an event, and what the event changes on the panel and
    /// on the heartbeat.
    pub open spec fn after(self, event: Event) -> (Controller, Effects) {
        match (self.state, event) {
            (State::Probing { last_input }, Event::Probed { serial, now }) => match serial {
                Ok(_) => (
                    Controller { state: State::Off { last_input }, ..self },
                    Effects { leds: None, heartbeat: Some(true) },
                ),
                Err(_) => (self.faulted(now), Controller::fault_effects()),
            },
            (State::Fault { since }, Event::Reading { switches, now }) => if now.ticks - since.ticks
                > fault_hold() && switches == SwitchState::spec_off() {
                (
                    Controller { state: State::Off { last_input: switches }, ..self },
                    Controller::reset_effects(),
                )
            } else {
                (self, no_effects())
            },
            (State::Off { last_input }, Event::Turned { switches }) => if switches != last_input
                && switches != SwitchState::spec_off() {
                (Controller { state: State::StartDelay { switches }, ..self }, no_effects())
            } else {
                (self, no_effects())
            },
            (State::Off { last_input }, Event::Quiet) => (
                Controller { state: State::Sampling { last_input }, ..self },
                no_effects(),
            ),
            (State::Sampling { last_input }, Event::Sampled) => (
                Controller { state: State::Off { last_input }, ..self },
                no_effects(),
            ),
            (State::StartDelay { switches }, Event::Reached { now }) => (
                Controller {
                    state: State::Starting { switches },
                    last_toggle: now,
                    last_activity: now,
                    last_poll: now,
                    ..self
                },
                no_effects(),
            ),
            (State::Starting { switches }, Event::Ran { result, .. }) => (
                Controller {
                    state: match result {
                        Ok(_) => State::PanWait { switches },
                        Err(_) => State::Recovering,
                    },
                    ..self
                },
                no_effects(),
            ),
            (State::PanWait { switches }, Event::PansSettled { pans }) => (
                Controller {
                    state: State::Powering { switches, pans },
                    link_mode: linked(pans),
                    ..self
                },
                no_effects(),
            ),
            (State::Powering { switches, pans }, Event::Ran { result, .. }) => match result {
                Ok(_) => (
                    Controller { state: State::On, ..self },
                    Effects {
                        leds: Some(spec_led_state(switches, pans, self.link_mode)),
                        heartbeat: None,
                    },
                ),
                Err(_) => (Controller { state: State::Recovering, ..self }, no_effects()),
            },
            (State::On, Event::PansChanged { pans, switches }) => (
                self.served(pans, switches),
                no_effects(),
            ),
            (State::On, Event::DialsChanged { pans, switches, now }) => (
                Controller { last_activity: now, ..self.served(pans, switches) },
                no_effects(),
            ),
            (State::On, Event::Inactive { known }) => (
                Controller {
                    state: State::StopDelay {
                        switches: match known {
                            Some(s) => s,
                            None => SwitchState::spec_off(),
                        },
                    },
                    ..self
                },
                no_effects(),
            ),
            (State::On, Event::PollDue { now }) => (
                Controller { state: State::Polling, last_poll: now, ..self },
                no_effects(),
            ),
            (State::Polling, Event::Ran { .. }) => (
                Controller { state: State::On, ..self },
                no_effects(),
            ),
            (State::StopDelay { switches }, Event::Reached { now }) => (
                Controller {
                    state: State::Stopping { switches },
                    last_toggle: now,
                    link_mode: false,
                    ..self
                },
                no_effects(),
            ),
            (State::Stopping { switches }, Event::Ran { result, now }) => match result {
                Ok(_) => (
                    Controller { state: State::Off { last_input: switches }, ..self },
                    Effects {
                        leds: Some(spec_led_state(switches, PanState::spec_absent(), false)),
                        heartbeat: None,
                    },
                ),
                Err(_) => (self.faulted(now), Controller::fault_effects()),
            },
            (State::Recovering, Event::Ran { now, .. }) => (
                self.faulted(now),
                Controller::fault_effects(),
            ),
            _ => (self, no_effects()),
        }
    }

    /// Takes in what happened.
    pub fn step(&mut self, event: Event) -> (r: Effects)
        requires
            old(self).expects(event),
        ensures
            (*final(self), r) == old(self).after(event),
    {
        let mut leds = None;
        let mut heartbeat = None;
        match (self.state, event) {
            (State::Probing { last_input }, Event::Probed { serial, now }) => match serial {
                Ok(_) => {
                    self.state = State::Off { last_input };
                    heartbeat = Some(true);
                },
                Err(_) => return self.fault(now),
            },
            (State::Fault { since }, Event::Reading { switches, now }) => {
                if now.since(since).ticks > Duration::from_secs(30).ticks && switches
                    == SwitchState::off() {
                    return self.fault_reset(switches);
                }
            },
            (State::Off { last_input }, Event::Turned { switches }) => {
                if switches != last_input && switches != SwitchState::off() {
                    self.state = State::StartDelay { switches };
                }
            },
            (State::Off { last_input }, Event::Quiet) => {
                self.state = State::Sampling { last_input };
            },
            (State::Sampling { last_input }, Event::Sampled) => {
                self.state = State::Off { last_input };
            },
            (State::StartDelay { switches }, Event::Reached { now }) => {
                self.last_toggle = now;
                self.last_activity = now;
                self.last_poll = now;
                self.state = State::Starting { switches };
            },
            (State::Starting { switches }, Event::Ran { result, .. }) => {
                self.state = match result {
                    Ok(_) => State::PanWait { switches },
                    Err(_) => State::Recovering,
                };
            },
            (State::PanWait { switches }, Event::PansSettled { pans }) => {
                self.update_link_mode(pans);
                self.state = State::Powering { switches, pans };
            },
            (State::Powering { switches, pans }, Event::Ran { result, .. }) => match result {
                Ok(_) => {
                    leds = Some(led_state(switches, pans, self.link_mode));
                    self.state = State::On;
                },
                // Attempt a normal shutdown.
                Err(_) => {
                    self.state = State::Recovering;
                },
            },
            (State::On, Event::PansChanged { pans, switches }) => self.serve(pans, switches),
            (State::On, Event::DialsChanged { pans, switches, now }) => {
                self.last_activity = now;
                self.serve(pans, switches);
            },
            (State::On, Event::Inactive { known }) => {
                let switches = match known {
                    Some(s) => s,
                    None => SwitchState::default(),
                };
                self.state = State::StopDelay { switches };
            },
            (State::On, Event::PollDue { now }) => {
                self.last_poll = now;
                self.state = State::Polling;
            },
            // A reading that fails is left out; the next one is due soon.
            (State::Polling, Event::Ran { .. }) => {
                self.state = State::On;
            },
            (State::StopDelay { switches }, Event::Reached { now }) => {
                self.last_toggle = now;
                self.link_mode = false;
                self.state = State::Stopping { switches };
            },
            (State::Stopping { switches }, Event::Ran { result, now }) => match result {
                Ok(_) => {
                    leds = Some(led_state(switches, PanState::absent(), false));
                    self.state = State::Off { last_input: switches };
                },
                Err(_) => return self.fault(now),
            },
            (State::Recovering, Event::Ran { now, .. }) => return self.fault(now),
            _ => {},
        }
        Effects { leds, heartbeat }
    }
}

impl Controller {
    /// What is true of the cooktop at all times: link mode is on only from
    /// when the pans are detected until the boards are shut down, and a
    /// cooktop that is being switched on or whose powers are being set has
    /// some dial that is not at zero.
    pub open spec fn consistent(self) -> bool {
        &&& self.link_mode ==> {
            ||| self.state is Powering
            ||| self.state is On
            ||| self.state is Polling
            ||| self.state is StopDelay
            ||| self.state is Recovering
        }
        &&& match self.state {
            State::StartDelay { switches } => switches != SwitchState::spec_off(),
            State::Starting { switches } => switches != SwitchState::spec_off(),
            State::PanWait { switches } => switches != SwitchState::spec_off(),
            State::Powering { switches, .. } => switches != SwitchState::spec_off(),
            _ => true,
        }
    }

    /// The cooktop after `events`, one after the other.
    pub open spec fn after_all(self, events: Seq<Event>) -> Controller
        decreases events.len(),
    {
        if events.len() == 0 {
            self
        } else {
            self.after_all(events.drop_last()).after(events.last()).0
        }
    }

    /// Whether the heartbeat is to be given in a state.
    pub open spec fn beats(self) -> bool {
        !(self.state is Probing || self.state is Fault)
    }

    /// Whether the heartbeat is given after `events`, where `beating` says
    /// whether it was before.
    pub open spec fn heartbeat_after(self, beating: bool, events: Seq<Event>) -> bool
        decreases events.len(),
    {
        if events.len() == 0 {
            beating
        } else {
            match self.after_all(events.drop_last()).after(events.last()).1.heartbeat {
                Some(b) => b,
                None => self.heartbeat_after(beating, events.drop_last()),
            }
        }
    }
}

/// Whatever happens, the cooktop stays consistent.
pub proof fn stays_consistent(c: Controller, events: Seq<Event>)
    requires
        c.consistent(),
    ensures
        c.after_all(events).consistent(),
    decreases events.len(),
{
    if events.len() > 0 {
        stays_consistent(c, events.drop_last());
    }
}

/// The heartbeat is given exactly while the cooktop has shown a sign of life
/// and is not in a fault.
pub proof fn heartbeat_follows_state(c: Controller, events: Seq<Event>)
    ensures
        c.heartbeat_after(c.beats(), events) == c.after_all(events).beats(),
    decreases events.len(),
{
    if events.len() > 0 {
        heartbeat_follows_state(c, events.drop_last());
    }
}

/// A fault ends only when it has lasted for more than 30 seconds and all dials
/// are at zero; the cooktop is then off and its panel dark.
pub proof fn fault_is_latched(c: Controller, event: Event)
    requires
        c.state is Fault,
        c.expects(event),
    ensures
        match event {
            Event::Reading { switches, now } => if now.ticks - c.state->since.ticks
                > crate::time::secs(30) && switches.left == 0 && switches.middle == 0
                && switches.right == 0 {
                &&& c.after(event).0 == (Controller {
                    state: State::Off { last_input: SwitchState { left: 0, middle: 0, right: 0 } },
                    ..c
                })
                &&& c.after(event).1.leds == Some(LedState::spec_dark())
                &&& c.after(event).1.heartbeat == Some(true)
            } else {
                c.after(event) == (c, no_effects())
            },
            _ => false,
        },
{
}

/// Every way into a fault shows it on the panel and stops the heartbeat, and
/// starts the time for which it lasts.
pub proof fn fault_is_shown(c: Controller, event: Event)
    requires
        c.expects(event),
        !(c.state is Fault),
        c.after(event).0.state is Fault,
    ensures
        c.after(event).1 == (Effects {
            leds: Some(LedState::spec_fault()),
            heartbeat: Some(false),
        }),
        match event {
            Event::Probed { now, .. } => c.after(event).0.state->since == now,
            Event::Ran { now, .. } => c.after(event).0.state->since == now,
            _ => false,
        },
{
}

/// When bringing up the boards or setting the powers fails, the boards are
/// shut down, and however that ends, the cooktop is in a fault.
pub proof fn failure_shuts_down(c: Controller, e: Error, now: Instant, ran: Event)
    requires
        c.state is Starting || c.state is Powering,
        ran is Ran,
    ensures
        ({
            let failed = c.after(Event::Ran { result: Err(e), now }).0;
            &&& failed.spec_command() == Command::Run(Procedure::Shutdown)
            &&& failed.expects(ran)
            &&& failed.after(ran).0.state is Fault
        }),
{
}

/// A cooktop that is off is switched on only by turning a dial, to where the
/// dials have not been before and not all to zero.
pub proof fn only_dials_switch_on(c: Controller, event: Event)
    requires
        c.state is Off,
        c.expects(event),
    ensures
        ({
            let next = c.after(event).0;
            ||| next == c
            ||| next.state == State::Sampling { last_input: c.state->Off_last_input }
            ||| event matches Event::Turned { switches } && {
                &&& next.state == State::StartDelay { switches }
                &&& switches != c.state->Off_last_input
                &&& switches != SwitchState::spec_off()
            }
        }),
{
}

/// Switching on, if nothing fails: the boards are brought up, the burners are
/// set to what the dials ask for, and the panel shows it.
pub proof fn switching_on(
    c: Controller,
    switches: SwitchState,
    reached: Instant,
    up: Instant,
    pans: PanState,
    set: Instant,
)
    requires
        c.state matches State::Off { last_input } && switches != last_input,
        switches != SwitchState::spec_off(),
    ensures
        ({
            let waiting = c.after(Event::Turned { switches }).0;
            let starting = waiting.after(Event::Reached { now: reached }).0;
            let detecting = starting.after(Event::Ran { result: Ok(()), now: up }).0;
            let powering = detecting.after(Event::PansSettled { pans }).0;
            let (on, effects) = powering.after(Event::Ran { result: Ok(()), now: set });
            &&& starting.spec_command() == Command::Run(Procedure::Startup)
            &&& powering.spec_command() == Command::Run(power_for(switches, linked(pans)))
            &&& on.state is On
            &&& on.last_toggle == reached && on.last_activity == reached && on.last_poll == reached
            &&& on.link_mode == linked(pans)
            &&& effects.leds == Some(spec_led_state(switches, pans, linked(pans)))
        }),
{
}

/// While the cooktop is on, turning a dial, unless all are at zero then, and
/// placing or taking away a pan set the burners to what the dials ask for; if
/// that does not fail, the panel shows it and the cooktop stays on.
pub proof fn changes_set_powers(
    c: Controller,
    event: Event,
    pans: PanState,
    switches: SwitchState,
    turned: Instant,
    set: Instant,
)
    requires
        c.state is On,
        event == (Event::PansChanged { pans, switches }) || event == (Event::DialsChanged {
            pans,
            switches,
            now: turned,
        }),
        switches != SwitchState::spec_off(),
    ensures
        ({
            let powering = c.after(event).0;
            let (on, effects) = powering.after(Event::Ran { result: Ok(()), now: set });
            &&& powering.spec_command() == Command::Run(power_for(switches, linked(pans)))
            &&& on.state is On
            &&& on.link_mode == linked(pans)
            &&& effects.leds == Some(spec_led_state(switches, pans, linked(pans)))
        }),
{
}

/// While the cooktop is off and no dial is turned, a surface temperature is
/// read once a second, and nothing else changes.
pub proof fn quiet_reads_temperature(c: Controller)
    requires
        c.state is Off,
    ensures
        c.spec_command() == Command::AwaitTurn(
            Duration { ticks: crate::time::secs(1) as u64 },
        ),
        c.after(Event::Quiet).0.spec_command() == Command::ReadSurfaceTemp(Burner::Left),
        c.after(Event::Quiet).0.after(Event::Sampled).0 == c,
{
}

/// Turning all dials to zero, or leaving them alone for too long, switches a
/// cooktop off that is on: if nothing fails, the boards are shut down, and it
/// is off with the dials where they were.
pub proof fn switching_off(c: Controller, event: Event, reached: Instant, down: Instant)
    requires
        c.state is On,
        match event {
            Event::PansChanged { switches, .. } => switches == SwitchState::spec_off(),
            Event::DialsChanged { switches, .. } => switches == SwitchState::spec_off(),
            Event::Inactive { .. } => true,
            _ => false,
        },
    ensures
        ({
            let waiting = c.after(event).0;
            let stopping = waiting.after(Event::Reached { now: reached }).0;
            let (off, effects) = stopping.after(Event::Ran { result: Ok(()), now: down });
            &&& stopping.spec_command() == Command::Run(Procedure::Shutdown)
            &&& stopping.last_toggle == reached
            &&& !off.link_mode
            &&& off.state == State::Off {
                last_input: match event {
                    Event::Inactive { known: Some(switches) } => switches,
                    _ => SwitchState::spec_off(),
                },
            }
            &&& effects.leds == Some(
                spec_led_state(off.state->Off_last_input, PanState::spec_absent(), false),
            )
        }),
{
}

/// Powers are set while some dial is not at zero only, and each of the other
/// procedures is run in states of its own.
pub proof fn powers_set_for_dials_only(c: Controller, procedure: Procedure)
    requires
        c.consistent(),
        c.spec_command() == Command::Run(procedure),
    ensures
        procedure is SetPower ==> c.state is Powering && c.state->Powering_switches
            != SwitchState::spec_off() && procedure == power_for(
            c.state->Powering_switches,
            c.link_mode,
        ),
        procedure is Startup ==> c.state is Starting,
        procedure is Shutdown ==> c.state is Stopping || c.state is Recovering,
        procedure is PollStatus ==> c.state is Polling,
{
}

/// While the cooktop is on, its status registers are read whenever that is due.
/// However the reading ends, the cooktop is then as it was, but for the time of
/// the last reading, and the panel and the heartbeat do not change.
pub proof fn status_is_polled(c: Controller, now: Instant, ran: Event)
    requires
        c.state is On,
        ran is Ran,
    ensures
        ({
            let (polling, before) = c.after(Event::PollDue { now });
            &&& c.expects(Event::PollDue { now })
            &&& polling.spec_command() == Command::Run(Procedure::PollStatus)
            &&& polling.expects(ran)
            &&& polling.after(ran) == (Controller { last_poll: now, ..c }, no_effects())
            &&& before == no_effects()
        }),
{
}

/// Status readings are due once a second, and a reading does not put off the
/// time at which a cooktop that is left alone is switched off.
pub proof fn polls_are_spaced(c: Controller, now: Instant, ran: Event)
    requires
        c.state is On,
        c.spec_deadline_fits(),
        now.reaches(poll_period()),
        ran is Ran,
    ensures
        c.spec_command() matches Command::Serve { until, poll } && {
            let later = c.after(Event::PollDue { now }).0.after(ran).0;
            &&& poll.ticks == c.last_poll.ticks + crate::time::secs(1)
            &&& later.spec_deadline_fits()
            &&& later.spec_command() matches Command::Serve { until: u, poll: p } && u == until
                && p.ticks == now.ticks + crate::time::secs(1)
        },
{
}

/// Between two times at which the cooktop is switched on or off at least one
/// second passes, given that the wait for it is not cut short.
pub proof fn toggles_are_spaced(c: Controller, now: Instant)
    requires
        c.state is StartDelay || c.state is StopDelay,
        c.spec_deadline_fits(),
        c.spec_command() matches Command::Until(deadline) && deadline.ticks <= now.ticks,
    ensures
        c.after(Event::Reached { now }).0.last_toggle == now,
        now.ticks - c.last_toggle.ticks >= crate::time::secs(1),
{
}

/// The time of the last switching on or off changes in no other way.
pub proof fn toggle_time_kept(c: Controller, event: Event)
    requires
        c.expects(event),
        !(event is Reached),
    ensures
        c.after(event).0.last_toggle == c.last_toggle,
{
}

/// Only turning a dial puts off the time at which a cooktop that is on is
/// switched off for lack of activity; pans do not.
pub proof fn only_dials_are_activity(c: Controller, event: Event)
    requires
        c.state is On,
        c.expects(event),
    ensures
        match event {
            Event::DialsChanged { now, .. } => c.after(event).0.last_activity == now,
            _ => c.after(event).0.last_activity == c.last_activity,
        },
{
}

/// Whatever the boards have reported of pans, starting without any, the middle
/// and the right burner are not linked by it.
pub proof fn reports_do_not_link(reports: Seq<crate::dispatch::PanReport>)
    ensures
        !linked(crate::dispatch::pans_after_all(reports)),
{
    crate::dispatch::right_coil_keeps_one_pan(reports);
}

/// Which of the two burners got its pan first does not matter to link mode,
/// nor does the left burner; without both pans there is no link mode.
pub proof fn link_mode_is_symmetric(pans: PanState, left: Pan)
    ensures
        linked(pans) == linked(PanState { left, middle: pans.right, right: pans.middle }),
        linked(pans) ==> pans.middle is Present && pans.right is Present,
        pans.middle is Present && pans.middle == pans.right ==> linked(pans),
{
}

/// In link mode the middle burner has the power of the right one, and its LEDs
/// show what the right one's do unless the right dial is at zero. The other
/// burners are not concerned.
pub proof fn linked_burners_agree(switches: SwitchState, pans: PanState)
    ensures
        power_for(switches, true)->middle == power_for(switches, true)->right,
        power_for(switches, true)->left == power_for(switches, false)->left,
        power_for(switches, true)->right == power_for(switches, false)->right,
        switches.right > 0 ==> ({
            let leds = spec_led_state(switches, pans, true);
            leds.pan@[1] == leds.pan@[2] && leds.status@[1] == leds.status@[2]
        }),
{
}

/// Without link mode each burner is set to what its own dial asks for, wherever
/// the other dials are. In link mode the middle burner is set to what the right
/// dial asks for, and the others as without it.
pub proof fn burners_follow_their_dials(switches: SwitchState, link_mode: bool)
    ensures
        power_for(switches, link_mode) is SetPower,
        power_for(switches, link_mode)->left == Power::spec_from_dial(switches.left),
        power_for(switches, link_mode)->right == Power::spec_from_dial(switches.right),
        !link_mode ==> power_for(switches, link_mode)->middle == Power::spec_from_dial(
            switches.middle,
        ),
        link_mode ==> power_for(switches, link_mode)->middle == Power::spec_from_dial(
            switches.right,
        ),
{
}

/// Turning one dial does not change the power of another burner, but for the
/// middle one in link mode when the right dial is turned.
pub proof fn dials_do_not_interfere(a: SwitchState, b: SwitchState, link_mode: bool)
    ensures
        a.left == b.left ==> power_for(a, link_mode)->left == power_for(b, link_mode)->left,
        a.right == b.right ==> power_for(a, link_mode)->right == power_for(b, link_mode)->right,
        a.middle == b.middle ==> power_for(a, false)->middle == power_for(b, false)->middle,
        a.right == b.right ==> power_for(a, true)->middle == power_for(b, true)->middle,
{
}

/// Whether a pan LED and a status LED show what there is to show of a burner:
/// the pan LED is steadily on if there is a pan, blinks if there is none though
/// the dial is turned up, and is off otherwise; the status LED is green if the
/// dial is turned up, and dark otherwise.
pub open spec fn shows_dial_and_pan(led: Pattern, status: Status, dial: u8, pan: Pan) -> bool {
    &&& led == Pattern::On <==> pan is Present
    &&& led == Pattern::Slow <==> pan is Absent && dial > 0
    &&& led == Pattern::Off <==> pan is Absent && dial == 0
    &&& status == Status::Green(Pattern::On) <==> dial > 0
    &&& status == Status::Green(Pattern::Off) <==> dial == 0
}

/// The LEDs of every burner show its own dial and its own pan. The middle ones
/// alone, and in link mode alone, show the right burner's instead, while the
/// right dial is turned up. The link LED is on in link mode and off otherwise.
pub proof fn leds_show_their_burner(
    switches: SwitchState,
    pans: PanState,
    link_mode: bool,
    sw: u8,
    pan: Pan,
)
    ensures
        shows_dial_and_pan(spec_burner_led(sw, pan).0, spec_burner_led(sw, pan).1, sw, pan),
        ({
            let leds = spec_led_state(switches, pans, link_mode);
            &&& shows_dial_and_pan(leds.pan@[0], leds.status@[0], switches.left, pans.left)
            &&& shows_dial_and_pan(leds.pan@[2], leds.status@[2], switches.right, pans.right)
            &&& !link_mode || switches.right == 0 ==> shows_dial_and_pan(
                leds.pan@[1],
                leds.status@[1],
                switches.middle,
                pans.middle,
            )
            &&& link_mode && switches.right > 0 ==> shows_dial_and_pan(
                leds.pan@[1],
                leds.status@[1],
                switches.right,
                pans.right,
            )
            &&& leds.link_mode == Pattern::On <==> link_mode
            &&& leds.link_mode == Pattern::Off <==> !link_mode
        }),
{
}

/// Two burners are linked if and only if both have a pan and neither pan came a
/// second or more after the other.
pub proof fn linked_within_a_second(pans: PanState)
    ensures
        linked(pans) <==> {
            &&& pans.middle matches Pan::Present(middle)
            &&& pans.right matches Pan::Present(right)
            &&& middle.ticks < right.ticks + crate::time::secs(1)
            &&& right.ticks < middle.ticks + crate::time::secs(1)
        },
{
}

/// What is done in each state: the PSU is asked for a sign of life; a fault and
/// a cooktop that is off wait for the dials for a second at a time; switching on
/// and off waits until a second after the last time; a cooktop that is on waits
/// until half an hour after a dial was last turned, and a second after its
/// status was last read.
pub proof fn commands_of_states(c: Controller)
    requires
        c.spec_deadline_fits(),
    ensures
        match c.state {
            State::Probing { .. } => c.spec_command() == Command::ReadSerial(Node::Psu),
            State::Fault { .. } => c.spec_command() matches Command::AwaitReading(d) && d.ticks
                == crate::time::secs(1),
            State::Off { .. } => c.spec_command() matches Command::AwaitTurn(d) && d.ticks
                == crate::time::secs(1),
            State::Sampling { .. } => c.spec_command() == Command::ReadSurfaceTemp(Burner::Left),
            State::StartDelay { .. } | State::StopDelay { .. } => c.spec_command() matches Command::Until(
                t,
            ) && t.ticks == c.last_toggle.ticks + crate::time::secs(1),
            State::Starting { .. } => c.spec_command() == Command::Run(Procedure::Startup),
            State::PanWait { .. } => c.spec_command() matches Command::AwaitPans(d) && d.ticks
                == crate::time::secs(1),
            State::Powering { switches, .. } => c.spec_command() == Command::Run(
                power_for(switches, c.link_mode),
            ),
            State::On => c.spec_command() matches Command::Serve { until, poll } && until.ticks
                == c.last_activity.ticks + crate::time::secs(1800) && poll.ticks
                == c.last_poll.ticks + crate::time::secs(1),
            State::Polling => c.spec_command() == Command::Run(Procedure::PollStatus),
            State::Stopping { .. } | State::Recovering => c.spec_command() == Command::Run(
                Procedure::Shutdown,
            ),
        },
{
}

/// A deadline fits unless one of the points in time that are waited for lies
/// beyond what can be represented; states that wait for none have no such limit.
pub proof fn deadlines_that_fit(c: Controller)
    ensures
        c.state is StartDelay || c.state is StopDelay ==> (c.spec_deadline_fits()
            <==> c.last_toggle.ticks + crate::time::secs(1) <= u64::MAX),
        c.state is On ==> (c.spec_deadline_fits() <==> c.last_activity.ticks + crate::time::secs(
            1800,
        ) <= u64::MAX && c.last_poll.ticks + crate::time::secs(1) <= u64::MAX),
        !(c.state is StartDelay || c.state is StopDelay || c.state is On)
            ==> c.spec_deadline_fits(),
{
}

/// An event is expected if and only if it answers the command. A reading during
/// a fault must not come from before the fault.
pub proof fn events_answer_commands(c: Controller, event: Event)
    ensures
        c.expects(event) <==> match c.spec_command() {
            Command::ReadSerial(_) => event is Probed,
            Command::AwaitReading(_) => event matches Event::Reading { now, .. } && now.ticks
                >= c.state->since.ticks,
            Command::AwaitTurn(_) => event is Turned || event is Quiet,
            Command::ReadSurfaceTemp(_) => event is Sampled,
            Command::Until(_) => event is Reached,
            Command::Run(_) => event is Ran,
            Command::AwaitPans(_) => event is PansSettled,
            Command::Serve { .. } => event is PansChanged || event is DialsChanged || event
                is Inactive || event is PollDue,
        },
{
}

/// The PSU's answer decides how the cooktop begins: with one it is off, with the
/// dials as they were seen, and the heartbeat is given; without one it is in a
/// fault from then on.
pub proof fn sign_of_life_decides(
    c: Controller,
    last_input: SwitchState,
    serial: Result<[u8; 4], Error>,
    now: Instant,
)
    requires
        c.state == (State::Probing { last_input }),
    ensures
        ({
            let (next, effects) = c.after(Event::Probed { serial, now });
            &&& serial is Ok ==> next == (Controller { state: State::Off { last_input }, ..c })
                && effects == (Effects { leds: None, heartbeat: Some(true) })
            &&& serial is Err ==> next.state == (State::Fault { since: now }) && !next.link_mode
                && effects.heartbeat == Some(false) && effects.leds == Some(LedState::spec_fault())
        }),
{
}

/// A cooktop that is off is switched on if and only if some dial is elsewhere
/// than last seen and some dial is not at zero; otherwise nothing changes.
pub proof fn turning_decides(c: Controller, seen: SwitchState, turned: SwitchState)
    requires
        c.state == (State::Off { last_input: seen }),
    ensures
        ({
            let (next, effects) = c.after(Event::Turned { switches: turned });
            let moved = turned.left != seen.left || turned.middle != seen.middle || turned.right
                != seen.right;
            let up = turned.left > 0 || turned.middle > 0 || turned.right > 0;
            &&& moved && up ==> next == (Controller {
                state: State::StartDelay { switches: turned },
                ..c
            })
            &&& !(moved && up) ==> next == c
            &&& effects.leds is None && effects.heartbeat is None
        }),
{
}

/// What was seen of the dials when the cooktop was to be switched on or off is
/// what it goes on with.
pub proof fn dials_are_carried_along(
    c: Controller,
    switches: SwitchState,
    now: Instant,
    pans: PanState,
)
    ensures
        c.state == (State::StartDelay { switches }) ==> c.after(Event::Reached { now }).0.state
            == (State::Starting { switches }),
        c.state == (State::Starting { switches }) ==> c.after(
            Event::Ran { result: Ok(()), now },
        ).0.state == (State::PanWait { switches }),
        c.state == (State::PanWait { switches }) ==> c.after(Event::PansSettled { pans }).0.state
            == (State::Powering { switches, pans }),
        c.state == (State::StopDelay { switches }) ==> c.after(Event::Reached { now }).0.state
            == (State::Stopping { switches }),
        c.state == (State::Stopping { switches }) ==> c.after(
            Event::Ran { result: Ok(()), now },
        ).0.state == (State::Off { last_input: switches }),
{
}

/// While the cooktop is on, it is switched off if all dials are at zero, and has
/// its powers set otherwise, with these dials and pans.
pub proof fn change_decides(
    c: Controller,
    event: Event,
    pans: PanState,
    switches: SwitchState,
    now: Instant,
)
    requires
        c.state is On,
        event == (Event::PansChanged { pans, switches }) || event == (Event::DialsChanged {
            pans,
            switches,
            now,
        }),
    ensures
        ({
            let next = c.after(event).0;
            let up = switches.left > 0 || switches.middle > 0 || switches.right > 0;
            &&& up ==> next.state == (State::Powering { switches, pans })
            &&& !up ==> next.state == (State::StopDelay { switches })
            &&& next.link_mode == linked(pans)
        }),
{
}

/// A shutdown that fails is a fault, from then on.
pub proof fn failed_shutdown_faults(c: Controller, e: Error, now: Instant)
    requires
        c.state is Stopping,
    ensures
        ({
            let (next, effects) = c.after(Event::Ran { result: Err(e), now });
            &&& next.state == (State::Fault { since: now })
            &&& !next.link_mode
            &&& effects.heartbeat == Some(false)
            &&& effects.leds == Some(LedState::spec_fault())
        }),
{
}

/// Which events change the times and link mode. A point in time that is reached
/// is the time of switching on or off; switching on and turning a dial while on
/// are activity; switching on and a due reading start the time to the next
/// reading. Link mode follows the pans whenever they are reported to a cooktop
/// that is on or being switched on, and ends with a shutdown or a fault.
pub proof fn times_and_link_mode_change_by(c: Controller, event: Event)
    requires
        c.expects(event),
    ensures
        ({
            let next = c.after(event).0;
            &&& next.last_toggle == match event {
                Event::Reached { now } => now,
                _ => c.last_toggle,
            }
            &&& next.last_activity == match event {
                Event::Reached { now } => if c.state is StartDelay {
                    now
                } else {
                    c.last_activity
                },
                Event::DialsChanged { now, .. } => now,
                _ => c.last_activity,
            }
            &&& next.last_poll == match event {
                Event::Reached { now } => if c.state is StartDelay {
                    now
                } else {
                    c.last_poll
                },
                Event::PollDue { now } => now,
                _ => c.last_poll,
            }
            &&& next.link_mode == match event {
                Event::PansSettled { pans } => linked(pans),
                Event::PansChanged { pans, .. } => linked(pans),
                Event::DialsChanged { pans, .. } => linked(pans),
                _ => c.link_mode && !(next.state is Stopping) && (next.state is Fault ==> c.state
                    is Fault),
            }
        }),
{
}

/// The panel changes only when powers were set, the cooktop was shut down, or a
/// fault begins or ends; the heartbeat only with the sign of life and with
/// faults.
pub proof fn effects_only_by(c: Controller, event: Event)
    requires
        c.expects(event),
    ensures
        ({
            let (next, effects) = c.after(event);
            let fault_changes = (c.state is Fault) != (next.state is Fault);
            &&& effects.leds is Some <==> fault_changes || (c.state is Powering && next.state is On)
                || (c.state is Stopping && next.state is Off)
            &&& effects.heartbeat is Some <==> fault_changes || c.state is Probing
        }),
{
}

/// What becomes of a cooktop whose procedure is over. Bringing up the boards is
/// followed by looking for pans, setting the powers and reading the status leave
/// the cooktop on, and shutting it down leaves it off. A failure to bring up the
/// boards or to set the powers is followed by a shutdown, after which, as after
/// any other shutdown that fails, there is a fault.
pub proof fn end_of_procedure_decides(c: Controller, result: Result<(), Error>, now: Instant)
    requires
        c.spec_command() is Run,
    ensures
        ({
            let next = c.after(Event::Ran { result, now }).0.state;
            match c.spec_command() {
                Command::Run(Procedure::Startup) => if result is Ok {
                    next is PanWait
                } else {
                    next is Recovering
                },
                Command::Run(Procedure::SetPower { .. }) => if result is Ok {
                    next is On
                } else {
                    next is Recovering
                },
                Command::Run(Procedure::PollStatus) => next is On,
                _ => if result is Ok && c.state is Stopping {
                    next is Off
                } else {
                    next == (State::Fault { since: now })
                },
            }
        }),
{
}

/// A cooktop that is left alone for too long is switched off, with the dials as
/// they are known, or all at zero if nothing is.
pub proof fn inactivity_decides(c: Controller, known: Option<SwitchState>)
    requires
        c.state is On,
    ensures
        c.after(Event::Inactive { known }).0 == (Controller {
            state: State::StopDelay {
                switches: SwitchState {
                    left: if known is Some {
                        known->0.left
                    } else {
                        0
                    },
                    middle: if known is Some {
                        known->0.middle
                    } else {
                        0
                    },
                    right: if known is Some {
                        known->0.right
                    } else {
                        0
                    },
                },
            },
            ..c
        }),
{
}

/// A fault leaves link mode and starts at once, and keeps all times.
pub proof fn fault_begins(c: Controller, now: Instant)
    ensures
        c.faulted(now).state == (State::Fault { since: now }),
        !c.faulted(now).link_mode,
        c.faulted(now).last_toggle == c.last_toggle,
        c.faulted(now).last_activity == c.last_activity,
        c.faulted(now).last_poll == c.last_poll,
        Controller::fault_effects().heartbeat == Some(false),
        Controller::fault_effects().leds == Some(LedState::spec_fault()),
        Controller::reset_effects().heartbeat == Some(true),
        Controller::reset_effects().leds == Some(LedState::spec_dark()),
{
}

/// When power comes on, the cooktop waits for a sign of life, with the dials as
/// they are and without link mode. It then counts as active, and as not switched
/// on or off since the clock started; a dial that stays where it was does not
/// switch it on.
pub proof fn begins_by_probing(dials: SwitchState, now: Instant, serial: [u8; 4], later: Instant)
    ensures
        ({
            let c = Controller::spec_new(dials, now);
            let off = c.after(Event::Probed { serial: Ok(serial), now: later }).0;
            &&& c.state is Probing
            &&& !c.link_mode
            &&& c.last_toggle.ticks == 0
            &&& c.last_activity == now
            &&& off.state == (State::Off { last_input: dials })
            &&& off.after(Event::Turned { switches: dials }).0 == off
        }),
{
}

} // verus!
