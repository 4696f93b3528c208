//! The seven front-panel LEDs, driven through a PCA9685 PWM controller.
//!
//! | LED   | Meaning            | Channel(s)           |
//! |-------|--------------------|----------------------|
//! | PAN1  | pan, left burner   | 7                    |
//! | PAN2  | pan, middle burner | 2                    |
//! | PAN3  | pan, right burner  | 10                   |
//! | LINK1 | link mode          | 6                    |
//! | ST2   | status, left       | 5 (amber) / 4 (green)|
//! | ST1   | status, middle     | 1 (amber) / 0 (green)|
//! | ST3   | status, right      | 9 (amber) / 8 (green)|

use vstd::prelude::*;

use crate::i2c::Write;
use crate::time::Duration;

verus! {

pub const ADDR: u8 = 0x40;

pub const MODE1: u8 = 0x00;

pub const MODE2: u8 = 0x01;

/// The registers of the channels start here, four for each channel.
pub const LED0_ON_L: u8 = 0x06;

pub const PRESCALE: u8 = 0xFE;

pub const MODE1_SLEEP: u8 = 0x10;

/// Register auto-increment.
pub const MODE1_AI: u8 = 0x20;

/// Totem-pole outputs.
pub const MODE2_OUTDRV: u8 = 0x04;

/// The prescaler for a PWM frequency of about 1 kHz.
pub const PRESCALE_1KHZ: u8 = 5;

/// Full-scale 12-bit duty.
pub const FULL_DUTY: u16 = 4095;

/// The channel of the link-mode LED.
pub const LINK_CH: u8 = 6;

/// The channels of the pan LEDs, by burner from left to right.
pub open spec fn pan_channels() -> Seq<u8> {
    seq![7, 2, 10]
}

fn pan_channel(i: usize) -> (r: u8)
    requires
        i < 3,
    ensures
        r == pan_channels()[i as int],
{
    match i {
        0 => 7,
        1 => 2,
        _ => 10,
    }
}

/// The channels of the status LEDs' amber side, by burner.
pub open spec fn amber_channels() -> Seq<u8> {
    seq![5, 1, 9]
}

fn amber_channel(i: usize) -> (r: u8)
    requires
        i < 3,
    ensures
        r == amber_channels()[i as int],
{
    match i {
        0 => 5,
        1 => 1,
        _ => 9,
    }
}

/// The channels of the status LEDs' green side, by burner.
pub open spec fn green_channels() -> Seq<u8> {
    seq![4, 0, 8]
}

fn green_channel(i: usize) -> (r: u8)
    requires
        i < 3,
    ensures
        r == green_channels()[i as int],
{
    match i {
        0 => 4,
        1 => 0,
        _ => 8,
    }
}

/// The blinking pattern of an LED.
#[derive(Clone, Copy, PartialEq, Eq, Debug, Structural)]
pub enum Pattern {
    Off,
    On,
    /// On for one second, off for one second: 20 ticks each.
    Slow,
    /// On for 333 ms, off for 333 ms: to the nearest, seven ticks each.
    Fast,
}

impl Pattern {
    /// Whether the LED is lit at a tick.
    pub open spec fn spec_is_on_at(self, tick: u32) -> bool {
        match self {
            Pattern::Off => false,
            Pattern::On => true,
            Pattern::Slow => tick % 40 < 20,
            Pattern::Fast => tick % 14 < 7,
        }
    }

    pub fn is_on_at(self, tick: u32) -> (r: bool)
        ensures
            r == self.spec_is_on_at(tick),
    {
        match self {
            Pattern::Off => false,
            Pattern::On => true,
            Pattern::Slow => (tick / 20).is_multiple_of(2),
            Pattern::Fast => (tick / 7).is_multiple_of(2),
        }
    }
}

/// Which mode a bidirectional status LED is in.
#[derive(Clone, Copy, PartialEq, Eq, Debug, Structural)]
pub enum Status {
    Green(Pattern),
    /// The brightness runs from 0 to 255.
    Amber(Pattern, u8),
}

impl Status {
    /// The duty of the amber side at a tick.
    pub open spec fn amber_duty(self, tick: u32) -> int {
        match self {
            Status::Amber(pattern, brightness) => if pattern.spec_is_on_at(tick) {
                brightness * FULL_DUTY / 255
            } else {
                0
            },
            Status::Green(_) => 0,
        }
    }

    /// The duty of the green side at a tick.
    pub open spec fn green_duty(self, tick: u32) -> int {
        if self matches Status::Green(pattern) && pattern.spec_is_on_at(tick) {
            FULL_DUTY as int
        } else {
            0
        }
    }

    /// The duties of the amber and the green side at a tick.
    pub fn duties(self, tick: u32) -> (r: (u16, u16))
        ensures
            r.0 == self.amber_duty(tick),
            r.1 == self.green_duty(tick),
            r.0 <= FULL_DUTY,
    {
        match self {
            Status::Green(pattern) => if pattern.is_on_at(tick) {
                (0, FULL_DUTY)
            } else {
                (0, 0)
            },
            Status::Amber(pattern, brightness) => if pattern.is_on_at(tick) {
                ((brightness as u32 * FULL_DUTY as u32 / 255) as u16, 0)
            } else {
                (0, 0)
            },
        }
    }
}

/// The complete desired state of all seven LEDs.
#[derive(Clone, Copy, PartialEq, Eq, Debug)]
pub struct LedState {
    /// Pan-detection LEDs: left, middle, right.
    pub pan: [Pattern; 3],
    /// Link-mode LED.
    pub link_mode: Pattern,
    /// Status LEDs (on / hot): left, middle, right.
    pub status: [Status; 3],
}

impl LedState {
    /// All status LEDs blink amber, at full brightness; the others are dark.
    pub open spec fn spec_fault() -> LedState {
        LedState {
            pan: [Pattern::Off, Pattern::Off, Pattern::Off],
            link_mode: Pattern::Off,
            status: [
                Status::Amber(Pattern::Slow, 255),
                Status::Amber(Pattern::Slow, 255),
                Status::Amber(Pattern::Slow, 255),
            ],
        }
    }

    pub fn fault() -> (r: LedState)
        ensures
            r == LedState::spec_fault(),
    {
        let amber = Status::Amber(Pattern::Slow, 255);
        LedState {
            pan: [Pattern::Off, Pattern::Off, Pattern::Off],
            link_mode: Pattern::Off,
            status: [amber, amber, amber],
        }
    }

    /// All LEDs are dark.
    pub open spec fn spec_dark() -> LedState {
        LedState {
            pan: [Pattern::Off, Pattern::Off, Pattern::Off],
            link_mode: Pattern::Off,
            status: [
                Status::Green(Pattern::Off),
                Status::Green(Pattern::Off),
                Status::Green(Pattern::Off),
            ],
        }
    }
}

impl Default for LedState {
    fn default() -> (r: LedState)
        ensures
            r == LedState::spec_dark(),
    {
        let dark = Status::Green(Pattern::Off);
        LedState {
            pan: [Pattern::Off, Pattern::Off, Pattern::Off],
            link_mode: Pattern::Off,
            status: [dark, dark, dark],
        }
    }
}

/// The four registers of a channel with a duty.
pub open spec fn registers(duty: int) -> Seq<u8> {
    if duty == 0 {
        // Full off.
        seq![0, 0, 0, 0x10]
    } else if duty >= FULL_DUTY {
        // Full on.
        seq![0, 0x10, 0, 0]
    } else {
        // On at count 0, off at count `duty`.
        seq![0, 0, (duty % 256) as u8, (duty / 256) as u8]
    }
}

/// The four registers of a channel in a buffer, which starts with a register
/// number.
pub open spec fn channel(buf: Seq<u8>, ch: int) -> Seq<u8> {
    buf.subrange(1 + 4 * ch, 5 + 4 * ch)
}

/// Whether a channel is yet to be set in a buffer.
pub open spec fn unset(buf: Seq<u8>, ch: int) -> bool {
    channel(buf, ch) == seq![0u8, 0, 0, 0]
}

/// Sets the registers of a channel, if they have been zero, to a duty.
pub fn set_led(buf: &mut [u8; 65], ch: u8, duty: u16)
    requires
        ch < 16,
    ensures
        final(buf)@ == (if duty == 0 {
            old(buf)@.update(1 + ch * 4 + 3, 0x10)
        } else if duty >= FULL_DUTY {
            old(buf)@.update(1 + ch * 4 + 1, 0x10)
        } else {
            old(buf)@.update(1 + ch * 4 + 2, (duty % 256) as u8).update(
                1 + ch * 4 + 3,
                (duty / 256) as u8,
            )
        }),
        unset(old(buf)@, ch as int) ==> channel(final(buf)@, ch as int) == registers(duty as int),
        forall|c: int|
            0 <= c < 16 && c != ch ==> #[trigger] channel(final(buf)@, c) == channel(old(buf)@, c),
        final(buf)@[0] == old(buf)@[0],
{
    let base: usize = 1 + ch as usize * 4;
    let ghost before = buf@;
    if duty == 0 {
        buf[base + 3] = 0x10;
    } else if duty >= FULL_DUTY {
        buf[base + 1] = 0x10;
    } else {
        assert((duty & 0xFF) as u8 == (duty % 256) as u8) by (bit_vector);
        assert((duty >> 8) as u8 == (duty / 256) as u8) by (bit_vector);
        buf[base + 2] = (duty & 0xFF) as u8;
        buf[base + 3] = (duty >> 8) as u8;
    }
    proof {
        let ch = ch as int;
        assert forall|c: int| 0 <= c < 16 && c != ch implies #[trigger] channel(buf@, c) == channel(
            before,
            c,
        ) by {
            assert(channel(buf@, c) =~= channel(before, c));
        }
        if unset(before, ch) {
            let zeros = channel(before, ch);
            assert(zeros[0] == 0 && zeros[1] == 0 && zeros[2] == 0 && zeros[3] == 0);
            assert(channel(buf@, ch) =~= registers(duty as int));
        }
    }
}

/// The duty of an LED that is either lit or dark.
pub open spec fn lit(pattern: Pattern, tick: u32) -> int {
    if pattern.spec_is_on_at(tick) {
        FULL_DUTY as int
    } else {
        0
    }
}

/// Whether the LEDs of the burner at position `i` are set in a buffer as
/// `state` wants them at a tick.
pub open spec fn shows_burner(buf: Seq<u8>, state: LedState, tick: u32, i: int) -> bool {
    &&& channel(buf, pan_channels()[i] as int) == registers(lit(state.pan@[i], tick))
    &&& channel(buf, amber_channels()[i] as int) == registers(state.status@[i].amber_duty(tick))
    &&& channel(buf, green_channels()[i] as int) == registers(state.status@[i].green_duty(tick))
}

/// Whether a write to the PWM controller sets all LEDs as `state` wants them
/// at a tick. No LED is connected to channel 3 and to those above 10.
pub open spec fn shows(buf: Seq<u8>, state: LedState, tick: u32) -> bool {
    &&& buf.len() == 65
    &&& buf[0] == LED0_ON_L
    &&& forall|i: int| 0 <= i < 3 ==> #[trigger] shows_burner(buf, state, tick, i)
    &&& channel(buf, LINK_CH as int) == registers(lit(state.link_mode, tick))
    &&& unset(buf, 3)
    &&& forall|c: int| 11 <= c < 16 ==> #[trigger] unset(buf, c)
}

fn on_or_off(pattern: Pattern, tick: u32) -> (r: u16)
    ensures
        r == lit(pattern, tick),
{
    if pattern.is_on_at(tick) {
        FULL_DUTY
    } else {
        0
    }
}

fn set_burner(buf: &mut [u8; 65], state: &LedState, tick: u32, i: usize)
    requires
        i < 3,
        unset(old(buf)@, pan_channels()[i as int] as int),
        unset(old(buf)@, amber_channels()[i as int] as int),
        unset(old(buf)@, green_channels()[i as int] as int),
    ensures
        shows_burner(final(buf)@, *state, tick, i as int),
        forall|c: int|
            0 <= c < 16 && c != pan_channels()[i as int] && c != amber_channels()[i as int] && c
                != green_channels()[i as int] ==> #[trigger] channel(final(buf)@, c) == channel(
                old(buf)@,
                c,
            ),
        final(buf)@[0] == old(buf)@[0],
{
    let (amber, green) = state.status[i].duties(tick);
    set_led(buf, pan_channel(i), on_or_off(state.pan[i], tick));
    set_led(buf, amber_channel(i), amber);
    set_led(buf, green_channel(i), green);
}

/// The LEDs as they are being shown.
#[derive(Clone, Copy, PartialEq, Eq, Debug)]
pub struct Panel {
    pub state: LedState,
    pub tick: u32,
}

/// What makes the LEDs be set anew.
#[derive(Clone, Copy, PartialEq, Eq, Debug)]
pub enum PanelEvent {
    /// The time of one tick has passed.
    Tick,
    /// The LEDs are wanted otherwise.
    Latest(LedState),
}

impl Panel {
    /// All LEDs dark, at tick 0.
    pub fn new() -> (r: Panel)
        ensures
            r == (Panel { state: LedState::spec_dark(), tick: 0 }),
    {
        Panel { state: LedState::default(), tick: 0 }
    }

    pub open spec fn updated(self, event: PanelEvent) -> Panel {
        match event {
            PanelEvent::Tick => Panel {
                tick: if self.tick == u32::MAX {
                    0
                } else {
                    (self.tick + 1) as u32
                },
                ..self
            },
            PanelEvent::Latest(state) => Panel { state, ..self },
        }
    }

    pub fn update(&mut self, event: PanelEvent)
        ensures
            *final(self) == old(self).updated(event),
    {
        match event {
            PanelEvent::Tick => {
                self.tick = self.tick.wrapping_add(1);
            },
            PanelEvent::Latest(state) => {
                self.state = state;
            },
        }
    }

    /// The write to the PWM controller that sets all LEDs.
    pub fn render(&self) -> (r: [u8; 65])
        ensures
            shows(r@, self.state, self.tick),
    {
        let mut buf = [0u8; 65];
        buf[0] = LED0_ON_L;
        proof {
            assert forall|c: int| 0 <= c < 16 implies #[trigger] channel(buf@, c) == seq![
                0u8,
                0,
                0,
                0,
            ] by {
                assert(channel(buf@, c) =~= seq![0u8, 0, 0, 0]);
            }
        }
        set_burner(&mut buf, &self.state, self.tick, 0);
        set_burner(&mut buf, &self.state, self.tick, 1);
        set_burner(&mut buf, &self.state, self.tick, 2);
        set_led(&mut buf, LINK_CH, on_or_off(self.state.link_mode, self.tick));
        buf
    }
}

/// The time between two ticks.
pub open spec fn spec_tick_time() -> Duration {
    Duration { ticks: 50_000 }
}

pub fn tick_time() -> (r: Duration)
    ensures
        r == spec_tick_time(),
{
    Duration::from_millis(50)
}

/// How long the PWM controller's oscillator takes to stabilise.
pub open spec fn spec_settle_time() -> Duration {
    Duration { ticks: 500 }
}

pub fn settle_time() -> (r: Duration)
    ensures
        r == spec_settle_time(),
{
    Duration::from_micros(500)
}

/// The bytes that set up the PWM controller, write by write. The prescaler can
/// only be set in sleep mode.
pub open spec fn setup() -> Seq<Seq<u8>> {
    seq![
        seq![MODE1, MODE1_SLEEP],
        seq![PRESCALE, PRESCALE_1KHZ],
        seq![MODE2, MODE2_OUTDRV],
        seq![MODE1, MODE1_AI],
    ]
}

/// The write at position `i` of setting up the PWM controller, or none behind
/// the last one.
pub fn init_write(i: usize) -> (r: Option<Write>)
    ensures
        match r {
            Some(w) => i < 4 && w.wf() && w.addr == ADDR && w.data() == setup()[i as int],
            None => i >= 4,
        },
{
    match i {
        0 => Some(Write::byte(ADDR, MODE1, MODE1_SLEEP)),
        1 => Some(Write::byte(ADDR, PRESCALE, PRESCALE_1KHZ)),
        2 => Some(Write::byte(ADDR, MODE2, MODE2_OUTDRV)),
        3 => Some(Write::byte(ADDR, MODE1, MODE1_AI)),
        _ => None,
    }
}

/// How far two numbers lie apart.
pub open spec fn distance(a: int, b: int) -> int {
    if a < b {
        b - a
    } else {
        a - b
    }
}

/// A status LED is never driven on both sides at once.
pub proof fn status_has_one_colour(status: Status, tick: u32)
    ensures
        status.amber_duty(tick) == 0 || status.green_duty(tick) == 0,
{
}

/// In every write to the PWM controller a status LED is driven one way at most:
/// the side that its status does not name is full off, and so is the other one
/// while its pattern is dark.
pub proof fn status_driven_one_way(buf: Seq<u8>, state: LedState, tick: u32, i: int)
    requires
        0 <= i < 3,
        shows(buf, state, tick),
    ensures
        ({
            let amber = channel(buf, amber_channels()[i] as int);
            let green = channel(buf, green_channels()[i] as int);
            &&& amber == registers(0) || green == registers(0)
            &&& match state.status@[i] {
                Status::Green(pattern) => amber == registers(0) && green == registers(
                    lit(pattern, tick),
                ),
                Status::Amber(pattern, brightness) => green == registers(0) && amber == registers(
                    if pattern.spec_is_on_at(tick) {
                        brightness * FULL_DUTY / 255
                    } else {
                        0
                    },
                ),
            }
        }),
{
    assert(shows_burner(buf, state, tick, i));
}

/// Slow is one second and Fast is 333 ms to the nearest tick: no other number
/// of ticks lies closer.
pub proof fn patterns_keep_time(ticks: int)
    ensures
        20 * spec_tick_time().ticks == crate::time::secs(1),
        distance(7 * spec_tick_time().ticks, crate::time::millis(333)) <= distance(
            ticks * spec_tick_time().ticks,
            crate::time::millis(333),
        ),
{
}

/// Duties stay within twelve bits, and full brightness is full duty.
pub proof fn duties_in_range(status: Status, tick: u32)
    ensures
        0 <= status.amber_duty(tick) <= FULL_DUTY,
        0 <= status.green_duty(tick) <= FULL_DUTY,
        status == Status::Amber(Pattern::On, 255) ==> status.amber_duty(tick) == FULL_DUTY,
        status == Status::Amber(Pattern::On, 0) ==> status.amber_duty(tick) == 0,
{
}

/// A slow LED changes after 20 ticks, a fast one after seven, as long as the
/// count of ticks does not start over in between, and steady ones do not
/// change.
pub proof fn patterns_alternate(tick: u32)
    ensures
        tick + 20 <= u32::MAX ==> Pattern::Slow.spec_is_on_at((tick + 20) as u32)
            == !Pattern::Slow.spec_is_on_at(tick),
        tick + 7 <= u32::MAX ==> Pattern::Fast.spec_is_on_at((tick + 7) as u32)
            == !Pattern::Fast.spec_is_on_at(tick),
        Pattern::On.spec_is_on_at(tick),
        !Pattern::Off.spec_is_on_at(tick),
{
}

/// No two LEDs share a channel.
pub proof fn channels_distinct(i: int, j: int)
    requires
        0 <= i < 3,
        0 <= j < 3,
    ensures
        i != j ==> pan_channels()[i] != pan_channels()[j] && amber_channels()[i]
            != amber_channels()[j] && green_channels()[i] != green_channels()[j],
        pan_channels()[i] != amber_channels()[j],
        pan_channels()[i] != green_channels()[j],
        amber_channels()[i] != green_channels()[j],
        pan_channels()[i] != LINK_CH && amber_channels()[i] != LINK_CH && green_channels()[i]
            != LINK_CH,
{
}

/// A slow LED is lit for the first 20 of every 40 ticks, and a fast one for the
/// first seven of every 14, counted from tick 0.
pub proof fn patterns_start_lit(round: int, r: int, tick: u32)
    requires
        0 <= round,
        0 <= r,
    ensures
        r < 20 && tick == 40 * round + r ==> Pattern::Slow.spec_is_on_at(tick),
        r < 20 && tick == 40 * round + 20 + r ==> !Pattern::Slow.spec_is_on_at(tick),
        r < 7 && tick == 14 * round + r ==> Pattern::Fast.spec_is_on_at(tick),
        r < 7 && tick == 14 * round + 7 + r ==> !Pattern::Fast.spec_is_on_at(tick),
{
    let t = tick as int;
    if r < 20 && t == 40 * round + r {
        vstd::arithmetic::div_mod::lemma_fundamental_div_mod_converse_mod(t, 40, round, r);
    }
    if r < 20 && t == 40 * round + 20 + r {
        vstd::arithmetic::div_mod::lemma_fundamental_div_mod_converse_mod(t, 40, round, 20 + r);
    }
    if r < 7 && t == 14 * round + r {
        vstd::arithmetic::div_mod::lemma_fundamental_div_mod_converse_mod(t, 14, round, r);
    }
    if r < 7 && t == 14 * round + 7 + r {
        vstd::arithmetic::div_mod::lemma_fundamental_div_mod_converse_mod(t, 14, round, 7 + r);
    }
}

/// An amber LED that is lit is driven in proportion to its brightness, rounded
/// down, of 255; while its pattern is dark it is not driven. Green is driven
/// fully or not at all.
pub proof fn duties_follow_brightness(pattern: Pattern, brightness: u8, tick: u32)
    ensures
        ({
            let amber = Status::Amber(pattern, brightness);
            &&& amber.green_duty(tick) == 0
            &&& pattern.spec_is_on_at(tick) ==> 255 * amber.amber_duty(tick) <= 4095 * brightness
                < 255 * (amber.amber_duty(tick) + 1)
            &&& !pattern.spec_is_on_at(tick) ==> amber.amber_duty(tick) == 0
        }),
        ({
            let green = Status::Green(pattern);
            &&& green.amber_duty(tick) == 0
            &&& green.green_duty(tick) == (if pattern.spec_is_on_at(tick) {
                4095int
            } else {
                0
            })
        }),
{
}

/// What the registers of a channel tell the PWM controller: bit 4 of the fourth
/// is full off, for no duty, and bit 4 of the second full on, for all of it.
/// Otherwise the LED goes on at count 0 and off at the count of the duty, of
/// which the third register has the low byte.
pub proof fn registers_tell_duty(duty: int)
    requires
        0 <= duty,
    ensures
        registers(duty).len() == 4,
        registers(duty)[0] == 0,
        registers(duty)[1] == 0x10 <==> duty >= 4095,
        registers(duty)[1] == 0 <==> duty < 4095,
        registers(duty)[3] >= 0x10 <==> duty == 0,
        0 < duty < 4095 ==> registers(duty)[2] + 256 * registers(duty)[3] == duty,
        duty == 0 || duty >= 4095 ==> registers(duty)[2] == 0,
        duty == 0 ==> registers(duty)[3] == 0x10,
        duty >= 4095 ==> registers(duty)[3] == 0,
{
}

/// Where a channel's registers lie in a write: behind the register number, four
/// for each channel.
pub proof fn channel_position(buf: Seq<u8>, ch: int, k: int)
    requires
        buf.len() == 65,
        0 <= ch < 16,
        0 <= k < 4,
    ensures
        channel(buf, ch).len() == 4,
        channel(buf, ch)[k] == buf[1 + 4 * ch + k],
        unset(buf, ch) ==> buf[1 + 4 * ch + k] == 0,
{
}

/// Which bytes of a write drive which LED. The pan LEDs are on channels 7, 2 and
/// 10, from left to right, the link LED is on 6, the amber sides of the status
/// LEDs are on 5, 1 and 9, and their green sides on the channels just below. A
/// pan or link LED is driven fully while its pattern is lit and is off
/// otherwise. The write starts with register 6, and the other channels are not
/// set.
pub proof fn panel_layout(buf: Seq<u8>, state: LedState, tick: u32, i: int, c: int)
    requires
        shows(buf, state, tick),
        0 <= i < 3,
        c == 3 || 11 <= c < 16,
    ensures
        buf.len() == 65,
        buf[0] == 0x06,
        ({
            let pan = channel(
                buf,
                if i == 0 {
                    7
                } else if i == 1 {
                    2
                } else {
                    10
                },
            );
            let amber_channel = if i == 0 {
                5int
            } else if i == 1 {
                1
            } else {
                9
            };
            let amber = channel(buf, amber_channel);
            let green = channel(buf, amber_channel - 1);
            &&& pan == (if state.pan@[i].spec_is_on_at(tick) {
                seq![0u8, 0x10, 0, 0]
            } else {
                seq![0u8, 0, 0, 0x10]
            })
            &&& green == (match state.status@[i] {
                Status::Green(pattern) => if pattern.spec_is_on_at(tick) {
                    seq![0u8, 0x10, 0, 0]
                } else {
                    seq![0u8, 0, 0, 0x10]
                },
                Status::Amber(_, _) => seq![0u8, 0, 0, 0x10],
            })
            &&& match state.status@[i] {
                Status::Green(_) => amber == seq![0u8, 0, 0, 0x10],
                Status::Amber(pattern, brightness) => {
                    let duty = brightness * 4095 / 255;
                    if !pattern.spec_is_on_at(tick) || brightness == 0 {
                        amber == seq![0u8, 0, 0, 0x10]
                    } else if brightness == 255 {
                        amber == seq![0u8, 0x10, 0, 0]
                    } else {
                        amber[0] == 0 && amber[1] == 0 && amber[2] + 256 * amber[3] == duty
                    }
                },
            }
        }),
        channel(buf, 6) == (if state.link_mode.spec_is_on_at(tick) {
            seq![0u8, 0x10, 0, 0]
        } else {
            seq![0u8, 0, 0, 0x10]
        }),
        channel(buf, c) == seq![0u8, 0, 0, 0],
{
    assert(shows_burner(buf, state, tick, i));
    assert(registers(4095) =~= seq![0u8, 0x10, 0, 0]);
    assert(registers(0) =~= seq![0u8, 0, 0, 0x10]);
    if 11 <= c {
        assert(unset(buf, c));
    }
}

/// A tick counts on, from the highest count to 0, and leaves what is wanted
/// alone; what is wanted anew does not disturb the count.
pub proof fn panel_takes_events(panel: Panel, latest: LedState)
    ensures
        panel.updated(PanelEvent::Tick).state == panel.state,
        panel.tick < u32::MAX ==> panel.updated(PanelEvent::Tick).tick == panel.tick + 1,
        panel.tick == u32::MAX ==> panel.updated(PanelEvent::Tick).tick == 0,
        panel.updated(PanelEvent::Latest(latest)).state == latest,
        panel.updated(PanelEvent::Latest(latest)).tick == panel.tick,
{
}

/// A fault is shown on all three status LEDs, which blink slowly in amber at
/// full brightness, and by nothing else. A dark panel has no LED lit at any time.
pub proof fn fault_and_dark_panels(i: int, tick: u32)
    requires
        0 <= i < 3,
    ensures
        LedState::spec_fault().status@[i] == Status::Amber(Pattern::Slow, 255),
        !LedState::spec_fault().pan@[i].spec_is_on_at(tick),
        !LedState::spec_fault().link_mode.spec_is_on_at(tick),
        !LedState::spec_dark().pan@[i].spec_is_on_at(tick),
        !LedState::spec_dark().link_mode.spec_is_on_at(tick),
        LedState::spec_dark().status@[i].amber_duty(tick) == 0,
        LedState::spec_dark().status@[i].green_duty(tick) == 0,
{
}

/// The PWM controller is put to sleep before its prescaler is set, and woken up
/// last, with the registers counting on by themselves.
pub proof fn controller_set_up_asleep()
    ensures
        setup().len() == 4,
        setup()[0] == seq![0x00u8, 0x10],
        setup()[1] == seq![0xFEu8, 0x05],
        setup()[2] == seq![0x01u8, 0x04],
        setup()[3] == seq![0x00u8, 0x20],
{
}

} // verus!
