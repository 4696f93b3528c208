use cooktop::burner::Burner;
use cooktop::heartbeat;
use cooktop::iox::{
    active_pins, address, decode_switch, pauses_after, poll_pause, read_switches, SwitchState,
};
use cooktop::leds::{set_led, settle_time, tick_time, LedState, Panel, PanelEvent, Pattern, Status};
use cooktop::{iox, leds};

#[test]
fn expanders_are_set_up() {
    let mut writes = Vec::new();
    while let Some(w) = iox::init_write(writes.len()) {
        writes.push((w.addr, w.payload().to_vec()));
    }
    let mut expected = Vec::new();
    for addr in [0x20, 0x21, 0x22] {
        expected.push((addr, vec![0x0A, 0b0100_0100]));
        expected.push((addr, vec![0x0C, 0xFF, 0xFF]));
        expected.push((addr, vec![0x04, 0x0F, 0xFF]));
    }
    assert_eq!(writes, expected);
    assert_eq!(Burner::all().map(address), [0x20, 0x21, 0x22]);
}

#[test]
fn contacts_pull_their_inputs_low() {
    assert_eq!(active_pins(0xFF, 0xFF), 0);
    assert_eq!(active_pins(0xFF, 0xFE), 1 << 0);
    assert_eq!(active_pins(0x0F, 0x7F), 1 << 7);
    assert_eq!(active_pins(0xFE, 0xFF), 1 << 8);
    assert_eq!(active_pins(0xF7, 0xFF), 1 << 11);
    assert_eq!(active_pins(0x00, 0x00), 0x0FFF);
    assert_eq!(active_pins(0xEF, 0xFF), 0);
}

#[test]
fn dials_have_one_closed_contact() {
    for n in 0..16 {
        assert_eq!(decode_switch(1 << n), Some(n as u8));
    }
    assert_eq!(decode_switch(0), None);
    assert_eq!(decode_switch(0b11), None);
    assert_eq!(decode_switch(0x8001), None);
    assert_eq!(decode_switch(0xFFFF), None);
}

#[test]
fn every_dial_position_is_read() {
    for n in 0..12u8 {
        let (a, b) = if n < 8 { (0xFF, !(1u8 << n)) } else { (!(1u8 << (n - 8)), 0xFF) };
        assert_eq!(decode_switch(active_pins(a, b)), Some(n));
    }
}

#[test]
fn changed_dials_are_reported() {
    let at = |left, middle, right| SwitchState { left, middle, right };
    assert_eq!(read_switches(None, 1 << 0, 1 << 3, 1 << 11), Some(at(0, 3, 11)));
    assert_eq!(read_switches(Some(at(0, 3, 11)), 1 << 0, 1 << 3, 1 << 11), None);
    assert_eq!(read_switches(Some(at(4, 3, 11)), 0, 1 << 2, 0b11), Some(at(4, 2, 11)));
    assert_eq!(read_switches(Some(at(4, 3, 11)), 0, 0, 0), None);
    assert_eq!(read_switches(None, 0, 0, 1), None);
    assert_eq!(SwitchState::default(), at(0, 0, 0));
}

#[test]
fn dials_are_read_every_second() {
    assert_eq!(poll_pause().ticks, 1_000_000);
    assert_eq!(pauses_after(true, false), 1);
    assert_eq!(pauses_after(true, true), 1);
    assert_eq!(pauses_after(false, false), 1);
    assert_eq!(pauses_after(false, true), 2);
}

#[test]
fn pwm_controller_is_set_up() {
    let mut writes = Vec::new();
    while let Some(w) = leds::init_write(writes.len()) {
        assert_eq!(w.addr, 0x40);
        writes.push(w.payload().to_vec());
    }
    assert_eq!(
        writes,
        vec![vec![0x00, 0x10], vec![0xFE, 5], vec![0x01, 0x04], vec![0x00, 0x20]]
    );
    assert_eq!(settle_time().ticks, 500);
    assert_eq!(tick_time().ticks, 50_000);
}

#[test]
fn patterns_blink() {
    let lit = |p: Pattern, ticks: u32| (0..ticks).filter(|&t| p.is_on_at(t)).collect::<Vec<_>>();
    assert_eq!(lit(Pattern::Off, 50), Vec::<u32>::new());
    assert_eq!(lit(Pattern::On, 5), vec![0, 1, 2, 3, 4]);
    assert_eq!(lit(Pattern::Slow, 42), (0..20).chain(40..42).collect::<Vec<_>>());
    assert_eq!(lit(Pattern::Fast, 16), (0..7).chain(14..16).collect::<Vec<_>>());
    assert!(Pattern::Slow.is_on_at(10) && Pattern::Fast.is_on_at(4));
    assert_eq!(20 * tick_time().ticks, 1_000_000);
    assert_eq!(7 * tick_time().ticks, 350_000);
}

#[test]
fn duties_become_registers() {
    let registers = |duty| {
        let mut buf = [0; 65];
        set_led(&mut buf, 15, duty);
        assert!(buf[..61].iter().all(|&b| b == 0));
        [buf[61], buf[62], buf[63], buf[64]]
    };
    assert_eq!(registers(0), [0, 0, 0, 0x10]);
    assert_eq!(registers(1), [0, 0, 1, 0]);
    assert_eq!(registers(0x0ABC), [0, 0, 0xBC, 0x0A]);
    assert_eq!(registers(4094), [0, 0, 0xFE, 0x0F]);
    assert_eq!(registers(4095), [0, 0x10, 0, 0]);
    assert_eq!(registers(u16::MAX), [0, 0x10, 0, 0]);
}

#[test]
fn status_sides_exclude_each_other() {
    assert_eq!(Status::Green(Pattern::On).duties(0), (0, 4095));
    assert_eq!(Status::Green(Pattern::Off).duties(0), (0, 0));
    assert_eq!(Status::Amber(Pattern::On, 255).duties(0), (4095, 0));
    assert_eq!(Status::Amber(Pattern::On, 128).duties(0), (2055, 0));
    assert_eq!(Status::Amber(Pattern::On, 1).duties(0), (16, 0));
    assert_eq!(Status::Amber(Pattern::Slow, 255).duties(20), (0, 0));
}

fn channel(buf: &[u8; 65], ch: usize) -> [u8; 4] {
    [buf[1 + 4 * ch], buf[2 + 4 * ch], buf[3 + 4 * ch], buf[4 + 4 * ch]]
}

const OFF: [u8; 4] = [0, 0, 0, 0x10];
const FULL: [u8; 4] = [0, 0x10, 0, 0];

#[test]
fn panel_shows_the_leds() {
    let mut panel = Panel::new();
    panel.update(PanelEvent::Latest(LedState {
        pan: [Pattern::On, Pattern::Off, Pattern::Slow],
        link_mode: Pattern::Fast,
        status: [
            Status::Green(Pattern::On),
            Status::Amber(Pattern::On, 128),
            Status::Green(Pattern::Off),
        ],
    }));
    let buf = panel.render();
    assert_eq!(buf[0], 0x06);
    assert_eq!([7, 2, 10].map(|ch| channel(&buf, ch)), [FULL, OFF, FULL]);
    assert_eq!([5, 1, 9].map(|ch| channel(&buf, ch)), [OFF, [0, 0, 0x07, 0x08], OFF]);
    assert_eq!([4, 0, 8].map(|ch| channel(&buf, ch)), [FULL, OFF, OFF]);
    assert_eq!(channel(&buf, 6), FULL);
    for ch in [3, 11, 12, 13, 14, 15] {
        assert_eq!(channel(&buf, ch), [0; 4]);
    }

    for _ in 0..7 {
        panel.update(PanelEvent::Tick);
    }
    assert_eq!(channel(&panel.render(), 6), OFF);
    assert_eq!(channel(&panel.render(), 10), FULL);
    for _ in 7..20 {
        panel.update(PanelEvent::Tick);
    }
    assert_eq!(channel(&panel.render(), 10), OFF);
}

#[test]
fn status_leds_are_driven_one_way() {
    for tick in [0, 19, 20, 39] {
        for status in [
            Status::Green(Pattern::Slow),
            Status::Amber(Pattern::Slow, 255),
            Status::Amber(Pattern::Fast, 1),
        ] {
            let state = LedState { status: [status; 3], ..LedState::default() };
            let buf = Panel { state, tick }.render();
            for (amber, green) in [(5, 4), (1, 0), (9, 8)] {
                assert!(channel(&buf, amber) == OFF || channel(&buf, green) == OFF);
            }
        }
    }
    let state = LedState::fault();
    let lit = Panel { state, tick: 19 }.render();
    assert_eq!((channel(&lit, 5), channel(&lit, 4)), (FULL, OFF));
    let dark = Panel { state, tick: 20 }.render();
    assert_eq!((channel(&dark, 5), channel(&dark, 4)), (OFF, OFF));
}

#[test]
fn panel_counts_around() {
    let mut panel = Panel { state: LedState::default(), tick: u32::MAX };
    panel.update(PanelEvent::Tick);
    assert_eq!(panel, Panel::new());
}

#[test]
fn fault_blinks_amber() {
    let fault = LedState::fault();
    assert_eq!(fault.pan, [Pattern::Off; 3]);
    assert_eq!(fault.link_mode, Pattern::Off);
    assert_eq!(fault.status, [Status::Amber(Pattern::Slow, 255); 3]);
    let dark = LedState::default();
    assert_eq!(dark.pan, [Pattern::Off; 3]);
    assert_eq!(dark.link_mode, Pattern::Off);
    assert_eq!(dark.status, [Status::Green(Pattern::Off); 3]);
}

#[test]
fn heartbeat_duty() {
    assert_eq!(heartbeat::duty_pct(true), 25);
    assert_eq!(heartbeat::duty_pct(false), 0);
    assert_eq!(heartbeat::FREQUENCY_HZ, 26);
}
