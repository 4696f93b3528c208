use cooktop::burner::{Burner, Node, Power};
use cooktop::dispatch::{dispatch, FrameId, Pending};
use cooktop::exchange::{
    ack_timeout, node_off, node_on, query, request, set_power, tx_timeout, Action, Error,
    ErrorKind, Outcome, Progress, Roundtrip, TwaiError,
};
use cooktop::message::Message;
use cooktop::pan::{Pan, PanState};
use cooktop::readings;
use cooktop::script::{Next, Procedure, Script};
use cooktop::time::{Duration, Instant};

fn at(ticks: u64) -> Instant {
    Instant { ticks }
}

/// Carries out a procedure. The outcome of the action at `fail` is replaced.
fn carry_out(
    procedure: Procedure,
    fail: Option<(usize, Outcome)>,
) -> (Vec<Action>, Result<(), Error>) {
    let mut script = Script::new(procedure);
    let mut actions = Vec::new();
    loop {
        let action = match script.next() {
            Next::Act(action) => action,
            Next::Finished(result) => return (actions, result),
        };
        let outcome = match fail {
            Some((i, outcome)) if i == actions.len() => outcome,
            _ => match action {
                Action::AwaitReply(_) => Outcome::Reply([0; 8]),
                _ => Outcome::Done,
            },
        };
        assert!(script.can_take(&outcome));
        actions.push(action);
        script.step(outcome);
    }
}

fn frames(actions: &[Action]) -> Vec<(u16, Vec<u8>)> {
    actions
        .iter()
        .filter_map(|a| match a {
            Action::Transmit(f, limit) => {
                assert_eq!(limit.ticks, 100_000);
                Some((f.id, f.payload().to_vec()))
            }
            _ => None,
        })
        .collect()
}

#[test]
fn timeouts_are_in_ticks() {
    assert_eq!(tx_timeout(), Duration { ticks: 100_000 });
    assert_eq!(ack_timeout(), Duration { ticks: 500_000 });
}

#[test]
fn startup_sequence() {
    let (actions, result) = carry_out(Procedure::Startup, None);
    assert_eq!(result, Ok(()));
    assert_eq!(
        frames(&actions),
        vec![
            (0x680, vec![0x00, 0x01, 0x00, 0x06]),
            (0x581, vec![]),
            (0x789, vec![0x00, 0x03, 0x00]),
            (0x789, vec![0x00, 0x04, 0x00]),
            (0x793, vec![0x00, 0x03, 0x00]),
            (0x793, vec![0x00, 0x04, 0x00]),
            (0x799, vec![0x00, 0x03, 0x00]),
            (0x799, vec![0x00, 0x04, 0x00]),
            (0x681, vec![0x00, 0x0B, 0x00, 0x00]),
            (0x689, vec![0x01, 0x01, 0x00, 0x01]),
            (0x689, vec![0x01, 0x04, 0x00, 0x61]),
            (0x693, vec![0x01, 0x01, 0x00, 0x01]),
            (0x693, vec![0x01, 0x04, 0x00, 0x61]),
            (0x693, vec![0x01, 0x05, 0x00, 0x61]),
            (0x689, vec![0x01, 0x06, 0x00, 0x0E, 0x74]),
            (0x693, vec![0x01, 0x06, 0x00, 0x0E, 0x74]),
            (0x681, vec![0x00, 0x0B, 0x00, 0x00]),
        ]
    );
    assert_eq!(actions.len(), 17 + 13 * 3);
    assert_eq!(actions[0], Action::ClearReady);
    assert_eq!(actions[2], Action::Sleep(Duration { ticks: 40_000 }));
    let limit = Duration { ticks: 500_000 };
    assert_eq!(actions[4], Action::AwaitReady(Node::LeftCoil, limit));
    assert_eq!(actions[5], Action::AwaitReady(Node::RightCoil, limit));
    assert_eq!(actions[6], Action::AwaitReady(Node::Psu, limit));
    assert_eq!(actions[7], Action::Expect(0x709));
    assert_eq!(actions[9], Action::AwaitReply(limit));
    assert_eq!(actions[13], Action::Expect(0x713));
    assert_eq!(actions[22], Action::Expect(0x719));
    assert_eq!(actions[25], Action::ClearAcks);
    assert_eq!(actions[27], Action::AwaitAck(Node::LeftCoil, limit));
    assert_eq!(actions[30], Action::Expect(0x609));
    assert_eq!(actions[32], Action::AwaitReply(limit));
    assert_eq!(actions[51], Action::ClearAcks);
    assert_eq!(actions[55], Action::AwaitAck(Node::Psu, limit));
}

#[test]
fn status_registers_are_polled() {
    let (actions, result) = carry_out(Procedure::PollStatus, None);
    assert_eq!(result, Ok(()));
    let mut expected = Vec::new();
    for (id, group, registers) in [
        (0x789, 2, &[5, 4, 3][..]),
        (0x789, 3, &[2, 3, 5, 4][..]),
        (0x793, 3, &[2, 3, 5, 4][..]),
        (0x793, 4, &[2, 3, 5, 4][..]),
    ] {
        for &register in registers {
            expected.push((id, vec![group, register, 0x00]));
        }
    }
    assert_eq!(frames(&actions), expected);
    assert_eq!(actions.len(), 15 * 3);
    assert_eq!(Procedure::PollStatus.op(15), None);

    let (actions, result) = carry_out(Procedure::PollStatus, Some((23, Outcome::TimedOut)));
    assert_eq!((actions.len(), result), (24, Err(Error::AckTimeout(0x713))));
}

#[test]
fn procedures_ask_what_readings_ask() {
    for node in [Node::LeftCoil, Node::RightCoil, Node::Psu] {
        assert_eq!(request(Message::ReadSerial(node)), readings::read_serial(node));
        assert_eq!(request(Message::ReadConfig(node)), readings::read_config(node));
    }
    let status = Message::ReadStatus(Node::LeftCoil, 2, 5);
    assert_eq!(request(status), readings::read_power_state(Node::LeftCoil));
    let status = Message::ReadStatus(Node::RightCoil, 4, 4);
    assert_eq!(request(status), readings::read_surface_temp(Burner::Right));
}

#[test]
fn shutdown_sequence() {
    let (actions, result) = carry_out(Procedure::Shutdown, None);
    assert_eq!(result, Ok(()));
    assert_eq!(
        frames(&actions),
        vec![
            (0x689, vec![0x01, 0x04, 0x00, 0x00]),
            (0x693, vec![0x01, 0x04, 0x00, 0x00]),
            (0x693, vec![0x01, 0x05, 0x00, 0x00]),
            (0x689, vec![0x01, 0x01, 0x00, 0x00]),
            (0x693, vec![0x01, 0x01, 0x00, 0x00]),
            (0x699, vec![0x01, 0x03, 0x00, 0x02]),
            (0x699, vec![0x01, 0x02, 0x00, 0x00]),
            (0x681, vec![0x00, 0x0B, 0x00, 0x00]),
        ]
    );
}

#[test]
fn power_sequence() {
    let procedure = Procedure::SetPower {
        left: Power::Level(5),
        right: Power::Boost,
        middle: Power::Standby,
    };
    let (actions, result) = carry_out(procedure, None);
    assert_eq!(result, Ok(()));
    assert_eq!(
        frames(&actions),
        vec![
            (0x689, vec![0x01, 0x04, 0x00, 0x05]),
            (0x693, vec![0x01, 0x05, 0x00, 0xF1]),
            (0x693, vec![0x01, 0x04, 0x00, 0x61]),
        ]
    );
    assert_eq!(procedure.op(3), None);
}

#[test]
fn startup_stops_at_the_first_failure() {
    let (actions, result) = carry_out(Procedure::Startup, Some((1, Outcome::TimedOut)));
    assert_eq!((actions.len(), result), (2, Err(Error::TxTimeout)));

    let (actions, result) = carry_out(Procedure::Startup, Some((5, Outcome::TimedOut)));
    assert_eq!((actions.len(), result), (6, Err(Error::AckTimeout(0x513))));
    assert_eq!(frames(&actions).len(), 2);

    let (actions, result) = carry_out(Procedure::Startup, Some((9, Outcome::TimedOut)));
    assert_eq!((actions.len(), result), (10, Err(Error::AckTimeout(0x709))));
    assert_eq!(frames(&actions).len(), 3);

    let (actions, result) = carry_out(Procedure::Startup, Some((29, Outcome::TimedOut)));
    assert_eq!((actions.len(), result), (30, Err(Error::AckTimeout(0x619))));

    let (actions, result) = carry_out(Procedure::Startup, Some((32, Outcome::TimedOut)));
    assert_eq!((actions.len(), result), (33, Err(Error::AckTimeout(0x609))));
    assert_eq!(frames(&actions).len(), 10);
}

#[test]
fn unsent_request_is_forgotten() {
    let failed = Outcome::Failed(TwaiError::EmbeddedHAL(ErrorKind::Acknowledge));
    let (actions, result) = carry_out(Procedure::Shutdown, Some((4, failed)));
    assert_eq!(result, Err(Error::Twai(TwaiError::EmbeddedHAL(ErrorKind::Acknowledge))));
    assert_eq!(actions.len(), 6);
    assert_eq!(actions[5], Action::Forget);
    assert_eq!(frames(&actions).len(), 2);
}

#[test]
fn errors_come_from_the_peripheral() {
    assert_eq!(Error::from(TwaiError::BusOff), Error::Twai(TwaiError::BusOff));
}

#[test]
fn roundtrip_ends_with_the_reply() {
    let mut trip = set_power(Burner::Middle, Power::Level(9));
    assert_eq!(trip.expected(), 0x613);
    assert_eq!(trip.progress(), Progress::Act(Action::Expect(0x613)));
    assert!(!trip.can_take(&Outcome::TimedOut));
    trip.step(Outcome::Done);
    match trip.progress() {
        Progress::Act(Action::Transmit(f, _)) => {
            assert_eq!((f.id, f.payload()), (0x693, &[1u8, 4, 0, 9][..]))
        }
        other => panic!("{:?}", other),
    }
    trip.step(Outcome::Done);
    assert_eq!(trip.progress(), Progress::Act(Action::AwaitReply(ack_timeout())));
    assert!(!trip.can_take(&Outcome::Done));
    trip.step(Outcome::Reply([1, 4, 0, 1, 0, 0, 0, 0]));
    assert_eq!(trip.progress(), Progress::Finished(Ok([1, 4, 0, 1, 0, 0, 0, 0])));
    assert!(!trip.can_take(&Outcome::Done));
}

#[test]
fn roundtrip_times_out() {
    let mut trip = query(Node::Psu, &[0x00, 0x03, 0x00]);
    trip.step(Outcome::Done);
    trip.step(Outcome::Done);
    trip.step(Outcome::TimedOut);
    assert_eq!(trip.progress(), Progress::Finished(Err(Error::AckTimeout(0x719))));
}

fn sent(trip: Roundtrip) -> (u16, Vec<u8>) {
    (trip.frame.id, trip.frame.payload().to_vec())
}

#[test]
fn requests_to_boards() {
    assert_eq!(sent(node_on(Node::RightCoil)), (0x693, vec![1, 1, 0, 1]));
    assert_eq!(sent(node_off(Node::LeftCoil)), (0x689, vec![1, 1, 0, 0]));
    assert_eq!(sent(readings::read_serial(Node::Psu)), (0x799, vec![0, 3, 0]));
    assert_eq!(sent(readings::read_power_state(Node::LeftCoil)), (0x789, vec![2, 5, 0]));
    assert_eq!(sent(readings::read_config(Node::RightCoil)), (0x793, vec![0, 4, 0]));
    assert_eq!(sent(readings::read_pcb_temp(Burner::Left)), (0x789, vec![3, 2, 0]));
    assert_eq!(sent(readings::read_surface_temp(Burner::Middle)), (0x793, vec![3, 4, 0]));
    assert_eq!(sent(readings::read_reg_x3(Burner::Right)), (0x793, vec![4, 3, 0]));
    assert_eq!(sent(readings::read_reg_x5(Burner::Right)), (0x793, vec![4, 5, 0]));
}

#[test]
fn readings_are_taken_from_answers() {
    let serial = [0x00, 0x03, 0x00, 0x01, 0xA5, 0x51, 0xD1, 0xAD];
    assert_eq!(readings::serial(Ok(serial)), Ok([0xA5, 0x51, 0xD1, 0xAD]));
    let config = [0x00, 0x04, 0x00, 0x01, 0x00, 0x02, 0x01, 0x00];
    assert_eq!(readings::config(Ok(config)), Ok([0, 2, 1, 0]));
    let surface = [0x03, 0x04, 0x00, 0x01, 0x00, 0x2D, 0x00, 0x00];
    assert_eq!(readings::surface_temp(Ok(surface)), Ok(45));
    assert_eq!(readings::pcb_temp(Ok(surface)), Ok(45));
    let power = [0x02, 0x05, 0x00, 0x01, 0x01, 0x00, 0x00, 0x00];
    assert_eq!(readings::power_state(Ok(power)), Ok(1));
    assert_eq!(readings::reg_x5(Ok(power)), Ok(1));
    assert_eq!(readings::reg_x3(Ok(power)), Ok([1, 0, 0, 0]));
    let none = Err(Error::AckTimeout(0x709));
    assert_eq!(readings::serial(none), Err(Error::AckTimeout(0x709)));
    assert_eq!(readings::surface_temp(none), Err(Error::AckTimeout(0x709)));
}

#[test]
fn reply_is_taken_once() {
    let mut pending = Pending::none();
    pending.expect(0x709);
    let other = dispatch(&mut pending, None, FrameId::Standard(0x713), &[9], at(0));
    assert_eq!(other.reply, None);
    let data = [0x03, 0x04, 0x00, 0x01, 0x00, 0x2D];
    let first = dispatch(&mut pending, None, FrameId::Standard(0x709), &data, at(0));
    assert_eq!(first.reply, Some([3, 4, 0, 1, 0, 0x2D, 0, 0]));
    assert_eq!(pending, Pending::none());
    let second = dispatch(&mut pending, None, FrameId::Standard(0x709), &data, at(0));
    assert_eq!(second.reply, None);
}

#[test]
fn forgotten_reply_is_not_taken() {
    let mut pending = Pending::none();
    pending.expect(0x609);
    pending.forget();
    let got = dispatch(&mut pending, None, FrameId::Standard(0x609), &[1, 4, 0, 1], at(0));
    assert_eq!(got.reply, None);
}

#[test]
fn reply_is_no_acknowledgement() {
    let mut pending = Pending { id: 0x609 };
    let got = dispatch(&mut pending, None, FrameId::Standard(0x609), &[0, 0x0B, 0, 1], at(0));
    assert_eq!((got.reply, got.ack), (Some([0, 0x0B, 0, 1, 0, 0, 0, 0]), None));
    let got = dispatch(&mut pending, None, FrameId::Standard(0x609), &[0, 0x0B, 0, 1], at(0));
    assert_eq!((got.reply, got.ack), (None, Some(Node::LeftCoil)));
}

#[test]
fn frame_zero_counts_as_reply_when_none_is_expected() {
    let mut pending = Pending::none();
    let got = dispatch(&mut pending, None, FrameId::Standard(0), &[7], at(0));
    assert_eq!(got.reply, Some([7, 0, 0, 0, 0, 0, 0, 0]));
}

#[test]
fn boards_report_ready_and_acknowledge() {
    let mut pending = Pending::none();
    for (node, ready, ack) in [
        (Node::LeftCoil, 0x509, 0x609),
        (Node::RightCoil, 0x513, 0x613),
        (Node::Psu, 0x519, 0x619),
    ] {
        let got = dispatch(&mut pending, None, FrameId::Standard(ready), &[], at(0));
        assert_eq!((got.ready, got.ack, got.pans), (Some(node), None, None));
        let got = dispatch(&mut pending, None, FrameId::Standard(ack), &[0, 0x0B], at(0));
        assert_eq!((got.ready, got.ack), (None, Some(node)));
        let got = dispatch(&mut pending, None, FrameId::Standard(ack), &[1, 4, 0, 1], at(0));
        assert_eq!(got.ack, None);
        let got = dispatch(&mut pending, None, FrameId::Standard(ack), &[0], at(0));
        assert_eq!(got.ack, None);
    }
}

#[test]
fn extended_frames_are_ignored() {
    let mut pending = Pending { id: 0x509 };
    let got = dispatch(&mut pending, None, FrameId::Extended(0x509), &[2, 5, 1], at(0));
    assert_eq!((got.reply, got.pans, got.ready, got.ack), (None, None, None, None));
    assert_eq!(pending, Pending { id: 0x509 });
}

#[test]
fn pans_are_reported() {
    let mut pending = Pending::none();
    let mut report = |pans, id, data: &[u8], now| {
        dispatch(&mut pending, pans, FrameId::Standard(id), data, at(now)).pans
    };

    let left = report(None, 0x489, &[2, 5, 1], 10);
    assert_eq!(left, Some(PanState { left: Pan::Present(at(10)), ..PanState::absent() }));

    let both = report(left, 0x493, &[2, 5, 1, 0, 0, 0], 20).unwrap();
    assert_eq!((both.left, both.middle), (Pan::Present(at(10)), Pan::Present(at(20))));
    assert_eq!(both.right, Pan::Absent);

    let kept = report(Some(both), 0x493, &[2, 5, 1], 30).unwrap();
    assert_eq!(kept, both);

    let moved = report(Some(both), 0x493, &[2, 5, 2], 40).unwrap();
    assert_eq!((moved.middle, moved.right), (Pan::Absent, Pan::Present(at(40))));

    let gone = report(Some(moved), 0x493, &[2, 5, 0], 50).unwrap();
    assert_eq!((gone.left, gone.right), (Pan::Present(at(10)), Pan::Absent));

    assert_eq!(report(None, 0x489, &[2, 5], 60), None);
    assert_eq!(report(None, 0x489, &[2, 4, 1], 60), None);
    assert_eq!(report(None, 0x489, &[1, 5, 1], 60), None);
    assert_eq!(report(None, 0x499, &[2, 5, 1], 60), None);
    assert_eq!(report(None, 0x489, &[2, 5, 2], 60), Some(PanState::absent()));
}
