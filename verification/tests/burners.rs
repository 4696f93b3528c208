use cooktop::burner::{Burner, Node, Power};
use cooktop::message::{Frame, Message};
use cooktop::pan::{BurnerStatus, Pan, PanState};
use cooktop::time::Instant;

#[test]
fn dial_positions_map_to_powers() {
    let powers: Vec<Power> = (0..=12).map(Power::from_dial).collect();
    assert_eq!(
        powers,
        vec![
            Power::Standby,
            Power::Level(3),
            Power::Level(5),
            Power::Level(6),
            Power::Level(7),
            Power::Level(8),
            Power::Level(9),
            Power::Level(10),
            Power::Level(12),
            Power::Level(14),
            Power::Boost,
            Power::Standby,
            Power::Standby,
        ]
    );
    assert_eq!(Power::from_dial(255), Power::Standby);
}

#[test]
fn dial_levels_rise_and_stay_in_range() {
    for position in 1..9 {
        let low = Power::from_dial(position).as_raw();
        let high = Power::from_dial(position + 1).as_raw();
        assert!(1 <= low && low < high && high <= 14);
    }
    assert!(Power::from_dial(9).as_raw() < Power::from_dial(10).as_raw());
}

#[test]
fn powers_are_sent_as_bytes() {
    assert_eq!(Power::Off.as_raw(), 0x00);
    assert_eq!(Power::Standby.as_raw(), 0x61);
    assert_eq!(Power::Boost.as_raw(), 0xF1);
    assert_eq!(Power::Level(1).as_raw(), 1);
    assert_eq!(Power::Level(14).as_raw(), 14);
    assert_eq!(Power::Level(0).as_raw(), 0x0E);
    assert_eq!(Power::Level(15).as_raw(), 0x0E);
    assert_eq!(Power::Level(255).as_raw(), 0x0E);
}

#[test]
fn burners_have_boards_and_zones() {
    let [left, middle, right] = Burner::all();
    assert_eq!((left, middle, right), (Burner::Left, Burner::Middle, Burner::Right));
    assert_eq!(left.node(), Node::LeftCoil);
    assert_eq!(middle.node(), Node::RightCoil);
    assert_eq!(right.node(), Node::RightCoil);
    assert_eq!(left.power_subcmd(), 0x04);
    assert_eq!(middle.power_subcmd(), 0x04);
    assert_eq!(right.power_subcmd(), 0x05);
    assert_eq!(left.temperature_subcmd(), 0x03);
    assert_eq!(middle.temperature_subcmd(), 0x03);
    assert_eq!(right.temperature_subcmd(), 0x04);
}

#[test]
fn nodes_have_ids() {
    let ids = |n: Node| (n.ready_id(), n.ack_id(), n.command_id(), n.query_id());
    assert_eq!(ids(Node::LeftCoil), (0x509, 0x609, 0x689, 0x789));
    assert_eq!(ids(Node::RightCoil), (0x513, 0x613, 0x693, 0x793));
    assert_eq!(ids(Node::Psu), (0x519, 0x619, 0x699, 0x799));
}

#[test]
fn messages_are_encoded() {
    let sent = |m: Message| {
        let f = m.encode();
        (f.id, f.payload().to_vec())
    };
    assert_eq!(sent(Message::SystemInit), (0x680, vec![0x00, 0x01, 0x00, 0x06]));
    assert_eq!(sent(Message::ControllerReady), (0x581, vec![]));
    assert_eq!(sent(Message::Announce), (0x681, vec![0x00, 0x0B, 0x00, 0x00]));
    assert_eq!(sent(Message::NodeOn(Node::LeftCoil)), (0x689, vec![1, 1, 0, 1]));
    assert_eq!(sent(Message::NodeOff(Node::RightCoil)), (0x693, vec![1, 1, 0, 0]));
    assert_eq!(
        sent(Message::SetPower(Burner::Left, Power::Standby)),
        (0x689, vec![0x01, 0x04, 0x00, 0x61])
    );
    assert_eq!(
        sent(Message::SetPower(Burner::Right, Power::Boost)),
        (0x693, vec![0x01, 0x05, 0x00, 0xF1])
    );
    assert_eq!(
        sent(Message::Configure(Node::RightCoil)),
        (0x693, vec![0x01, 0x06, 0x00, 0x0E, 0x74])
    );
    assert_eq!(sent(Message::PsuPrepare), (0x699, vec![1, 3, 0, 2]));
    assert_eq!(sent(Message::PsuOff), (0x699, vec![1, 2, 0, 0]));
}

#[test]
fn frames_carry_their_payload() {
    let f = Frame::new(0x7FF, &[1, 2, 3, 4, 5, 6, 7, 8]);
    assert_eq!((f.id, f.len, f.payload()), (0x7FF, 8, &[1u8, 2, 3, 4, 5, 6, 7, 8][..]));
    let f = Frame::query(Node::RightCoil, &[0x04, 0x02, 0x00]);
    assert_eq!((f.id, f.payload()), (0x793, &[4u8, 2, 0][..]));
    assert_eq!(f.bytes, [4, 2, 0, 0, 0, 0, 0, 0]);
    assert_eq!(Frame::new(0, &[]).payload().len(), 0);
}

#[test]
fn pans_remember_when_they_came() {
    let at = |ticks| Instant { ticks };
    let mut pan = Pan::Absent;
    pan.update(false, at(1));
    assert_eq!(pan, Pan::Absent);
    pan.update(true, at(2));
    assert_eq!(pan, Pan::Present(at(2)));
    pan.update(true, at(3));
    assert_eq!(pan, Pan::Present(at(2)));
    pan.update(false, at(4));
    assert_eq!(pan, Pan::Absent);
    pan.update(true, at(5));
    assert_eq!(pan, Pan::Present(at(5)));
}

#[test]
fn no_pans_by_default() {
    assert_eq!(PanState::default(), PanState::absent());
    assert_eq!(PanState::absent().middle, Pan::Absent);
    let status = BurnerStatus::default();
    assert_eq!((status.pcb, status.surface, status.reg_x3, status.reg_x5), (0, 0, [0; 4], 0));
}
