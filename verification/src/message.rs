//! The CAN frames that the controller sends.

use vstd::prelude::*;

use crate::burner::{Burner, Node, Power};

verus! {

/// The highest 11-bit identifier.
pub const MAX_STANDARD_ID: u16 = 0x7FF;

/// A CAN 2.0A frame: an 11-bit identifier and up to eight bytes. The bytes
/// behind the payload are zero.
#[derive(Clone, Copy, PartialEq, Eq, Debug)]
pub struct Frame {
    pub id: u16,
    pub len: u8,
    pub bytes: [u8; 8],
}

/// `data`, filled up with zeros to eight bytes.
pub open spec fn padded(data: Seq<u8>) -> Seq<u8> {
    Seq::new(
        8,
        |i: int|
            if i < data.len() {
                data[i]
            } else {
                0
            },
    )
}

/// Copies a payload into a zeroed buffer.
pub fn pad(data: &[u8]) -> (r: [u8; 8])
    requires
        data@.len() <= 8,
    ensures
        r@ == padded(data@),
{
    let mut r = [0u8; 8];
    let mut i: usize = 0;
    while i < data.len()
        invariant
            i <= data@.len() <= 8,
            forall|j: int| 0 <= j < 8 ==> r@[j] == (if j < i { data@[j] } else { 0 }),
        decreases data@.len() - i,
    {
        r[i] = data[i];
        i += 1;
    }
    assert(r@ =~= padded(data@));
    r
}

/// The frame with an identifier and a payload of up to eight bytes.
pub open spec fn frame_of(id: u16, data: Seq<u8>) -> Frame {
    let p = padded(data);
    Frame {
        id,
        len: data.len() as u8,
        bytes: [p[0], p[1], p[2], p[3], p[4], p[5], p[6], p[7]],
    }
}

impl Frame {
    /// What the bus can carry.
    pub open spec fn wf(self) -> bool {
        &&& self.id <= MAX_STANDARD_ID
        &&& self.len <= 8
        &&& forall|i: int| self.len <= i < 8 ==> self.bytes@[i] == 0
    }

    /// The payload.
    pub open spec fn data(self) -> Seq<u8> {
        self.bytes@.take(self.len as int)
    }

    pub fn new(id: u16, data: &[u8]) -> (r: Frame)
        requires
            id <= MAX_STANDARD_ID,
            data@.len() <= 8,
        ensures
            r == frame_of(id, data@),
            r.wf(),
            r.data() == data@,
    {
        let r = Frame { id, len: data.len() as u8, bytes: pad(data) };
        assert(r.data() =~= data@);
        assert(r.bytes =~= frame_of(id, data@).bytes);
        r
    }

    pub fn payload(&self) -> (r: &[u8])
        requires
            self.len <= 8,
        ensures
            r@ == self.data(),
    {
        vstd::slice::slice_subrange(self.bytes.as_slice(), 0, self.len as usize)
    }

    /// A status query to a node.
    pub fn query(node: Node, reg: &[u8]) -> (r: Frame)
        requires
            reg@.len() <= 8,
        ensures
            r == frame_of(node.spec_query_id(), reg@),
            r.wf(),
            r.data() == reg@,
    {
        Frame::new(node.query_id(), reg)
    }
}

/// What the controller has to say to the boards.
#[derive(Clone, Copy, PartialEq, Eq, Debug, Structural)]
pub enum Message {
    /// Wakes up all boards.
    SystemInit,
    /// Tells the boards that the controller is ready.
    ControllerReady,
    /// Announces the controller; every board acknowledges.
    Announce,
    /// Initialises a coil board.
    NodeOn(Node),
    /// Resets a coil board.
    NodeOff(Node),
    /// Sets the power of a burner.
    SetPower(Burner, Power),
    /// Configures the maximum power of a coil board.
    Configure(Node),
    /// Prepares the PSU for being switched off.
    PsuPrepare,
    /// Switches the PSU off.
    PsuOff,
    /// Asks a node for its serial number.
    ReadSerial(Node),
    /// Asks a node for its configuration.
    ReadConfig(Node),
    /// Asks a node for a status register, which a group and a number select.
    ReadStatus(Node, u8, u8),
}

impl Message {
    /// The identifier that the message is sent under.
    pub open spec fn id(self) -> u16 {
        match self {
            Message::SystemInit => 0x680,
            Message::ControllerReady => 0x581,
            Message::Announce => 0x681,
            Message::NodeOn(node) => node.spec_command_id(),
            Message::NodeOff(node) => node.spec_command_id(),
            Message::SetPower(burner, _) => burner.spec_node().spec_command_id(),
            Message::Configure(node) => node.spec_command_id(),
            Message::PsuPrepare => Node::Psu.spec_command_id(),
            Message::PsuOff => Node::Psu.spec_command_id(),
            Message::ReadSerial(node) => node.spec_query_id(),
            Message::ReadConfig(node) => node.spec_query_id(),
            Message::ReadStatus(node, _, _) => node.spec_query_id(),
        }
    }

    /// The payload of the message.
    pub open spec fn data(self) -> Seq<u8> {
        match self {
            Message::SystemInit => seq![0x00, 0x01, 0x00, 0x06],
            Message::ControllerReady => seq![],
            Message::Announce => seq![0x00, 0x0B, 0x00, 0x00],
            Message::NodeOn(_) => seq![0x01, 0x01, 0x00, 0x01],
            Message::NodeOff(_) => seq![0x01, 0x01, 0x00, 0x00],
            Message::SetPower(burner, power) => seq![
                0x01,
                burner.spec_power_subcmd(),
                0x00,
                power.spec_as_raw(),
            ],
            Message::Configure(_) => seq![0x01, 0x06, 0x00, 0x0E, 0x74],
            Message::PsuPrepare => seq![0x01, 0x03, 0x00, 0x02],
            Message::PsuOff => seq![0x01, 0x02, 0x00, 0x00],
            Message::ReadSerial(_) => seq![0x00, 0x03, 0x00],
            Message::ReadConfig(_) => seq![0x00, 0x04, 0x00],
            Message::ReadStatus(_, group, register) => seq![group, register, 0x00],
        }
    }

    /// The frame that carries the message.
    pub open spec fn spec_encode(self) -> Frame {
        frame_of(self.id(), self.data())
    }

    pub fn encode(self) -> (r: Frame)
        ensures
            r == self.spec_encode(),
            r.wf(),
            r.data() == self.data(),
    {
        let r = match self {
            Message::SystemInit => Frame::new(0x680, &[0x00, 0x01, 0x00, 0x06]),
            Message::ControllerReady => Frame::new(0x581, &[]),
            Message::Announce => Frame::new(0x681, &[0x00, 0x0B, 0x00, 0x00]),
            Message::NodeOn(node) => Frame::new(node.command_id(), &[0x01, 0x01, 0x00, 0x01]),
            Message::NodeOff(node) => Frame::new(node.command_id(), &[0x01, 0x01, 0x00, 0x00]),
            Message::SetPower(burner, power) => Frame::new(
                burner.node().command_id(),
                &[0x01, burner.power_subcmd(), 0x00, power.as_raw()],
            ),
            Message::Configure(node) => Frame::new(
                node.command_id(),
                &[0x01, 0x06, 0x00, 0x0E, 0x74],
            ),
            Message::PsuPrepare => Frame::new(
                Node::Psu.command_id(),
                &[0x01, 0x03, 0x00, 0x02],
            ),
            Message::PsuOff => Frame::new(Node::Psu.command_id(), &[0x01, 0x02, 0x00, 0x00]),
            Message::ReadSerial(node) => Frame::query(node, &[0x00, 0x03, 0x00]),
            Message::ReadConfig(node) => Frame::query(node, &[0x00, 0x04, 0x00]),
            Message::ReadStatus(node, group, register) => Frame::query(
                node,
                &[group, register, 0x00],
            ),
        };
        assert(r.data() =~= self.data());
        r
    }
}

/// A frame gives back the identifier and the payload that it was made of, and
/// is one that the bus can carry.
pub proof fn frame_carries_payload(id: u16, data: Seq<u8>)
    requires
        id <= MAX_STANDARD_ID,
        data.len() <= 8,
    ensures
        frame_of(id, data).wf(),
        frame_of(id, data).id == id,
        frame_of(id, data).data() == data,
{
    let f = frame_of(id, data);
    assert(f.bytes@ =~= padded(data));
    assert(f.data() =~= data);
}

/// Every message fits in a frame that the bus can carry.
pub proof fn messages_fit(m: Message)
    ensures
        m.spec_encode().wf(),
        m.spec_encode().id == m.id(),
        m.spec_encode().data() == m.data(),
{
    frame_carries_payload(m.id(), m.data());
}

/// A payload keeps its bytes when it is filled up, and zeros follow it.
pub proof fn padding_keeps_data(data: Seq<u8>, i: int)
    requires
        data.len() <= 8,
        0 <= i < 8,
    ensures
        padded(data).len() == 8,
        i < data.len() ==> padded(data)[i] == data[i],
        i >= data.len() ==> padded(data)[i] == 0,
{
}

/// The payload of a frame is the bytes before its length, and nothing else.
pub proof fn payload_is_bytes(f: Frame, i: int)
    requires
        f.len <= 8,
    ensures
        f.data().len() == f.len,
        0 <= i < f.len ==> f.data()[i] == f.bytes@[i],
{
}

/// A burner is set by a command of four bytes to its own board: 0x689 for the
/// left one, 0x693 for the other two. The second byte tells the two zones of a
/// board apart, and the last byte is the power.
pub proof fn power_command(burner: Burner, power: Power)
    ensures
        ({
            let f = Message::SetPower(burner, power).spec_encode();
            &&& f.id == (if burner == Burner::Left {
                0x689u16
            } else {
                0x693u16
            })
            &&& f.data() == seq![
                0x01u8,
                if burner == Burner::Right {
                    0x05
                } else {
                    0x04
                },
                0x00u8,
                power.spec_as_raw(),
            ]
        }),
{
    messages_fit(Message::SetPower(burner, power));
    assert(Message::SetPower(burner, power).spec_encode().data() =~= seq![
        0x01u8,
        if burner == Burner::Right {
            0x05
        } else {
            0x04
        },
        0x00u8,
        power.spec_as_raw(),
    ]);
}

/// The commands to a board go to its command ID: switching it on and off differ
/// in the last byte alone, and the configuration is 0x0E74.
pub proof fn board_commands(node: Node)
    ensures
        Message::NodeOn(node).spec_encode().id == 0x680 + node.spec_offset(),
        Message::NodeOn(node).spec_encode().data() == seq![0x01u8, 0x01, 0x00, 0x01],
        Message::NodeOff(node).spec_encode().id == Message::NodeOn(node).spec_encode().id,
        Message::NodeOff(node).spec_encode().data() == Message::NodeOn(
            node,
        ).spec_encode().data().update(3, 0x00),
        Message::Configure(node).spec_encode().id == Message::NodeOn(node).spec_encode().id,
        Message::Configure(node).spec_encode().data() == seq![0x01u8, 0x06, 0x00, 0x0E, 0x74],
{
    messages_fit(Message::NodeOn(node));
    messages_fit(Message::NodeOff(node));
    messages_fit(Message::Configure(node));
    assert(Message::NodeOn(node).data() =~= seq![0x01u8, 0x01, 0x00, 0x01]);
    assert(Message::NodeOff(node).data() =~= Message::NodeOn(node).data().update(3, 0x00));
    assert(Message::Configure(node).data() =~= seq![0x01u8, 0x06, 0x00, 0x0E, 0x74]);
}

/// Queries to a board go to its query ID, and are the group and the number of
/// the register with a zero behind.
pub proof fn board_queries(node: Node, group: u8, register: u8)
    ensures
        Message::ReadStatus(node, group, register).spec_encode().id == 0x780 + node.spec_offset(),
        Message::ReadStatus(node, group, register).spec_encode().data() == seq![
            group,
            register,
            0x00,
        ],
        Message::ReadSerial(node).spec_encode() == Message::ReadStatus(
            node,
            0x00,
            0x03,
        ).spec_encode(),
        Message::ReadConfig(node).spec_encode() == Message::ReadStatus(
            node,
            0x00,
            0x04,
        ).spec_encode(),
{
    messages_fit(Message::ReadStatus(node, group, register));
    assert(Message::ReadStatus(node, group, register).data() =~= seq![group, register, 0x00]);
    assert(Message::ReadSerial(node).data() =~= Message::ReadStatus(node, 0x00, 0x03).data());
    assert(Message::ReadConfig(node).data() =~= Message::ReadStatus(node, 0x00, 0x04).data());
}

/// The messages that go to no board in particular, and those to the PSU.
pub proof fn other_messages()
    ensures
        Message::SystemInit.spec_encode().id == 0x680,
        Message::SystemInit.spec_encode().data() == seq![0x00u8, 0x01, 0x00, 0x06],
        Message::ControllerReady.spec_encode().id == 0x581,
        Message::ControllerReady.spec_encode().data() == Seq::<u8>::empty(),
        Message::Announce.spec_encode().id == 0x681,
        Message::Announce.spec_encode().data() == seq![0x00u8, 0x0B, 0x00, 0x00],
        Message::PsuPrepare.spec_encode().id == 0x699,
        Message::PsuPrepare.spec_encode().data() == seq![0x01u8, 0x03, 0x00, 0x02],
        Message::PsuOff.spec_encode().id == 0x699,
        Message::PsuOff.spec_encode().data() == seq![0x01u8, 0x02, 0x00, 0x00],
{
    messages_fit(Message::SystemInit);
    messages_fit(Message::ControllerReady);
    messages_fit(Message::Announce);
    messages_fit(Message::PsuPrepare);
    messages_fit(Message::PsuOff);
    assert(Message::ControllerReady.data() =~= Seq::<u8>::empty());
    assert(Message::PsuPrepare.data() =~= seq![0x01u8, 0x03, 0x00, 0x02]);
    assert(Message::PsuOff.data() =~= seq![0x01u8, 0x02, 0x00, 0x00]);
}

} // verus!
