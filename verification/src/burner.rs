//! The boards on the bus, the burners they drive, and power settings.

use vstd::prelude::*;

verus! {

/// A CAN node on the bus. The right coil board is a single node that drives
/// two burners; the PSU is a node that heats nothing.
#[derive(Clone, Copy, PartialEq, Eq, Debug, Structural)]
pub enum Node {
    LeftCoil,
    RightCoil,
    Psu,
}

impl Node {
    /// The low part of every CAN ID of the node.
    pub open spec fn spec_offset(self) -> u16 {
        match self {
            Node::LeftCoil => 0x09,
            Node::RightCoil => 0x13,
            Node::Psu => 0x19,
        }
    }

    pub fn offset(self) -> (r: u16)
        ensures
            r == self.spec_offset(),
    {
        match self {
            Node::LeftCoil => 0x09,
            Node::RightCoil => 0x13,
            Node::Psu => 0x19,
        }
    }

    /// The ID on which the node reports that it is ready.
    pub open spec fn spec_ready_id(self) -> u16 {
        (0x500 + self.spec_offset()) as u16
    }

    pub fn ready_id(self) -> (r: u16)
        ensures
            r == self.spec_ready_id(),
    {
        0x500 + self.offset()
    }

    /// The ID on which the node acknowledges commands.
    pub open spec fn spec_ack_id(self) -> u16 {
        (0x600 + self.spec_offset()) as u16
    }

    pub fn ack_id(self) -> (r: u16)
        ensures
            r == self.spec_ack_id(),
    {
        0x600 + self.offset()
    }

    /// The ID on which the node takes commands.
    pub open spec fn spec_command_id(self) -> u16 {
        (0x680 + self.spec_offset()) as u16
    }

    pub fn command_id(self) -> (r: u16)
        ensures
            r == self.spec_command_id(),
    {
        let offset = self.offset();
        assert(0x680u16 | offset == 0x680 + offset) by (bit_vector)
            requires
                offset < 0x80,
        ;
        0x680 | offset
    }

    /// The ID on which the node takes status queries.
    pub open spec fn spec_query_id(self) -> u16 {
        (0x780 + self.spec_offset()) as u16
    }

    pub fn query_id(self) -> (r: u16)
        ensures
            r == self.spec_query_id(),
    {
        let offset = self.offset();
        assert(0x780u16 | offset == 0x780 + offset) by (bit_vector)
            requires
                offset < 0x80,
        ;
        0x780 | offset
    }
}

/// A user-facing heating element. Each has its own dial, pan detection and
/// surface temperature.
#[derive(Clone, Copy, PartialEq, Eq, Debug, Structural)]
pub enum Burner {
    Left,
    Middle,
    Right,
}

impl Burner {
    /// The board that drives the burner.
    pub open spec fn spec_node(self) -> Node {
        match self {
            Burner::Left => Node::LeftCoil,
            Burner::Middle | Burner::Right => Node::RightCoil,
        }
    }

    /// The zone of its board, 1 or 2, that the burner is.
    pub open spec fn zone(self) -> int {
        if self == Burner::Right {
            2
        } else {
            1
        }
    }

    /// All burners, from left to right.
    pub fn all() -> (r: [Burner; 3])
        ensures
            r@ == seq![Burner::Left, Burner::Middle, Burner::Right],
    {
        [Burner::Left, Burner::Middle, Burner::Right]
    }

    pub fn node(self) -> (r: Node)
        ensures
            r == self.spec_node(),
    {
        match self {
            Burner::Left => Node::LeftCoil,
            Burner::Middle | Burner::Right => Node::RightCoil,
        }
    }

    /// The sub-command that sets the power of the burner's zone.
    pub open spec fn spec_power_subcmd(self) -> u8 {
        (3 + self.zone()) as u8
    }

    pub fn power_subcmd(self) -> (r: u8)
        ensures
            r == self.spec_power_subcmd(),
    {
        match self {
            Burner::Left | Burner::Middle => 0x04,
            Burner::Right => 0x05,
        }
    }

    /// The register group that holds the temperatures of the burner's zone.
    pub open spec fn spec_temperature_subcmd(self) -> u8 {
        (2 + self.zone()) as u8
    }

    pub fn temperature_subcmd(self) -> (r: u8)
        ensures
            r == self.spec_temperature_subcmd(),
    {
        match self {
            Burner::Left | Burner::Middle => 0x03,
            Burner::Right => 0x04,
        }
    }
}

/// A power setting of a burner.
#[derive(Clone, Copy, PartialEq, Eq, Debug, Structural)]
pub enum Power {
    Off,
    Standby,
    Level(u8),
    Boost,
}

/// The power levels of the dial positions from 1 on.
pub open spec fn dial_levels() -> Seq<u8> {
    seq![3u8, 5, 6, 7, 8, 9, 10, 12, 14]
}

/// The highest power level that a board takes.
pub const MAX_LEVEL: u8 = 14;

impl Power {
    /// The power that a dial position asks for.
    pub open spec fn spec_from_dial(position: u8) -> Power {
        if 1 <= position <= 9 {
            Power::Level(dial_levels()[position - 1])
        } else if position == 10 {
            Power::Boost
        } else {
            Power::Standby
        }
    }

    /// Maps a raw dial position (0 to 11) to a power setting.
    pub fn from_dial(position: u8) -> (r: Power)
        ensures
            r == Power::spec_from_dial(position),
    {
        match position {
            0 => Power::Standby,
            1 => Power::Level(3),
            2 => Power::Level(5),
            3 => Power::Level(6),
            4 => Power::Level(7),
            5 => Power::Level(8),
            6 => Power::Level(9),
            7 => Power::Level(10),
            8 => Power::Level(12),
            9 => Power::Level(14),
            10 => Power::Boost,
            _ => Power::Standby,
        }
    }

    /// The byte that stands for the setting on the bus. A level out of range
    /// is sent as the highest one.
    pub open spec fn spec_as_raw(self) -> u8 {
        match self {
            Power::Off => 0x00,
            Power::Standby => 0x61,
            Power::Level(n) => if 1 <= n <= MAX_LEVEL {
                n
            } else {
                MAX_LEVEL
            },
            Power::Boost => 0xF1,
        }
    }

    pub fn as_raw(self) -> (r: u8)
        ensures
            r == self.spec_as_raw(),
    {
        match self {
            Power::Off => 0x00,
            Power::Standby => 0x61,
            Power::Level(n) => if 1 <= n && n <= MAX_LEVEL {
                n
            } else {
                MAX_LEVEL
            },
            Power::Boost => 0xF1,
        }
    }
}

/// No dial position switches a burner off: the lowest that a dial asks for is
/// standby, and it does so at 0 and above 10 only.
pub proof fn dial_never_switches_off(position: u8)
    ensures
        Power::spec_from_dial(position) != Power::Off,
        Power::spec_from_dial(position) == Power::Standby <==> position == 0 || position > 10,
{
}

/// Every level that a dial asks for is within the range of the boards, and is
/// sent to them as it is.
pub proof fn dial_levels_in_range(position: u8)
    ensures
        Power::spec_from_dial(position) matches Power::Level(n) ==> 1 <= n <= MAX_LEVEL
            && Power::Level(n).spec_as_raw() == n,
{
}

/// Turning a dial further, from position 1 up to 10, asks for more: the level
/// rises up to position 9, and boost at 10 is above all levels, as the bytes
/// that are sent show.
pub proof fn dial_levels_increase(low: u8, high: u8)
    requires
        1 <= low < high <= 10,
    ensures
        Power::spec_from_dial(low).spec_as_raw() < Power::spec_from_dial(high).spec_as_raw(),
        high <= 9 ==> Power::spec_from_dial(low)->Level_0 < Power::spec_from_dial(high)->Level_0,
        high == 10 ==> Power::spec_from_dial(high) == Power::Boost,
{
}

/// The bytes that settings are sent as keep off, standby, boost and the levels
/// apart, and different levels in range too.
pub proof fn raw_settings_distinct(p: Power, q: Power)
    requires
        p.spec_as_raw() == q.spec_as_raw(),
    ensures
        p == q || (p is Level && q is Level && p.spec_as_raw() == MAX_LEVEL),
{
}

/// Two burners share neither their power command nor their temperature
/// registers: board and sub-command together tell them apart.
pub proof fn burners_addressed_apart(a: Burner, b: Burner)
    requires
        a != b,
    ensures
        a.spec_node() != b.spec_node() || a.spec_power_subcmd() != b.spec_power_subcmd(),
        a.spec_node() != b.spec_node() || a.spec_temperature_subcmd()
            != b.spec_temperature_subcmd(),
{
}

/// Nodes do not share IDs, neither within one kind of ID nor across kinds.
pub proof fn node_ids_distinct(a: Node, b: Node)
    ensures
        a.spec_ready_id() == b.spec_ready_id() ==> a == b,
        a.spec_ack_id() == b.spec_ack_id() ==> a == b,
        a.spec_command_id() == b.spec_command_id() ==> a == b,
        a.spec_query_id() == b.spec_query_id() ==> a == b,
        a.spec_ready_id() < b.spec_ack_id() < a.spec_command_id() < b.spec_query_id(),
{
}

/// The dial's scale: position 1 asks for level 3, and each further position up
/// to 9 raises the level by one, or by two on the way from 1 to 2 and from 7 on.
/// Position 10 asks for boost, and every other position for standby.
pub proof fn dial_scale(position: u8)
    ensures
        Power::spec_from_dial(1) == Power::Level(3),
        1 <= position <= 8 ==> {
            &&& Power::spec_from_dial(position) matches Power::Level(low)
            &&& Power::spec_from_dial((position + 1) as u8) matches Power::Level(high)
            &&& high - low == (if position == 1 || position >= 7 {
                2int
            } else {
                1
            })
        },
        Power::spec_from_dial(position) == Power::Boost <==> position == 10,
        !(1 <= position <= 10) ==> Power::spec_from_dial(position) == Power::Standby,
{
}

/// Levels from 1 to 14 are their own bytes, and any other level is sent as 14.
/// Off, standby and boost have bytes of their own.
pub proof fn raw_bytes(n: u8)
    ensures
        1 <= n <= 14 ==> Power::Level(n).spec_as_raw() == n,
        n == 0 || n > 14 ==> Power::Level(n).spec_as_raw() == 14,
        Power::Off.spec_as_raw() == 0x00,
        Power::Standby.spec_as_raw() == 0x61,
        Power::Boost.spec_as_raw() == 0xF1,
{
}

/// The IDs of the boards on the bus: every node takes commands 0x80 above the
/// ID on which it acknowledges, queries 0x100 above its commands, and reports
/// ready 0x100 below its acknowledgements, which are on 0x609, 0x613 and 0x619.
pub proof fn node_addresses(node: Node)
    ensures
        node.spec_ack_id() == match node {
            Node::LeftCoil => 0x609u16,
            Node::RightCoil => 0x613u16,
            Node::Psu => 0x619u16,
        },
        node.spec_offset() == node.spec_ack_id() - 0x600,
        node.spec_command_id() == node.spec_ack_id() + 0x80,
        node.spec_query_id() == node.spec_command_id() + 0x100,
        node.spec_ready_id() == node.spec_ack_id() - 0x100,
{
}

/// The left coil drives the left burner alone; the right coil drives the middle
/// burner as its first zone and the right one as its second, with the next
/// higher sub-commands.
pub proof fn burner_addresses()
    ensures
        Burner::Left.spec_node() == Node::LeftCoil,
        Burner::Middle.spec_node() == Node::RightCoil,
        Burner::Right.spec_node() == Node::RightCoil,
        Burner::Left.spec_power_subcmd() == 0x04,
        Burner::Middle.spec_power_subcmd() == Burner::Left.spec_power_subcmd(),
        Burner::Right.spec_power_subcmd() == Burner::Middle.spec_power_subcmd() + 1,
        forall|b: Burner| #[trigger]
            b.spec_temperature_subcmd() == b.spec_power_subcmd() - 1,
{
}

} // verus!
