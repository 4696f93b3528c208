//! The three MCP23017 port expanders, to which the rotary dials are connected.

use vstd::prelude::*;

use crate::burner::Burner;
use crate::i2c::Write;
use crate::time::Duration;

verus! {

pub const GPINTENA: u8 = 0x04;

pub const IOCON: u8 = 0x0A;

pub const GPPUA: u8 = 0x0C;

pub const GPIOA: u8 = 0x12;

/// The I2C address of the expander that a burner's dial is connected to.
pub open spec fn spec_address(burner: Burner) -> u8 {
    match burner {
        Burner::Left => 0x20,
        Burner::Middle => 0x21,
        Burner::Right => 0x22,
    }
}

pub fn address(burner: Burner) -> (r: u8)
    ensures
        r == spec_address(burner),
{
    match burner {
        Burner::Left => 0x20,
        Burner::Middle => 0x21,
        Burner::Right => 0x22,
    }
}

/// The bytes that set up one expander, write by write.
pub open spec fn setup() -> Seq<Seq<u8>> {
    seq![
        // Mirrored, open-drain interrupts.
        seq![IOCON, 0x44u8],
        // Pull-ups on all pins.
        seq![GPPUA, 0xFFu8, 0xFFu8],
        // Interrupts on all contacts, on make and break.
        seq![GPINTENA, 0x0Fu8, 0xFFu8],
    ]
}

/// Whether `w` is write `i` of setting up the expanders: one after the other,
/// from left to right, each with all of its writes.
pub open spec fn is_init_write(w: Write, i: int) -> bool {
    &&& w.wf()
    &&& w.addr == 0x20 + i / 3
    &&& w.data() == setup()[i % 3]
}

/// The write at position `i` of setting up the expanders, or none behind the
/// last one.
pub fn init_write(i: usize) -> (r: Option<Write>)
    ensures
        match r {
            Some(w) => i < 9 && is_init_write(w, i as int),
            None => i >= 9,
        },
{
    let burner = match i / 3 {
        0 => Burner::Left,
        1 => Burner::Middle,
        2 => Burner::Right,
        _ => return None,
    };
    let addr = address(burner);
    let w = match i % 3 {
        0 => Write::byte(addr, IOCON, 0b0100_0100),
        1 => Write::pair(addr, GPPUA, 0xFF, 0xFF),
        _ => Write::pair(addr, GPINTENA, 0b0000_1111, 0b1111_1111),
    };
    Some(w)
}

/// The position of each dial (0 to 11).
#[derive(Clone, Copy, PartialEq, Eq, Debug, Structural)]
pub struct SwitchState {
    pub left: u8,
    pub middle: u8,
    pub right: u8,
}

impl SwitchState {
    /// All dials at zero.
    pub open spec fn spec_off() -> SwitchState {
        SwitchState { left: 0, middle: 0, right: 0 }
    }

    pub fn off() -> (r: SwitchState)
        ensures
            r == SwitchState::spec_off(),
    {
        SwitchState { left: 0, middle: 0, right: 0 }
    }
}

impl Default for SwitchState {
    fn default() -> (r: SwitchState)
        ensures
            r == SwitchState::spec_off(),
    {
        SwitchState::off()
    }
}

/// Whether pin `i` is set in a mask.
pub open spec fn pin(mask: u16, i: u16) -> bool {
    (mask >> i) & 1 == 1
}

/// Whether contact `i` pulls its input low, where `a` and `b` are the levels
/// on the expander's two ports. Contacts 0 to 7 are on port B, 8 to 11 on port
/// A.
pub open spec fn closed_contact(a: u8, b: u8, i: u16) -> bool {
    if i < 8 {
        (b >> i) & 1 == 0
    } else {
        (a >> ((i - 8) as u16)) & 1 == 0
    }
}

/// Whether a mask shows the closed contacts of a dial, and those only.
pub open spec fn shows_contacts(mask: u16, a: u8, b: u8) -> bool {
    forall|i: u16| 0 <= i < 16 ==> #[trigger] pin(mask, i) == (i < 12 && closed_contact(a, b, i))
}

/// The mask with the closed contacts of a dial, and those only.
proof fn inverted_levels_show_contacts(a: u8, b: u8, r: u16)
    requires
        r == !(((a as u16 & 0x0F) << 8) | (b as u16)) & 0x0FFF,
    ensures
        shows_contacts(r, a, b),
        r == 0x0FFF - (a % 16 * 256 + b),
{
    assert(!(((a as u16 & 0x0F) << 8) | (b as u16)) & 0x0FFF == 0x0FFF - (a % 16 * 256 + b))
        by (bit_vector);
    assert forall|i: u16| 0 <= i < 16 implies #[trigger] pin(r, i) == (i < 12 && closed_contact(
        a,
        b,
        i,
    )) by {
        if i < 8 {
            assert((((!(((a as u16 & 0x0F) << 8) | (b as u16)) & 0x0FFF) >> i) & 1 == 1) == ((b
                >> i) & 1 == 0)) by (bit_vector)
                requires
                    i < 8,
            ;
        } else if i < 12 {
            let j: u16 = (i - 8) as u16;
            assert((((!(((a as u16 & 0x0F) << 8) | (b as u16)) & 0x0FFF) >> i) & 1 == 1) == ((a
                >> j) & 1 == 0)) by (bit_vector)
                requires
                    8 <= i < 12,
                    j == i - 8,
            ;
        } else {
            assert(((!(((a as u16 & 0x0F) << 8) | (b as u16)) & 0x0FFF) >> i) & 1 == 0)
                by (bit_vector)
                requires
                    12 <= i < 16,
            ;
        }
    }
}

/// The closed contacts of a dial, as a mask.
pub fn active_pins(a: u8, b: u8) -> (r: u16)
    ensures
        shows_contacts(r, a, b),
        r == 0x0FFF - (a % 16 * 256 + b),
{
    // The inputs are pulled up, so the levels are inverted.
    let r = !(((a as u16 & 0x0F) << 8) | (b as u16)) & 0x0FFF;
    proof {
        inverted_levels_show_contacts(a, b, r);
    }
    r
}

/// Whether pin `n` is set in a mask, and no other one is.
pub open spec fn only_pin(mask: u16, n: u8) -> bool {
    &&& n < 16
    &&& forall|i: u16| 0 <= i < 16 ==> (#[trigger] pin(mask, i) <==> i == n)
}

/// The position that a dial is in: the contact that is closed, if it is one
/// exactly.
pub open spec fn spec_decode_switch(raw: u16) -> Option<u8> {
    if exists|n: u8| only_pin(raw, n) {
        Some(choose|n: u8| only_pin(raw, n))
    } else {
        None
    }
}

proof fn only_pin_unique(raw: u16, m: u8, n: u8)
    requires
        only_pin(raw, m),
        only_pin(raw, n),
    ensures
        m == n,
{
    assert(pin(raw, m as u16));
}

proof fn only_pin_is_power(raw: u16, n: u8)
    requires
        n < 16,
    ensures
        only_pin(raw, n) <==> raw == 1u16 << n,
{
    let k = n as u16;
    if raw == 1u16 << n {
        assert forall|i: u16| 0 <= i < 16 implies (#[trigger] pin(raw, i) <==> i == n) by {
            assert(((raw >> i) & 1 == 1) == (i == k)) by (bit_vector)
                requires
                    raw == 1u16 << k,
                    i < 16,
                    k < 16,
            ;
        }
    }
    if only_pin(raw, n) {
        assert(raw == 1u16 << k) by (bit_vector)
            requires
                k < 16,
                pin(raw, 0) == (0u16 == k),
                pin(raw, 1) == (1u16 == k),
                pin(raw, 2) == (2u16 == k),
                pin(raw, 3) == (3u16 == k),
                pin(raw, 4) == (4u16 == k),
                pin(raw, 5) == (5u16 == k),
                pin(raw, 6) == (6u16 == k),
                pin(raw, 7) == (7u16 == k),
                pin(raw, 8) == (8u16 == k),
                pin(raw, 9) == (9u16 == k),
                pin(raw, 10) == (10u16 == k),
                pin(raw, 11) == (11u16 == k),
                pin(raw, 12) == (12u16 == k),
                pin(raw, 13) == (13u16 == k),
                pin(raw, 14) == (14u16 == k),
                pin(raw, 15) == (15u16 == k),
        ;
    }
}

pub fn decode_switch(raw: u16) -> (r: Option<u8>)
    ensures
        r == spec_decode_switch(raw),
        match r {
            Some(n) => only_pin(raw, n),
            None => forall|n: u8| !only_pin(raw, n),
        },
        forall|n: u8| n < 16 && raw == #[trigger] (1u16 << n) ==> r == Some(n),
{
    proof {
        assert forall|n: u8| n < 16 && raw == #[trigger] (1u16 << n) implies only_pin(raw, n) by {
            only_pin_is_power(raw, n);
        }
    }
    let n = raw.trailing_zeros() as u8;
    if n < 16 && raw == 1u16 << n {
        proof {
            only_pin_is_power(raw, n);
            assert forall|m: u8| only_pin(raw, m) implies m == n by {
                only_pin_unique(raw, m, n);
            }
        }
        Some(n)
    } else {
        proof {
            assert forall|m: u8| !only_pin(raw, m) by {
                if only_pin(raw, m) {
                    let z = n as u16;
                    let k = m as u16;
                    only_pin_is_power(raw, m);
                    vstd::std_specs::bits::axiom_u16_trailing_zeros(raw);
                    assert(raw != 0) by (bit_vector)
                        requires
                            raw == 1u16 << k,
                            k < 16,
                    ;
                    assert(pin(raw, z));
                }
            }
        }
        None
    }
}

/// The dials after their contacts were read: a dial with exactly one closed
/// contact is at that position, any other one is where it was.
pub open spec fn dials_after(
    before: SwitchState,
    left_raw: u16,
    middle_raw: u16,
    right_raw: u16,
) -> SwitchState {
    SwitchState {
        left: match spec_decode_switch(left_raw) {
            Some(n) => n,
            None => before.left,
        },
        middle: match spec_decode_switch(middle_raw) {
            Some(n) => n,
            None => before.middle,
        },
        right: match spec_decode_switch(right_raw) {
            Some(n) => n,
            None => before.right,
        },
    }
}

/// What reading the contacts of the dials reports.
pub open spec fn spec_read_switches(
    prev: Option<SwitchState>,
    left_raw: u16,
    middle_raw: u16,
    right_raw: u16,
) -> Option<SwitchState> {
    let before = match prev {
        Some(p) => p,
        None => SwitchState::spec_off(),
    };
    let after = dials_after(before, left_raw, middle_raw, right_raw);
    if after != before {
        Some(after)
    } else {
        None
    }
}

/// The dials, if reading their contacts shows a change. Nothing known so far
/// means all dials at zero.
pub fn read_switches(
    prev: Option<SwitchState>,
    left_raw: u16,
    middle_raw: u16,
    right_raw: u16,
) -> (r: Option<SwitchState>)
    ensures
        ({
            let before = match prev {
                Some(p) => p,
                None => SwitchState::spec_off(),
            };
            let after = dials_after(before, left_raw, middle_raw, right_raw);
            r == if after != before {
                Some(after)
            } else {
                None
            }
        }),
        r == spec_read_switches(prev, left_raw, middle_raw, right_raw),
{
    let before = match prev {
        Some(p) => p,
        None => SwitchState::off(),
    };
    let after = SwitchState {
        left: match decode_switch(left_raw) {
            Some(n) => n,
            None => before.left,
        },
        middle: match decode_switch(middle_raw) {
            Some(n) => n,
            None => before.middle,
        },
        right: match decode_switch(right_raw) {
            Some(n) => n,
            None => before.right,
        },
    };
    if after != before {
        Some(after)
    } else {
        None
    }
}

/// The pause between two readings of the dials.
pub open spec fn spec_poll_pause() -> Duration {
    Duration { ticks: 1_000_000 }
}

pub fn poll_pause() -> (r: Duration)
    ensures
        r == spec_poll_pause(),
{
    Duration::from_secs(1)
}

/// How many pauses come before the next reading: one, and another one after a
/// reading that failed, unless it was the first.
pub fn pauses_after(first: bool, failed: bool) -> (r: u8)
    ensures
        r == (if failed && !first {
            2
        } else {
            1int
        }),
{
    if failed && !first {
        2
    } else {
        1
    }
}

/// A dial with one closed contact, out of its twelve, is read as being in that
/// position.
pub proof fn dial_position_is_read(a: u8, b: u8, mask: u16, n: u8)
    requires
        n < 12,
        forall|i: u16| 0 <= i < 12 ==> (#[trigger] closed_contact(a, b, i) <==> i == n),
        shows_contacts(mask, a, b),
    ensures
        spec_decode_switch(mask) == Some(n),
{
    assert(only_pin(mask, n));
    only_pin_unique(mask, n, choose|m: u8| only_pin(mask, m));
}

/// What is read of a dial's contacts is never a position above 11.
pub proof fn dial_position_in_range(a: u8, b: u8, mask: u16)
    requires
        shows_contacts(mask, a, b),
    ensures
        spec_decode_switch(mask) matches Some(n) ==> n < 12,
{
    if exists|m: u8| only_pin(mask, m) {
        let m = choose|m: u8| only_pin(mask, m);
        assert(pin(mask, m as u16));
    }
}

/// Reading the same contacts again shows no change.
pub proof fn rereading_changes_nothing(
    before: SwitchState,
    left_raw: u16,
    middle_raw: u16,
    right_raw: u16,
)
    ensures
        ({
            let after = dials_after(before, left_raw, middle_raw, right_raw);
            dials_after(after, left_raw, middle_raw, right_raw) == after
        }),
{
}

/// Each dial has an expander of its own, at addresses that follow each other
/// from left to right, and all are set up alike: interrupts mirrored and
/// open-drain, pull-ups on all pins, interrupts on the twelve contacts.
pub proof fn expanders_set_up_alike(w: Write, dial: int, step: int)
    requires
        0 <= dial < 3,
        0 <= step < 3,
        is_init_write(w, 3 * dial + step),
    ensures
        w.addr == 0x20 + dial,
        w.data() == (if step == 0 {
            seq![0x0Au8, 0x44]
        } else if step == 1 {
            seq![0x0Cu8, 0xFF, 0xFF]
        } else {
            seq![0x04u8, 0x0F, 0xFF]
        }),
        spec_address(Burner::Left) == 0x20,
        spec_address(Burner::Middle) == 0x21,
        spec_address(Burner::Right) == 0x22,
{
    assert(w.data() =~= (if step == 0 {
        seq![0x0Au8, 0x44]
    } else if step == 1 {
        seq![0x0Cu8, 0xFF, 0xFF]
    } else {
        seq![0x04u8, 0x0F, 0xFF]
    }));
}

proof fn same_pins_same_mask(x: u16, y: u16)
    requires
        forall|i: u16| 0 <= i < 16 ==> #[trigger] pin(x, i) == pin(y, i),
    ensures
        x == y,
{
    assert(x == y) by (bit_vector)
        requires
            pin(x, 0) == pin(y, 0),
            pin(x, 1) == pin(y, 1),
            pin(x, 2) == pin(y, 2),
            pin(x, 3) == pin(y, 3),
            pin(x, 4) == pin(y, 4),
            pin(x, 5) == pin(y, 5),
            pin(x, 6) == pin(y, 6),
            pin(x, 7) == pin(y, 7),
            pin(x, 8) == pin(y, 8),
            pin(x, 9) == pin(y, 9),
            pin(x, 10) == pin(y, 10),
            pin(x, 11) == pin(y, 11),
            pin(x, 12) == pin(y, 12),
            pin(x, 13) == pin(y, 13),
            pin(x, 14) == pin(y, 14),
            pin(x, 15) == pin(y, 15),
    ;
}

/// The mask of the closed contacts and the levels on the two ports add up to
/// all twelve contacts: port B has the lower eight, the low half of port A the
/// others.
pub proof fn mask_complements_levels(mask: u16, a: u8, b: u8)
    requires
        shows_contacts(mask, a, b),
    ensures
        mask + 256 * (a % 16) + b == 0x0FFF,
{
    let r = !(((a as u16 & 0x0F) << 8) | (b as u16)) & 0x0FFF;
    inverted_levels_show_contacts(a, b, r);
    assert forall|i: u16| 0 <= i < 16 implies #[trigger] pin(mask, i) == pin(r, i) by {}
    same_pins_same_mask(mask, r);
}

/// A mask is read as position `n` if and only if contact `n` is the one bit in
/// it.
pub proof fn one_contact_is_a_position(raw: u16, n: u8)
    ensures
        spec_decode_switch(raw) == Some(n) <==> n < 16 && raw == 1u16 << n,
{
    if n < 16 {
        only_pin_is_power(raw, n);
        if only_pin(raw, n) {
            only_pin_unique(raw, n, choose|m: u8| only_pin(raw, m));
        }
    }
}

/// Where each dial is once its contacts were read: at `n` if exactly contact `n`
/// of it is closed, wherever it was before, and where it was if there is no such
/// contact. No dial depends on the contacts or the position of another.
pub proof fn dials_follow_their_contacts(
    before: SwitchState,
    left_raw: u16,
    middle_raw: u16,
    right_raw: u16,
    n: u8,
)
    requires
        n < 16,
    ensures
        ({
            let after = dials_after(before, left_raw, middle_raw, right_raw);
            &&& left_raw == 1u16 << n ==> after.left == n
            &&& middle_raw == 1u16 << n ==> after.middle == n
            &&& right_raw == 1u16 << n ==> after.right == n
            &&& (forall|m: u8| m < 16 ==> left_raw != #[trigger] (1u16 << m)) ==> after.left
                == before.left
            &&& (forall|m: u8| m < 16 ==> middle_raw != #[trigger] (1u16 << m)) ==> after.middle
                == before.middle
            &&& (forall|m: u8| m < 16 ==> right_raw != #[trigger] (1u16 << m)) ==> after.right
                == before.right
        }),
{
    one_contact_is_a_position(left_raw, n);
    one_contact_is_a_position(middle_raw, n);
    one_contact_is_a_position(right_raw, n);
    if let Some(m) = spec_decode_switch(left_raw) {
        one_contact_is_a_position(left_raw, m);
    }
    if let Some(m) = spec_decode_switch(middle_raw) {
        one_contact_is_a_position(middle_raw, m);
    }
    if let Some(m) = spec_decode_switch(right_raw) {
        one_contact_is_a_position(right_raw, m);
    }
}

/// A dial that shows one closed contact other than where it was is reported, and
/// what is reported has it there. Dials that were not known before count as
/// being at zero.
pub proof fn turned_dials_are_reported(
    prev: Option<SwitchState>,
    left_raw: u16,
    middle_raw: u16,
    right_raw: u16,
    n: u8,
)
    requires
        n < 16,
    ensures
        ({
            let r = spec_read_switches(prev, left_raw, middle_raw, right_raw);
            let before = match prev {
                Some(p) => p,
                None => SwitchState { left: 0, middle: 0, right: 0 },
            };
            &&& left_raw == 1u16 << n && n != before.left ==> r is Some && r->0.left == n
            &&& middle_raw == 1u16 << n && n != before.middle ==> r is Some && r->0.middle == n
            &&& right_raw == 1u16 << n && n != before.right ==> r is Some && r->0.right == n
        }),
{
    dials_follow_their_contacts(
        match prev {
            Some(p) => p,
            None => SwitchState::spec_off(),
        },
        left_raw,
        middle_raw,
        right_raw,
        n,
    );
}

/// A report holds every dial: one that shows a single closed contact at it, any
/// other one where it was. Something is reported only if some dial has moved.
pub proof fn reports_hold_all_dials(
    prev: Option<SwitchState>,
    left_raw: u16,
    middle_raw: u16,
    right_raw: u16,
    n: u8,
)
    requires
        n < 16,
        spec_read_switches(prev, left_raw, middle_raw, right_raw) is Some,
    ensures
        ({
            let after = spec_read_switches(prev, left_raw, middle_raw, right_raw)->0;
            let before = match prev {
                Some(p) => p,
                None => SwitchState { left: 0, middle: 0, right: 0 },
            };
            &&& after.left != before.left || after.middle != before.middle || after.right
                != before.right
            &&& left_raw == 1u16 << n ==> after.left == n
            &&& middle_raw == 1u16 << n ==> after.middle == n
            &&& right_raw == 1u16 << n ==> after.right == n
            &&& (forall|m: u8| m < 16 ==> left_raw != #[trigger] (1u16 << m)) ==> after.left
                == before.left
            &&& (forall|m: u8| m < 16 ==> middle_raw != #[trigger] (1u16 << m)) ==> after.middle
                == before.middle
            &&& (forall|m: u8| m < 16 ==> right_raw != #[trigger] (1u16 << m)) ==> after.right
                == before.right
        }),
{
    dials_follow_their_contacts(
        match prev {
            Some(p) => p,
            None => SwitchState::spec_off(),
        },
        left_raw,
        middle_raw,
        right_raw,
        n,
    );
}

} // verus!
