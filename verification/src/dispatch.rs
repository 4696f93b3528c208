//! What a frame that comes in from the bus means.

use vstd::prelude::*;

use crate::burner::Node;
use crate::exchange::Roundtrip;
use crate::message::pad;
use crate::pan::PanState;
use crate::time::Instant;

verus! {

/// The identifier of a received frame.
#[derive(Clone, Copy, PartialEq, Eq, Debug, Structural)]
pub enum FrameId {
    /// 11 bits.
    Standard(u16),
    /// 29 bits. Nothing on this bus uses them.
    Extended(u32),
}

/// Which frame is taken for a reply: the next one with identifier `id`. When
/// no reply is expected, `id` is 0; a frame with identifier 0 then counts as a
/// reply that nobody waits for.
#[derive(Clone, Copy, PartialEq, Eq, Debug, Structural)]
pub struct Pending {
    pub id: u16,
}

impl Pending {
    /// Whether a frame with this identifier is taken for the reply.
    pub open spec fn matches_id(self, id: FrameId) -> bool {
        id == FrameId::Standard(self.id)
    }

    /// What is expected after a frame with this identifier.
    pub open spec fn seen(self, id: FrameId) -> Pending {
        if self.matches_id(id) {
            Pending { id: 0 }
        } else {
            self
        }
    }

    /// What is expected after frames with these identifiers.
    pub open spec fn seen_all(self, ids: Seq<FrameId>) -> Pending
        decreases ids.len(),
    {
        if ids.len() == 0 {
            self
        } else {
            self.seen_all(ids.drop_last()).seen(ids.last())
        }
    }

    /// No reply is expected.
    pub fn none() -> (r: Pending)
        ensures
            r.id == 0,
    {
        Pending { id: 0 }
    }

    /// Expects a reply with identifier `id`.
    pub fn expect(&mut self, id: u16)
        ensures
            final(self).id == id,
    {
        self.id = id;
    }

    /// Expects no reply any more.
    pub fn forget(&mut self)
        ensures
            final(self).id == 0,
    {
        self.id = 0;
    }

    /// Whether a frame with identifier `id` is the reply. One reply is taken
    /// only.
    pub fn claim(&mut self, id: u16) -> (r: bool)
        ensures
            r == old(self).matches_id(FrameId::Standard(id)),
            *final(self) == old(self).seen(FrameId::Standard(id)),
    {
        if self.id == id {
            self.id = 0;
            true
        } else {
            false
        }
    }
}

/// What a received frame brings about.
#[derive(Clone, Copy, PartialEq, Eq, Debug)]
pub struct Dispatched {
    /// The reply to the request under way.
    pub reply: Option<[u8; 8]>,
    /// The pans, after a report on them.
    pub pans: Option<PanState>,
    /// The board that has reported ready.
    pub ready: Option<Node>,
    /// The board that has acknowledged an announcement.
    pub ack: Option<Node>,
}

/// The node whose pan reports have identifier `id`.
pub open spec fn pan_reporter(id: u16) -> Option<Node> {
    if id == 0x489 {
        Some(Node::LeftCoil)
    } else if id == 0x493 {
        Some(Node::RightCoil)
    } else {
        None
    }
}

/// The zone that a pan report names, 0 for none.
pub open spec fn pan_report(id: u16, data: Seq<u8>) -> Option<u8> {
    if pan_reporter(id) is Some && data.len() >= 3 && data[0] == 0x02 && data[1] == 0x05 {
        Some(data[2])
    } else {
        None
    }
}

/// The pans after a board reported one on `zone`. The left coil has the left
/// burner for its only zone; the right coil has the middle burner for zone 1
/// and the right one for zone 2.
pub open spec fn pans_after(pans: PanState, reporter: Node, zone: u8, now: Instant) -> PanState {
    if reporter == Node::LeftCoil {
        PanState { left: pans.left.updated(zone == 1, now), ..pans }
    } else {
        PanState {
            middle: pans.middle.updated(zone == 1, now),
            right: pans.right.updated(zone == 2, now),
            ..pans
        }
    }
}

/// The node with ready ID `id`.
pub open spec fn ready_node(id: u16) -> Option<Node> {
    if id == Node::LeftCoil.spec_ready_id() {
        Some(Node::LeftCoil)
    } else if id == Node::RightCoil.spec_ready_id() {
        Some(Node::RightCoil)
    } else if id == Node::Psu.spec_ready_id() {
        Some(Node::Psu)
    } else {
        None
    }
}

/// The node that acknowledges an announcement with this frame.
pub open spec fn ack_node(id: u16, data: Seq<u8>) -> Option<Node> {
    if data.len() < 2 || data[1] != 0x0B {
        None
    } else if id == Node::LeftCoil.spec_ack_id() {
        Some(Node::LeftCoil)
    } else if id == Node::RightCoil.spec_ack_id() {
        Some(Node::RightCoil)
    } else if id == Node::Psu.spec_ack_id() {
        Some(Node::Psu)
    } else {
        None
    }
}

/// Whether `r` is what a standard frame brings about that is no reply.
pub open spec fn is_report(
    r: Dispatched,
    pans: PanState,
    id: u16,
    data: Seq<u8>,
    now: Instant,
) -> bool {
    &&& r.reply is None
    &&& r.pans == match pan_report(id, data) {
        Some(zone) => Some(pans_after(pans, pan_reporter(id)->0, zone, now)),
        None => None,
    }
    &&& r.ready == ready_node(id)
    &&& r.ack == ack_node(id, data)
}

fn find_ready(id: u16) -> (r: Option<Node>)
    ensures
        r == ready_node(id),
{
    match id {
        0x509 => Some(Node::LeftCoil),
        0x513 => Some(Node::RightCoil),
        0x519 => Some(Node::Psu),
        _ => None,
    }
}

fn find_ack(id: u16, data: &[u8]) -> (r: Option<Node>)
    ensures
        r == ack_node(id, data@),
{
    if data.len() >= 2 && data[1] == 0x0B {
        match id {
            0x609 => Some(Node::LeftCoil),
            0x613 => Some(Node::RightCoil),
            0x619 => Some(Node::Psu),
            _ => None,
        }
    } else {
        None
    }
}

/// Whether `r` is what a frame received at `now` brings about.
pub open spec fn brings_about(
    pending: Pending,
    pans: Option<PanState>,
    id: FrameId,
    data: Seq<u8>,
    now: Instant,
    r: Dispatched,
) -> bool {
    match id {
        FrameId::Extended(_) => r.reply is None && r.pans is None && r.ready is None && r.ack
            is None,
        FrameId::Standard(raw) => if pending.matches_id(id) {
            &&& r.reply matches Some(reply) && reply@ == crate::message::padded(data)
            &&& r.pans is None && r.ready is None && r.ack is None
        } else {
            is_report(
                r,
                match pans {
                    Some(p) => p,
                    None => PanState::spec_absent(),
                },
                raw,
                data,
                now,
            )
        },
    }
}

/// Says what a frame received at `now` brings about. `pans` is what is known
/// of the pans so far; nothing known means no pans. A reply brings about
/// nothing else, and a frame with an extended identifier nothing at all.
pub fn dispatch(
    pending: &mut Pending,
    pans: Option<PanState>,
    id: FrameId,
    data: &[u8],
    now: Instant,
) -> (r: Dispatched)
    requires
        id is Standard ==> data@.len() <= 8,
    ensures
        *final(pending) == old(pending).seen(id),
        match id {
            FrameId::Extended(_) => r.reply is None && r.pans is None && r.ready is None && r.ack
                is None,
            FrameId::Standard(raw) => if old(pending).matches_id(id) {
                &&& r.reply matches Some(reply) && reply@ == crate::message::padded(data@)
                &&& r.pans is None && r.ready is None && r.ack is None
            } else {
                is_report(
                    r,
                    match pans {
                        Some(p) => p,
                        None => PanState::spec_absent(),
                    },
                    raw,
                    data@,
                    now,
                )
            },
        },
        brings_about(*old(pending), pans, id, data@, now, r),
{
    let raw = match id {
        FrameId::Standard(raw) => raw,
        FrameId::Extended(_) => {
            return Dispatched { reply: None, pans: None, ready: None, ack: None };
        },
    };

    let reply = pad(data);
    if pending.claim(raw) {
        return Dispatched { reply: Some(reply), pans: None, ready: None, ack: None };
    }

    let mut reported = None;
    if (raw == 0x489 || raw == 0x493) && data.len() >= 3 && data[0] == 0x02 && data[1] == 0x05 {
        let zone = data[2];
        let mut state = match pans {
            Some(p) => p,
            None => PanState::default(),
        };
        if raw == 0x489 {
            state.left.update(zone == 0x01, now);
        } else {
            state.middle.update(zone == 0x01, now);
            state.right.update(zone == 0x02, now);
        }
        reported = Some(state);
    }

    Dispatched { reply: None, pans: reported, ready: find_ready(raw), ack: find_ack(raw, data) }
}

/// A reply is delivered once: after a frame was taken for a reply, a second
/// one with the same identifier is not, unless the identifier is 0.
pub proof fn reply_taken_once(pending: Pending, id: FrameId)
    requires
        pending.matches_id(id),
        id != FrameId::Standard(0),
    ensures
        !pending.seen(id).matches_id(id),
{
}

/// Frames under other identifiers do not get between a request and its reply:
/// whichever come first, the frame under the expected identifier is taken for
/// the reply.
pub proof fn reply_found_among_others(trip: Roundtrip, others: Seq<FrameId>)
    requires
        trip.wf(),
        !others.contains(FrameId::Standard(trip.spec_expected())),
    ensures
        ({
            let pending = Pending { id: trip.spec_expected() };
            &&& pending.seen_all(others) == pending
            &&& pending.seen_all(others).matches_id(FrameId::Standard(trip.spec_expected()))
        }),
    decreases others.len(),
{
    if others.len() > 0 {
        assert(others.contains(others.last()));
        assert forall|id: FrameId| others.drop_last().contains(id) implies others.contains(id) by {
            let i = others.drop_last().index_of(id);
            assert(others[i] == id);
        }
        reply_found_among_others(trip, others.drop_last());
    }
}

/// Whether at most one of the right coil's two burners has a pan.
pub open spec fn one_pan_on_the_right(pans: PanState) -> bool {
    !(pans.middle is Present && pans.right is Present)
}

/// At most one of the right coil's two burners has a pan at a time: it is so
/// without any pans, every report of the right coil sees to it, and no report
/// of the left coil changes it.
pub proof fn right_coil_has_one_pan(pans: PanState, reporter: Node, zone: u8, now: Instant)
    ensures
        one_pan_on_the_right(PanState::spec_absent()),
        one_pan_on_the_right(pans_after(pans, Node::RightCoil, zone, now)),
        one_pan_on_the_right(pans) ==> one_pan_on_the_right(
            pans_after(pans, reporter, zone, now),
        ),
{
}

/// A report of a board on its pans.
#[derive(Clone, Copy, PartialEq, Eq, Debug, Structural)]
pub struct PanReport {
    pub reporter: Node,
    pub zone: u8,
    pub now: Instant,
}

/// The pans after `reports`, one after the other, starting without any.
pub open spec fn pans_after_all(reports: Seq<PanReport>) -> PanState
    decreases reports.len(),
{
    if reports.len() == 0 {
        PanState::spec_absent()
    } else {
        let last = reports.last();
        pans_after(pans_after_all(reports.drop_last()), last.reporter, last.zone, last.now)
    }
}

/// However many reports come in, at most one of the right coil's two burners
/// has a pan.
pub proof fn right_coil_keeps_one_pan(reports: Seq<PanReport>)
    ensures
        one_pan_on_the_right(pans_after_all(reports)),
    decreases reports.len(),
{
    if reports.len() > 0 {
        right_coil_keeps_one_pan(reports.drop_last());
    }
}

/// A board's report leaves the pans of the other board alone.
pub proof fn report_stays_on_its_board(pans: PanState, zone: u8, now: Instant)
    ensures
        pans_after(pans, Node::LeftCoil, zone, now).middle == pans.middle,
        pans_after(pans, Node::LeftCoil, zone, now).right == pans.right,
        pans_after(pans, Node::RightCoil, zone, now).left == pans.left,
{
}

/// The reports of a node are told apart: its ready ID, its acknowledgement ID
/// and, for a coil, the ID of its pan reports are recognised, each for what it
/// is and for its node.
pub proof fn reports_recognised(node: Node, data: Seq<u8>)
    ensures
        ready_node(node.spec_ready_id()) == Some(node),
        ack_node(node.spec_ready_id(), data) is None,
        pan_reporter(node.spec_ready_id()) is None,
        data.len() >= 2 && data[1] == 0x0B ==> ack_node(node.spec_ack_id(), data) == Some(node),
        ready_node(node.spec_ack_id()) is None,
        pan_reporter(node.spec_ack_id()) is None,
        node != Node::Psu ==> {
            let pan_id = (0x480 + node.spec_offset()) as u16;
            &&& pan_reporter(pan_id) == Some(node)
            &&& ready_node(pan_id) is None
            &&& ack_node(pan_id, data) is None
        },
{
}

/// A frame is the reply if and only if it is a standard one under the expected
/// identifier. Then no reply is expected any more; any other frame leaves what
/// is expected as it is.
pub proof fn reply_is_told_by_identifier(pending: Pending, raw: u16, extended: u32)
    ensures
        pending.matches_id(FrameId::Standard(raw)) <==> raw == pending.id,
        !pending.matches_id(FrameId::Extended(extended)),
        pending.seen(FrameId::Standard(raw)).id == (if raw == pending.id {
            0
        } else {
            pending.id
        }),
        pending.seen(FrameId::Extended(extended)) == pending,
{
}

/// A pan report is a frame of at least three bytes that starts with 02 05, from
/// one of the coils, on 0x489 or 0x493; its third byte is the zone.
pub proof fn pan_reports_told_by_content(id: u16, data: Seq<u8>)
    ensures
        pan_report(id, data) is Some <==> (id == 0x489 || id == 0x493) && data.len() >= 3
            && data[0] == 0x02 && data[1] == 0x05,
        pan_report(id, data) matches Some(zone) ==> zone == data[2],
        pan_reporter(id) == Some(Node::LeftCoil) <==> id == 0x489,
        pan_reporter(id) == Some(Node::RightCoil) <==> id == 0x493,
        pan_reporter(id) != Some(Node::Psu),
{
}

/// After a report of a coil, a burner of that coil has a pan if and only if the
/// report names its zone: the left burner is zone 1 of the left coil, the middle
/// one zone 1 and the right one zone 2 of the right coil. A pan that stays keeps
/// its time, a new one has the time of the report, and the burners of the other
/// coil are as before.
pub proof fn report_places_pans(pans: PanState, zone: u8, now: Instant)
    ensures
        ({
            let after = pans_after(pans, Node::LeftCoil, zone, now);
            &&& after.left is Present <==> zone == 1
            &&& zone == 1 && pans.left is Present ==> after.left == pans.left
            &&& zone == 1 && pans.left is Absent ==> after.left->Present_0 == now
            &&& after.middle == pans.middle && after.right == pans.right
        }),
        ({
            let after = pans_after(pans, Node::RightCoil, zone, now);
            &&& after.middle is Present <==> zone == 1
            &&& zone == 1 && pans.middle is Present ==> after.middle == pans.middle
            &&& zone == 1 && pans.middle is Absent ==> after.middle->Present_0 == now
            &&& after.right is Present <==> zone == 2
            &&& zone == 2 && pans.right is Present ==> after.right == pans.right
            &&& zone == 2 && pans.right is Absent ==> after.right->Present_0 == now
            &&& after.left == pans.left
        }),
{
}

/// What a frame that is no reply brings about. It is a pan report only if it
/// comes from a coil and starts with 02 05, and then a burner of that coil has a
/// pan if and only if the third byte is the burner's zone, and the other
/// burners are left alone. It tells a node's readiness if and only if it comes
/// under the node's ready ID, and acknowledges an announcement if and only if it
/// comes under the node's acknowledgement ID with 0B for its second byte.
pub proof fn report_is_taken_in(
    r: Dispatched,
    pans: PanState,
    id: u16,
    data: Seq<u8>,
    now: Instant,
    node: Node,
)
    requires
        is_report(r, pans, id, data, now),
    ensures
        r.reply is None,
        r.pans is Some <==> (id == 0x489 || id == 0x493) && data.len() >= 3 && data[0] == 0x02
            && data[1] == 0x05,
        r.pans is Some && id == 0x489 ==> {
            &&& r.pans->0.left is Present <==> data[2] == 1
            &&& r.pans->0.left is Present ==> r.pans->0.left == (if pans.left is Present {
                pans.left
            } else {
                crate::pan::Pan::Present(now)
            })
            &&& r.pans->0.middle == pans.middle
            &&& r.pans->0.right == pans.right
        },
        r.pans is Some && id == 0x493 ==> {
            &&& r.pans->0.middle is Present <==> data[2] == 1
            &&& r.pans->0.middle is Present ==> r.pans->0.middle == (if pans.middle is Present {
                pans.middle
            } else {
                crate::pan::Pan::Present(now)
            })
            &&& r.pans->0.right is Present <==> data[2] == 2
            &&& r.pans->0.right is Present ==> r.pans->0.right == (if pans.right is Present {
                pans.right
            } else {
                crate::pan::Pan::Present(now)
            })
            &&& r.pans->0.left == pans.left
        },
        r.ready == Some(node) <==> id == 0x500 + node.spec_offset(),
        r.ack == Some(node) <==> id == 0x600 + node.spec_offset() && data.len() >= 2 && data[1]
            == 0x0B,
{
}

/// What a frame brings about in all. A standard frame under the expected
/// identifier is the reply, byte for byte with zeros behind, and nothing else.
/// An extended frame is nothing. Any other frame may tell of pans, which are
/// none as long as nothing is known of them, of readiness and of an
/// acknowledgement, each by its identifier and content.
pub proof fn frames_are_told_apart(
    pending: Pending,
    pans: Option<PanState>,
    id: FrameId,
    data: Seq<u8>,
    now: Instant,
    r: Dispatched,
    i: int,
    node: Node,
)
    requires
        data.len() <= 8,
        0 <= i < 8,
        brings_about(pending, pans, id, data, now, r),
    ensures
        r.reply is Some <==> id == FrameId::Standard(pending.id),
        r.reply is Some ==> r.reply->0@[i] == (if i < data.len() {
            data[i]
        } else {
            0
        }),
        r.reply is Some || id is Extended ==> r.pans is None && r.ready is None && r.ack is None,
        r.reply is None ==> {
            &&& r.ready == Some(node) <==> id == FrameId::Standard(
                (0x500 + node.spec_offset()) as u16,
            )
            &&& r.ack == Some(node) <==> id == FrameId::Standard(
                (0x600 + node.spec_offset()) as u16,
            ) && data.len() >= 2 && data[1] == 0x0B
            &&& r.pans is Some <==> (id == FrameId::Standard(0x489) || id == FrameId::Standard(
                0x493,
            )) && data.len() >= 3 && data[0] == 0x02 && data[1] == 0x05
        },
        r.pans is Some && id == FrameId::Standard(0x489) ==> {
            &&& r.pans->0.left is Present <==> data[2] == 1
            &&& pans is None ==> r.pans->0.middle is Absent && r.pans->0.right is Absent
            &&& pans is Some ==> r.pans->0.middle == pans->0.middle && r.pans->0.right
                == pans->0.right
        },
        r.pans is Some && id == FrameId::Standard(0x493) ==> {
            &&& r.pans->0.middle is Present <==> data[2] == 1
            &&& r.pans->0.right is Present <==> data[2] == 2
            &&& pans is None ==> r.pans->0.left is Absent
            &&& pans is Some ==> r.pans->0.left == pans->0.left
        },
{
}

} // verus!
