//! What the boards can be asked, and what is read out of their answers.

use vstd::prelude::*;

use crate::burner::{Burner, Node};
use crate::exchange::{query, Error, Roundtrip};
use crate::message::Message;

verus! {

/// The answer to a query, or why there is none.
pub type Answer = Result<[u8; 8], Error>;

/// The last four bytes of a reply.
fn word(reply: [u8; 8]) -> (r: [u8; 4])
    ensures
        r@ == reply@.subrange(4, 8),
{
    let r = [reply[4], reply[5], reply[6], reply[7]];
    assert(r@ =~= reply@.subrange(4, 8));
    r
}

/// Whether `r` is what a four-byte register holds according to `answer`.
pub open spec fn is_word(answer: Answer, r: Result<[u8; 4], Error>) -> bool {
    match answer {
        Ok(reply) => r matches Ok(w) && w@ == reply@.subrange(4, 8),
        Err(e) => r == Err::<[u8; 4], Error>(e),
    }
}

/// The byte at `i` in an answer.
pub open spec fn byte_at(answer: Answer, i: int) -> Result<u8, Error> {
    match answer {
        Ok(reply) => Ok(reply@[i]),
        Err(e) => Err(e),
    }
}

/// The request for a serial number.
pub open spec fn spec_read_serial(node: Node) -> Roundtrip {
    crate::exchange::querying(node, seq![0x00u8, 0x03, 0x00])
}

/// The request for the power delivery state.
pub open spec fn spec_read_power_state(node: Node) -> Roundtrip {
    crate::exchange::querying(node, seq![0x02u8, 0x05, 0x00])
}

/// The request for a configuration.
pub open spec fn spec_read_config(node: Node) -> Roundtrip {
    crate::exchange::querying(node, seq![0x00u8, 0x04, 0x00])
}

/// The request for the temperature of a burner's circuit board.
pub open spec fn spec_read_pcb_temp(burner: Burner) -> Roundtrip {
    burner_query(burner, 0x02)
}

/// The request for the temperature of a burner's cooking surface.
pub open spec fn spec_read_surface_temp(burner: Burner) -> Roundtrip {
    burner_query(burner, 0x04)
}

/// The request for a burner's register with byte 1 = 0x03.
pub open spec fn spec_read_reg_x3(burner: Burner) -> Roundtrip {
    burner_query(burner, 0x03)
}

/// The request for a burner's register with byte 1 = 0x05.
pub open spec fn spec_read_reg_x5(burner: Burner) -> Roundtrip {
    burner_query(burner, 0x05)
}

/// The power delivery state in an answer.
pub open spec fn spec_power_state(answer: Answer) -> Result<u8, Error> {
    byte_at(answer, 4)
}

/// The temperature of the circuit board in an answer.
pub open spec fn spec_pcb_temp(answer: Answer) -> Result<u8, Error> {
    byte_at(answer, 5)
}

/// The temperature of the cooking surface in an answer.
pub open spec fn spec_surface_temp(answer: Answer) -> Result<u8, Error> {
    byte_at(answer, 5)
}

/// The byte of the register with byte 1 = 0x05 in an answer.
pub open spec fn spec_reg_x5(answer: Answer) -> Result<u8, Error> {
    byte_at(answer, 4)
}

/// Asks a node for its serial number.
pub fn read_serial(node: Node) -> (r: Roundtrip)
    ensures
        r == crate::exchange::querying(node, seq![0x00u8, 0x03, 0x00]),
        r == spec_read_serial(node),
        r.wf(),
{
    let reg = [0x00, 0x03, 0x00];
    assert(reg@ =~= seq![0x00u8, 0x03, 0x00]);
    query(node, &reg)
}

/// The serial number in the answer.
pub fn serial(answer: Answer) -> (r: Result<[u8; 4], Error>)
    ensures
        is_word(answer, r),
{
    match answer {
        Ok(reply) => Ok(word(reply)),
        Err(e) => Err(e),
    }
}

/// Asks a node whether it delivers power.
pub fn read_power_state(node: Node) -> (r: Roundtrip)
    ensures
        r == crate::exchange::querying(node, seq![0x02u8, 0x05, 0x00]),
        r == spec_read_power_state(node),
        r.wf(),
{
    let reg = [0x02, 0x05, 0x00];
    assert(reg@ =~= seq![0x02u8, 0x05, 0x00]);
    query(node, &reg)
}

/// The power delivery state in the answer.
pub fn power_state(answer: Answer) -> (r: Result<u8, Error>)
    ensures
        r == byte_at(answer, 4),
        r == spec_power_state(answer),
{
    match answer {
        Ok(reply) => Ok(reply[4]),
        Err(e) => Err(e),
    }
}

/// Asks a node for its configuration.
pub fn read_config(node: Node) -> (r: Roundtrip)
    ensures
        r == crate::exchange::querying(node, seq![0x00u8, 0x04, 0x00]),
        r == spec_read_config(node),
        r.wf(),
{
    let reg = [0x00, 0x04, 0x00];
    assert(reg@ =~= seq![0x00u8, 0x04, 0x00]);
    query(node, &reg)
}

/// The configuration in the answer.
pub fn config(answer: Answer) -> (r: Result<[u8; 4], Error>)
    ensures
        is_word(answer, r),
{
    match answer {
        Ok(reply) => Ok(word(reply)),
        Err(e) => Err(e),
    }
}

/// The request for register `register` in the temperature group of a burner.
pub open spec fn burner_query(burner: Burner, register: u8) -> Roundtrip {
    crate::exchange::querying(
        burner.spec_node(),
        seq![burner.spec_temperature_subcmd(), register, 0x00],
    )
}

fn query_burner(burner: Burner, register: u8) -> (r: Roundtrip)
    ensures
        r == burner_query(burner, register),
        r.wf(),
{
    let reg = [burner.temperature_subcmd(), register, 0x00];
    assert(reg@ =~= seq![burner.spec_temperature_subcmd(), register, 0x00]);
    query(burner.node(), &reg)
}

/// Asks for the temperature of a burner's circuit board.
pub fn read_pcb_temp(burner: Burner) -> (r: Roundtrip)
    ensures
        r == burner_query(burner, 0x02),
        r == spec_read_pcb_temp(burner),
        r.wf(),
{
    query_burner(burner, 0x02)
}

/// The temperature of the circuit board in the answer, in degrees Celsius.
pub fn pcb_temp(answer: Answer) -> (r: Result<u8, Error>)
    ensures
        r == byte_at(answer, 5),
        r == spec_pcb_temp(answer),
{
    match answer {
        Ok(reply) => Ok(reply[5]),
        Err(e) => Err(e),
    }
}

/// Asks for the temperature of a burner's cooking surface.
pub fn read_surface_temp(burner: Burner) -> (r: Roundtrip)
    ensures
        r == burner_query(burner, 0x04),
        r == spec_read_surface_temp(burner),
        r.wf(),
{
    query_burner(burner, 0x04)
}

/// The temperature of the cooking surface in the answer, in degrees Celsius.
pub fn surface_temp(answer: Answer) -> (r: Result<u8, Error>)
    ensures
        r == byte_at(answer, 5),
        r == spec_surface_temp(answer),
{
    match answer {
        Ok(reply) => Ok(reply[5]),
        Err(e) => Err(e),
    }
}

/// Asks for a burner's register of unknown meaning with byte 1 = 0x03.
pub fn read_reg_x3(burner: Burner) -> (r: Roundtrip)
    ensures
        r == burner_query(burner, 0x03),
        r == spec_read_reg_x3(burner),
        r.wf(),
{
    query_burner(burner, 0x03)
}

/// The four bytes of that register in the answer.
pub fn reg_x3(answer: Answer) -> (r: Result<[u8; 4], Error>)
    ensures
        is_word(answer, r),
{
    match answer {
        Ok(reply) => Ok(word(reply)),
        Err(e) => Err(e),
    }
}

/// Asks for a burner's register of unknown meaning with byte 1 = 0x05.
pub fn read_reg_x5(burner: Burner) -> (r: Roundtrip)
    ensures
        r == burner_query(burner, 0x05),
        r == spec_read_reg_x5(burner),
        r.wf(),
{
    query_burner(burner, 0x05)
}

/// The byte of that register in the answer.
pub fn reg_x5(answer: Answer) -> (r: Result<u8, Error>)
    ensures
        r == byte_at(answer, 4),
        r == spec_reg_x5(answer),
{
    match answer {
        Ok(reply) => Ok(reply[4]),
        Err(e) => Err(e),
    }
}

/// What a procedure asks a node is what is asked here: the answers to both are
/// read alike.
pub proof fn procedures_ask_alike(node: Node, burner: Burner, register: u8)
    ensures
        crate::exchange::requesting(Message::ReadSerial(node)) == crate::exchange::querying(
            node,
            seq![0x00u8, 0x03, 0x00],
        ),
        crate::exchange::requesting(Message::ReadConfig(node)) == crate::exchange::querying(
            node,
            seq![0x00u8, 0x04, 0x00],
        ),
        crate::exchange::requesting(
            Message::ReadStatus(burner.spec_node(), burner.spec_temperature_subcmd(), register),
        ) == burner_query(burner, register),
{
}

/// What the requests ask: a status query of three bytes to the board in
/// question, the first of which is 3 for a burner that is its board's first
/// zone and 4 for the second.
pub proof fn requests_name_their_registers(node: Node, burner: Burner)
    ensures
        spec_read_serial(node).frame.id == 0x780 + node.spec_offset(),
        spec_read_serial(node).frame.data() == seq![0x00u8, 0x03, 0x00],
        spec_read_config(node).frame.id == spec_read_serial(node).frame.id,
        spec_read_config(node).frame.data() == seq![0x00u8, 0x04, 0x00],
        spec_read_power_state(node).frame.id == spec_read_serial(node).frame.id,
        spec_read_power_state(node).frame.data() == seq![0x02u8, 0x05, 0x00],
        ({
            let id = if burner == Burner::Left {
                0x789u16
            } else {
                0x793u16
            };
            let group = if burner == Burner::Right {
                0x04u8
            } else {
                0x03u8
            };
            &&& spec_read_pcb_temp(burner).frame.id == id
            &&& spec_read_pcb_temp(burner).frame.data() == seq![group, 0x02, 0x00]
            &&& spec_read_reg_x3(burner).frame.id == id
            &&& spec_read_reg_x3(burner).frame.data() == seq![group, 0x03, 0x00]
            &&& spec_read_surface_temp(burner).frame.id == id
            &&& spec_read_surface_temp(burner).frame.data() == seq![group, 0x04, 0x00]
            &&& spec_read_reg_x5(burner).frame.id == id
            &&& spec_read_reg_x5(burner).frame.data() == seq![group, 0x05, 0x00]
        }),
{
    let group = burner.spec_temperature_subcmd();
    crate::message::frame_carries_payload(node.spec_query_id(), seq![0x00u8, 0x03, 0x00]);
    crate::message::frame_carries_payload(node.spec_query_id(), seq![0x00u8, 0x04, 0x00]);
    crate::message::frame_carries_payload(node.spec_query_id(), seq![0x02u8, 0x05, 0x00]);
    let id = burner.spec_node().spec_query_id();
    crate::message::frame_carries_payload(id, seq![group, 0x02, 0x00]);
    crate::message::frame_carries_payload(id, seq![group, 0x03, 0x00]);
    crate::message::frame_carries_payload(id, seq![group, 0x04, 0x00]);
    crate::message::frame_carries_payload(id, seq![group, 0x05, 0x00]);
}

/// A board answers with the three bytes of the query, a 1, and the register. A
/// register of four bytes is read as it was sent, a temperature is the last of
/// the two bytes sent, and a state the only one. Without an answer the reading
/// is the error.
pub proof fn registers_are_read_back(
    query: Seq<u8>,
    data: Seq<u8>,
    reply: [u8; 8],
    e: Error,
    w: Result<[u8; 4], Error>,
)
    requires
        query.len() == 3,
        1 <= data.len() <= 4,
        reply@ == crate::message::padded(query + seq![1u8] + data),
    ensures
        data.len() == 4 && is_word(Ok(reply), w) ==> w is Ok && w->Ok_0@ == data,
        is_word(Err(e), w) ==> w == Err::<[u8; 4], Error>(e),
        data.len() == 2 ==> spec_surface_temp(Ok(reply)) == Ok::<u8, Error>(data[1]),
        data.len() == 2 ==> spec_pcb_temp(Ok(reply)) == Ok::<u8, Error>(data[1]),
        spec_power_state(Ok(reply)) == Ok::<u8, Error>(data[0]),
        spec_reg_x5(Ok(reply)) == Ok::<u8, Error>(data[0]),
        spec_surface_temp(Err(e)) == Err::<u8, Error>(e),
        spec_pcb_temp(Err(e)) == Err::<u8, Error>(e),
        spec_power_state(Err(e)) == Err::<u8, Error>(e),
        spec_reg_x5(Err(e)) == Err::<u8, Error>(e),
{
    if data.len() == 4 && is_word(Ok(reply), w) {
        assert(w->Ok_0@ =~= data);
    }
}

} // verus!
