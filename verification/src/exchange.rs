//! Single steps on the bus: transmissions, waits, and the request that is
//! answered by a reply.

use vstd::prelude::*;

use crate::burner::{Burner, Node, Power};
use crate::message::{Frame, Message};
use crate::time::Duration;

verus! {

/// How the bus itself can misbehave.
#[derive(Clone, Copy, PartialEq, Eq, Debug, Structural)]
pub enum ErrorKind {
    Overrun,
    Bit,
    Stuff,
    Crc,
    Form,
    Acknowledge,
    Other,
}

/// Why the CAN peripheral refused or lost a frame.
#[derive(Clone, Copy, PartialEq, Eq, Debug, Structural)]
pub enum TwaiError {
    BusOff,
    TransmissionAborted,
    NonCompliantDlc(u8),
    InvalidDataLength(u8),
    EmbeddedHAL(ErrorKind),
}

/// Why a command to the cooktop failed.
#[derive(Clone, Copy, PartialEq, Eq, Debug, Structural)]
pub enum Error {
    /// A frame could not be sent in time.
    TxTimeout,
    /// Nothing came in time under this identifier.
    AckTimeout(u16),
    /// The CAN peripheral reported an error.
    Twai(TwaiError),
}

impl From<TwaiError> for Error {
    fn from(value: TwaiError) -> (r: Error) {
        Error::Twai(value)
    }
}

impl vstd::std_specs::convert::FromSpecImpl<TwaiError> for Error {
    open spec fn obeys_from_spec() -> bool {
        true
    }

    open spec fn from_spec(value: TwaiError) -> Error {
        Error::Twai(value)
    }
}

/// How long a transmission may take.
pub open spec fn spec_tx_timeout() -> Duration {
    Duration { ticks: 100_000 }
}

pub fn tx_timeout() -> (r: Duration)
    ensures
        r == spec_tx_timeout(),
{
    Duration::from_millis(100)
}

/// How long a board may take to answer.
pub open spec fn spec_ack_timeout() -> Duration {
    Duration { ticks: 500_000 }
}

pub fn ack_timeout() -> (r: Duration)
    ensures
        r == spec_ack_timeout(),
{
    Duration::from_millis(500)
}

/// Something to be done on the bus or on the clock.
#[derive(Clone, Copy, PartialEq, Eq, Debug)]
pub enum Action {
    /// Forget which boards have reported ready.
    ClearReady,
    /// Forget which boards have acknowledged an announcement.
    ClearAcks,
    /// Let time pass.
    Sleep(Duration),
    /// Send a frame, within a time limit.
    Transmit(Frame, Duration),
    /// Wait until a board has reported ready, within a time limit.
    AwaitReady(Node, Duration),
    /// Wait until a board has acknowledged an announcement, within a time
    /// limit.
    AwaitAck(Node, Duration),
    /// Drop any reply that is at hand, and take the next frame with this
    /// identifier for the reply.
    Expect(u16),
    /// Wait for the reply, within a time limit.
    AwaitReply(Duration),
    /// Take no frame for a reply any more.
    Forget,
}

/// What came of an action.
#[derive(Clone, Copy, PartialEq, Eq, Debug)]
pub enum Outcome {
    /// It was done, or what was awaited came.
    Done,
    /// The time limit passed first.
    TimedOut,
    /// The CAN peripheral reported an error.
    Failed(TwaiError),
    /// The awaited reply.
    Reply([u8; 8]),
}

impl Action {
    /// Whether `outcome` can come of the action.
    pub open spec fn spec_allows(self, outcome: Outcome) -> bool {
        match outcome {
            Outcome::Done => !(self is AwaitReply),
            Outcome::TimedOut => self is Transmit || self is AwaitReady || self is AwaitAck
                || self is AwaitReply,
            Outcome::Failed(_) => self is Transmit,
            Outcome::Reply(_) => self is AwaitReply,
        }
    }

    pub fn allows(&self, outcome: &Outcome) -> (r: bool)
        ensures
            r == self.spec_allows(*outcome),
    {
        match outcome {
            Outcome::Done => !matches!(self, Action::AwaitReply(_)),
            Outcome::TimedOut => matches!(
                self,
                Action::Transmit(_, _) | Action::AwaitReady(_, _) | Action::AwaitAck(_, _)
                    | Action::AwaitReply(_)
            ),
            Outcome::Failed(_) => matches!(self, Action::Transmit(_, _)),
            Outcome::Reply(_) => matches!(self, Action::AwaitReply(_)),
        }
    }
}

/// The result of a transmission.
pub open spec fn spec_sent(outcome: Outcome) -> Result<(), Error> {
    match outcome {
        Outcome::TimedOut => Err(Error::TxTimeout),
        Outcome::Failed(e) => Err(Error::Twai(e)),
        _ => Ok(()),
    }
}

pub fn sent(outcome: Outcome) -> (r: Result<(), Error>)
    ensures
        r == spec_sent(outcome),
{
    match outcome {
        Outcome::TimedOut => Err(Error::TxTimeout),
        Outcome::Failed(e) => Err(Error::from(e)),
        _ => Ok(()),
    }
}

/// The result of waiting for a frame with identifier `id`.
pub open spec fn spec_wait_ack(outcome: Outcome, id: u16) -> Result<(), Error> {
    match outcome {
        Outcome::TimedOut => Err(Error::AckTimeout(id)),
        _ => Ok(()),
    }
}

pub fn wait_ack(outcome: Outcome, id: u16) -> (r: Result<(), Error>)
    ensures
        r == spec_wait_ack(outcome, id),
{
    match outcome {
        Outcome::TimedOut => Err(Error::AckTimeout(id)),
        _ => Ok(()),
    }
}

/// How far a request has come.
#[derive(Clone, Copy, PartialEq, Eq, Debug)]
pub enum Phase {
    /// The reply is to be expected.
    Expecting,
    /// The request is to be sent.
    Sending,
    /// The reply is to be awaited.
    Waiting,
    /// The request could not be sent; no reply is to be expected any more.
    Forgetting(Error),
    /// The request is over.
    Finished(Result<[u8; 8], Error>),
}

/// A request to a board, from sending it to its reply.
#[derive(Clone, Copy, PartialEq, Eq, Debug)]
pub struct Roundtrip {
    pub frame: Frame,
    pub phase: Phase,
}

/// What a request needs next.
#[derive(Clone, Copy, PartialEq, Eq, Debug)]
pub enum Progress {
    Act(Action),
    Finished(Result<[u8; 8], Error>),
}

/// How far the identifier of a reply lies below that of its request.
pub const REPLY_DISTANCE: u16 = 0x80;

impl Roundtrip {
    pub open spec fn wf(self) -> bool {
        &&& self.frame.wf()
        &&& self.frame.id >= REPLY_DISTANCE
    }

    /// A request that has yet to be made.
    pub open spec fn spec_new(frame: Frame) -> Roundtrip {
        Roundtrip { frame, phase: Phase::Expecting }
    }

    pub fn new(frame: Frame) -> (r: Roundtrip)
        requires
            frame.wf(),
            frame.id >= REPLY_DISTANCE,
        ensures
            r == Roundtrip::spec_new(frame),
            r.wf(),
    {
        Roundtrip { frame, phase: Phase::Expecting }
    }

    /// The identifier that the reply will have.
    pub open spec fn spec_expected(self) -> u16 {
        (self.frame.id - REPLY_DISTANCE) as u16
    }

    pub fn expected(&self) -> (r: u16)
        requires
            self.wf(),
        ensures
            r == self.spec_expected(),
    {
        self.frame.id - REPLY_DISTANCE
    }

    /// What the request needs next.
    pub open spec fn spec_progress(self) -> Progress {
        match self.phase {
            Phase::Expecting => Progress::Act(Action::Expect(self.spec_expected())),
            Phase::Sending => Progress::Act(Action::Transmit(self.frame, spec_tx_timeout())),
            Phase::Waiting => Progress::Act(Action::AwaitReply(spec_ack_timeout())),
            Phase::Forgetting(_) => Progress::Act(Action::Forget),
            Phase::Finished(result) => Progress::Finished(result),
        }
    }

    pub fn progress(&self) -> (r: Progress)
        requires
            self.wf(),
        ensures
            r == self.spec_progress(),
    {
        match self.phase {
            Phase::Expecting => Progress::Act(Action::Expect(self.expected())),
            Phase::Sending => Progress::Act(Action::Transmit(self.frame, tx_timeout())),
            Phase::Waiting => Progress::Act(Action::AwaitReply(ack_timeout())),
            Phase::Forgetting(_) => Progress::Act(Action::Forget),
            Phase::Finished(result) => Progress::Finished(result),
        }
    }

    /// Whether `outcome` can come of what the request needs next.
    pub open spec fn takes(self, outcome: Outcome) -> bool {
        self.spec_progress() matches Progress::Act(action) && action.spec_allows(outcome)
    }

    pub fn can_take(&self, outcome: &Outcome) -> (r: bool)
        requires
            self.wf(),
        ensures
            r == self.takes(*outcome),
    {
        match self.progress() {
            Progress::Act(action) => action.allows(outcome),
            Progress::Finished(_) => false,
        }
    }

    /// The request after `outcome` came of what it needed.
    pub open spec fn stepped(self, outcome: Outcome) -> Roundtrip {
        let phase = match self.phase {
            Phase::Expecting => Phase::Sending,
            Phase::Sending => match spec_sent(outcome) {
                Ok(_) => Phase::Waiting,
                Err(e) => Phase::Forgetting(e),
            },
            Phase::Waiting => match outcome {
                Outcome::Reply(reply) => Phase::Finished(Ok(reply)),
                _ => Phase::Finished(Err(Error::AckTimeout(self.spec_expected()))),
            },
            Phase::Forgetting(e) => Phase::Finished(Err(e)),
            Phase::Finished(result) => Phase::Finished(result),
        };
        Roundtrip { frame: self.frame, phase }
    }

    /// Takes in what came of the action that was needed.
    pub fn step(&mut self, outcome: Outcome)
        requires
            old(self).wf(),
            old(self).takes(outcome),
        ensures
            *final(self) == old(self).stepped(outcome),
            final(self).wf(),
    {
        let expected = self.expected();
        self.phase =
        match self.phase {
            Phase::Expecting => Phase::Sending,
            Phase::Sending => match sent(outcome) {
                Ok(_) => Phase::Waiting,
                Err(e) => Phase::Forgetting(e),
            },
            Phase::Waiting => match outcome {
                Outcome::Reply(reply) => Phase::Finished(Ok(reply)),
                _ => Phase::Finished(Err(Error::AckTimeout(expected))),
            },
            Phase::Forgetting(e) => Phase::Finished(Err(e)),
            Phase::Finished(result) => Phase::Finished(result),
        };
    }
}

/// The request that queries a node for what `reg` selects.
pub open spec fn querying(node: Node, reg: Seq<u8>) -> Roundtrip {
    Roundtrip::spec_new(crate::message::frame_of(node.spec_query_id(), reg))
}

/// The request that a message makes.
pub open spec fn requesting(m: Message) -> Roundtrip {
    Roundtrip::spec_new(m.spec_encode())
}

/// Requests a message's effect.
pub fn request(m: Message) -> (r: Roundtrip)
    ensures
        r == requesting(m),
        r.wf(),
{
    Roundtrip::new(m.encode())
}

/// Initialises a coil board.
pub fn node_on(node: Node) -> (r: Roundtrip)
    ensures
        r == requesting(Message::NodeOn(node)),
        r.wf(),
{
    request(Message::NodeOn(node))
}

/// Resets a coil board.
pub fn node_off(node: Node) -> (r: Roundtrip)
    ensures
        r == requesting(Message::NodeOff(node)),
        r.wf(),
{
    request(Message::NodeOff(node))
}

/// Sets the power of a burner.
pub fn set_power(burner: Burner, power: Power) -> (r: Roundtrip)
    ensures
        r == requesting(Message::SetPower(burner, power)),
        r.wf(),
{
    request(Message::SetPower(burner, power))
}

/// Sends a status query to a node. The reply is the raw response.
pub fn query(node: Node, reg: &[u8]) -> (r: Roundtrip)
    requires
        reg@.len() <= 8,
    ensures
        r == querying(node, reg@),
        r.wf(),
{
    Roundtrip::new(Frame::query(node, reg))
}

/// A request sets up its reply before it is sent. Once it is sent, it ends
/// with the reply, or with a timeout that names the reply's identifier. Where
/// it cannot be sent, no reply is expected any more, and it ends with the
/// error of the transmission.
pub proof fn roundtrip_runs(frame: Frame, transmitted: Outcome, awaited: Outcome)
    requires
        frame.wf(),
        frame.id >= REPLY_DISTANCE,
        Action::Transmit(frame, spec_tx_timeout()).spec_allows(transmitted),
        Action::AwaitReply(spec_ack_timeout()).spec_allows(awaited),
    ensures
        ({
            let fresh = Roundtrip::spec_new(frame);
            let set_up = fresh.stepped(Outcome::Done);
            let tried = set_up.stepped(transmitted);
            let id = (frame.id - REPLY_DISTANCE) as u16;
            &&& fresh.spec_progress() == Progress::Act(Action::Expect(id))
            &&& set_up.spec_progress() == Progress::Act(
                Action::Transmit(frame, spec_tx_timeout()),
            )
            &&& match spec_sent(transmitted) {
                Ok(_) => {
                    &&& tried.spec_progress() == Progress::Act(
                        Action::AwaitReply(spec_ack_timeout()),
                    )
                    &&& tried.stepped(awaited).spec_progress() == Progress::Finished(
                        match awaited {
                            Outcome::Reply(reply) => Ok(reply),
                            _ => Err(Error::AckTimeout(id)),
                        },
                    )
                },
                Err(e) => {
                    &&& tried.spec_progress() == Progress::Act(Action::Forget)
                    &&& tried.stepped(Outcome::Done).spec_progress() == Progress::Finished(Err(e))
                },
            }
        }),
{
}

/// A command to a node is answered on the node's acknowledgement ID.
pub proof fn command_reply_id(m: Message, node: Node)
    requires
        m.id() == node.spec_command_id(),
    ensures
        requesting(m).spec_expected() == node.spec_ack_id(),
{
}

/// A status query to a node is answered on an ID of the node's own, which is
/// neither its ready nor its acknowledgement ID.
pub proof fn query_reply_id(node: Node, reg: Seq<u8>)
    ensures
        querying(node, reg).spec_expected() == 0x700 + node.spec_offset(),
        querying(node, reg).spec_expected() != node.spec_ready_id(),
        querying(node, reg).spec_expected() != node.spec_ack_id(),
{
}

/// A transmission succeeds if and only if it was done; its errors are those of
/// the time limit and of the peripheral.
pub proof fn transmission_results(e: TwaiError)
    ensures
        spec_sent(Outcome::Done) is Ok,
        spec_sent(Outcome::TimedOut) == Err::<(), Error>(Error::TxTimeout),
        spec_sent(Outcome::Failed(e)) == Err::<(), Error>(Error::Twai(e)),
{
}

/// Waiting for a frame fails if and only if the time limit passes, and the error
/// names the frame.
pub proof fn wait_results(id: u16, outcome: Outcome)
    ensures
        outcome is TimedOut <==> spec_wait_ack(outcome, id) is Err,
        outcome is TimedOut ==> spec_wait_ack(outcome, id)->Err_0 == Error::AckTimeout(id),
{
}

/// An error of the peripheral is kept as it is.
pub proof fn peripheral_error_kept(e: TwaiError)
    ensures
        <Error as vstd::std_specs::convert::FromSpec<TwaiError>>::from_spec(e) == Error::Twai(e),
{
}

/// What can come of the actions: only waits and transmissions have a time
/// limit, only a transmission can fail on the bus, and only waiting for a reply
/// brings one, in place of being done.
pub proof fn outcomes_of_actions(action: Action, e: TwaiError, reply: [u8; 8])
    ensures
        action.spec_allows(Outcome::Failed(e)) <==> action is Transmit,
        action.spec_allows(Outcome::Reply(reply)) <==> action is AwaitReply,
        action.spec_allows(Outcome::Done) <==> !action.spec_allows(Outcome::Reply(reply)),
        !action.spec_allows(Outcome::TimedOut) <==> match action {
            Action::ClearReady => true,
            Action::ClearAcks => true,
            Action::Sleep(_) => true,
            Action::Expect(_) => true,
            Action::Forget => true,
            _ => false,
        },
{
}

/// The limits: a tenth of a second for a transmission, five times that for an
/// answer.
pub proof fn limits()
    ensures
        10 * spec_tx_timeout().ticks == crate::time::secs(1),
        spec_ack_timeout().ticks == 5 * spec_tx_timeout().ticks,
{
}

/// A request takes an outcome if and only if it is not over and the outcome can
/// come of the action that it needs.
pub proof fn roundtrip_takes(trip: Roundtrip, outcome: Outcome)
    ensures
        trip.takes(outcome) <==> match trip.phase {
            Phase::Expecting => outcome is Done,
            Phase::Sending => outcome is Done || outcome is TimedOut || outcome is Failed,
            Phase::Waiting => outcome is Reply || outcome is TimedOut,
            Phase::Forgetting(_) => outcome is Done,
            Phase::Finished(_) => false,
        },
        trip.stepped(outcome).frame == trip.frame,
        Roundtrip::spec_new(trip.frame).phase is Expecting,
        trip.wf() ==> trip.spec_expected() + 0x80 == trip.frame.id,
{
}

/// A request sends what it is made of: a query carries its register to the
/// node's query ID, and a message is sent as it is. Neither has begun.
pub proof fn requests_carry_their_content(node: Node, reg: Seq<u8>, m: Message)
    requires
        reg.len() <= 8,
    ensures
        querying(node, reg).frame.id == 0x780 + node.spec_offset(),
        querying(node, reg).frame.data() == reg,
        querying(node, reg).phase is Expecting,
        requesting(m).frame.id == m.id(),
        requesting(m).frame.data() == m.data(),
        requesting(m).phase is Expecting,
{
    crate::message::frame_carries_payload(node.spec_query_id(), reg);
    crate::message::messages_fit(m);
}

} // verus!
