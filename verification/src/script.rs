//! Procedures: sequences of steps on the bus that end at the first failure.

use vstd::prelude::*;

use crate::burner::{Burner, Node, Power};
use crate::exchange::{
    ack_timeout, request, sent, tx_timeout, wait_ack, Action, Error, Outcome, Phase, Progress,
    Roundtrip,
};
use crate::message::{Frame, Message};
use crate::time::Duration;

verus! {

/// One step of a procedure.
#[derive(Clone, Copy, PartialEq, Eq, Debug, Structural)]
pub enum Op {
    /// Forget which boards have reported ready.
    ClearReady,
    /// Forget which boards have acknowledged an announcement.
    ClearAcks,
    /// Let time pass.
    Pause(Duration),
    /// Send a message that has no reply.
    Send(Message),
    /// Wait until a board has reported ready.
    AwaitReady(Node),
    /// Wait until a board has acknowledged an announcement.
    AwaitAck(Node),
    /// Send a message and wait for its reply.
    Ask(Message),
}

/// Something to be done with the whole cooktop.
#[derive(Clone, Copy, PartialEq, Eq, Debug, Structural)]
pub enum Procedure {
    /// Bring up all boards, ask each for its serial number and configuration,
    /// and put every burner in standby.
    Startup,
    /// Switch off every burner, then all boards.
    Shutdown,
    /// Set the power of every burner.
    SetPower { left: Power, right: Power, middle: Power },
    /// Read the status registers of the coil boards.
    PollStatus,
}

/// The pause between waking up the boards and reporting ready to them.
pub open spec fn spec_init_pause() -> Duration {
    Duration { ticks: 40_000 }
}

fn init_pause() -> (r: Duration)
    ensures
        r == spec_init_pause(),
{
    Duration::from_millis(40)
}

impl Procedure {
    /// The steps of the procedure, in order.
    pub open spec fn ops(self) -> Seq<Op> {
        match self {
            Procedure::Startup => seq![
                Op::ClearReady,
                Op::Send(Message::SystemInit),
                Op::Pause(spec_init_pause()),
                Op::Send(Message::ControllerReady),
                Op::AwaitReady(Node::LeftCoil),
                Op::AwaitReady(Node::RightCoil),
                Op::AwaitReady(Node::Psu),
                Op::Ask(Message::ReadSerial(Node::LeftCoil)),
                Op::Ask(Message::ReadConfig(Node::LeftCoil)),
                Op::Ask(Message::ReadSerial(Node::RightCoil)),
                Op::Ask(Message::ReadConfig(Node::RightCoil)),
                Op::Ask(Message::ReadSerial(Node::Psu)),
                Op::Ask(Message::ReadConfig(Node::Psu)),
                Op::ClearAcks,
                Op::Send(Message::Announce),
                Op::AwaitAck(Node::LeftCoil),
                Op::AwaitAck(Node::RightCoil),
                Op::AwaitAck(Node::Psu),
                Op::Ask(Message::NodeOn(Node::LeftCoil)),
                Op::Ask(Message::SetPower(Burner::Left, Power::Standby)),
                Op::Ask(Message::NodeOn(Node::RightCoil)),
                Op::Ask(Message::SetPower(Burner::Middle, Power::Standby)),
                Op::Ask(Message::SetPower(Burner::Right, Power::Standby)),
                Op::Ask(Message::Configure(Node::LeftCoil)),
                Op::Ask(Message::Configure(Node::RightCoil)),
                Op::ClearAcks,
                Op::Send(Message::Announce),
                Op::AwaitAck(Node::LeftCoil),
                Op::AwaitAck(Node::RightCoil),
                Op::AwaitAck(Node::Psu),
            ],
            Procedure::Shutdown => seq![
                Op::Ask(Message::SetPower(Burner::Left, Power::Off)),
                Op::Ask(Message::SetPower(Burner::Middle, Power::Off)),
                Op::Ask(Message::SetPower(Burner::Right, Power::Off)),
                Op::Ask(Message::NodeOff(Node::LeftCoil)),
                Op::Ask(Message::NodeOff(Node::RightCoil)),
                Op::Ask(Message::PsuPrepare),
                Op::Ask(Message::PsuOff),
                Op::Send(Message::Announce),
            ],
            Procedure::SetPower { left, right, middle } => seq![
                Op::Ask(Message::SetPower(Burner::Left, left)),
                Op::Ask(Message::SetPower(Burner::Right, right)),
                Op::Ask(Message::SetPower(Burner::Middle, middle)),
            ],
            Procedure::PollStatus => seq![
                Op::Ask(Message::ReadStatus(Node::LeftCoil, 0x02, 0x05)),
                Op::Ask(Message::ReadStatus(Node::LeftCoil, 0x02, 0x04)),
                Op::Ask(Message::ReadStatus(Node::LeftCoil, 0x02, 0x03)),
                Op::Ask(Message::ReadStatus(Node::LeftCoil, 0x03, 0x02)),
                Op::Ask(Message::ReadStatus(Node::LeftCoil, 0x03, 0x03)),
                Op::Ask(Message::ReadStatus(Node::LeftCoil, 0x03, 0x05)),
                Op::Ask(Message::ReadStatus(Node::LeftCoil, 0x03, 0x04)),
                Op::Ask(Message::ReadStatus(Node::RightCoil, 0x03, 0x02)),
                Op::Ask(Message::ReadStatus(Node::RightCoil, 0x03, 0x03)),
                Op::Ask(Message::ReadStatus(Node::RightCoil, 0x03, 0x05)),
                Op::Ask(Message::ReadStatus(Node::RightCoil, 0x03, 0x04)),
                Op::Ask(Message::ReadStatus(Node::RightCoil, 0x04, 0x02)),
                Op::Ask(Message::ReadStatus(Node::RightCoil, 0x04, 0x03)),
                Op::Ask(Message::ReadStatus(Node::RightCoil, 0x04, 0x05)),
                Op::Ask(Message::ReadStatus(Node::RightCoil, 0x04, 0x04)),
            ],
        }
    }

    /// The step at position `i`, or none behind the last one.
    pub fn op(self, i: usize) -> (r: Option<Op>)
        ensures
            r == (if i < self.ops().len() {
                Some(self.ops()[i as int])
            } else {
                None
            }),
    {
        match self {
            Procedure::Startup => startup_op(i),
            Procedure::Shutdown => shutdown_op(i),
            Procedure::SetPower { left, right, middle } => match i {
                0 => Some(Op::Ask(Message::SetPower(Burner::Left, left))),
                1 => Some(Op::Ask(Message::SetPower(Burner::Right, right))),
                2 => Some(Op::Ask(Message::SetPower(Burner::Middle, middle))),
                _ => None,
            },
            Procedure::PollStatus => poll_op(i),
        }
    }
}

fn startup_op(i: usize) -> (r: Option<Op>)
    ensures
        r == (if i < Procedure::Startup.ops().len() {
            Some(Procedure::Startup.ops()[i as int])
        } else {
            None
        }),
{
    let op = match i {
        0 => Op::ClearReady,
        1 => Op::Send(Message::SystemInit),
        2 => Op::Pause(init_pause()),
        3 => Op::Send(Message::ControllerReady),
        4 => Op::AwaitReady(Node::LeftCoil),
        5 => Op::AwaitReady(Node::RightCoil),
        6 => Op::AwaitReady(Node::Psu),
        // Enumeration.
        7 => Op::Ask(Message::ReadSerial(Node::LeftCoil)),
        8 => Op::Ask(Message::ReadConfig(Node::LeftCoil)),
        9 => Op::Ask(Message::ReadSerial(Node::RightCoil)),
        10 => Op::Ask(Message::ReadConfig(Node::RightCoil)),
        11 => Op::Ask(Message::ReadSerial(Node::Psu)),
        12 => Op::Ask(Message::ReadConfig(Node::Psu)),
        // Controller announce.
        13 => Op::ClearAcks,
        14 => Op::Send(Message::Announce),
        15 => Op::AwaitAck(Node::LeftCoil),
        16 => Op::AwaitAck(Node::RightCoil),
        17 => Op::AwaitAck(Node::Psu),
        18 => Op::Ask(Message::NodeOn(Node::LeftCoil)),
        19 => Op::Ask(Message::SetPower(Burner::Left, Power::Standby)),
        20 => Op::Ask(Message::NodeOn(Node::RightCoil)),
        21 => Op::Ask(Message::SetPower(Burner::Middle, Power::Standby)),
        22 => Op::Ask(Message::SetPower(Burner::Right, Power::Standby)),
        23 => Op::Ask(Message::Configure(Node::LeftCoil)),
        24 => Op::Ask(Message::Configure(Node::RightCoil)),
        // Final announce.
        25 => Op::ClearAcks,
        26 => Op::Send(Message::Announce),
        27 => Op::AwaitAck(Node::LeftCoil),
        28 => Op::AwaitAck(Node::RightCoil),
        29 => Op::AwaitAck(Node::Psu),
        _ => return None,
    };
    Some(op)
}

fn shutdown_op(i: usize) -> (r: Option<Op>)
    ensures
        r == (if i < Procedure::Shutdown.ops().len() {
            Some(Procedure::Shutdown.ops()[i as int])
        } else {
            None
        }),
{
    let op = match i {
        0 => Op::Ask(Message::SetPower(Burner::Left, Power::Off)),
        1 => Op::Ask(Message::SetPower(Burner::Middle, Power::Off)),
        2 => Op::Ask(Message::SetPower(Burner::Right, Power::Off)),
        // Reset coil boards.
        3 => Op::Ask(Message::NodeOff(Node::LeftCoil)),
        4 => Op::Ask(Message::NodeOff(Node::RightCoil)),
        // PSU shutdown.
        5 => Op::Ask(Message::PsuPrepare),
        6 => Op::Ask(Message::PsuOff),
        // Final announce.
        7 => Op::Send(Message::Announce),
        _ => return None,
    };
    Some(op)
}

fn poll_op(i: usize) -> (r: Option<Op>)
    ensures
        r == (if i < Procedure::PollStatus.ops().len() {
            Some(Procedure::PollStatus.ops()[i as int])
        } else {
            None
        }),
{
    let (node, group, register) = match i {
        // The left coil as a whole.
        0 => (Node::LeftCoil, 0x02, 0x05),
        1 => (Node::LeftCoil, 0x02, 0x04),
        2 => (Node::LeftCoil, 0x02, 0x03),
        // The left burner.
        3 => (Node::LeftCoil, 0x03, 0x02),
        4 => (Node::LeftCoil, 0x03, 0x03),
        5 => (Node::LeftCoil, 0x03, 0x05),
        6 => (Node::LeftCoil, 0x03, 0x04),
        // The middle burner.
        7 => (Node::RightCoil, 0x03, 0x02),
        8 => (Node::RightCoil, 0x03, 0x03),
        9 => (Node::RightCoil, 0x03, 0x05),
        10 => (Node::RightCoil, 0x03, 0x04),
        // The right burner.
        11 => (Node::RightCoil, 0x04, 0x02),
        12 => (Node::RightCoil, 0x04, 0x03),
        13 => (Node::RightCoil, 0x04, 0x05),
        14 => (Node::RightCoil, 0x04, 0x04),
        _ => return None,
    };
    Some(Op::Ask(Message::ReadStatus(node, group, register)))
}

impl Op {
    /// The action of a step that takes one action only.
    pub open spec fn spec_action(self) -> Action {
        match self {
            Op::ClearReady => Action::ClearReady,
            Op::ClearAcks => Action::ClearAcks,
            Op::Pause(d) => Action::Sleep(d),
            Op::Send(m) => Action::Transmit(m.spec_encode(), crate::exchange::spec_tx_timeout()),
            Op::AwaitReady(node) => Action::AwaitReady(node, crate::exchange::spec_ack_timeout()),
            Op::AwaitAck(node) => Action::AwaitAck(node, crate::exchange::spec_ack_timeout()),
            Op::Ask(m) => Action::Expect(crate::exchange::requesting(m).spec_expected()),
        }
    }

    fn action(self) -> (r: Action)
        ensures
            r == self.spec_action(),
    {
        match self {
            Op::ClearReady => Action::ClearReady,
            Op::ClearAcks => Action::ClearAcks,
            Op::Pause(d) => Action::Sleep(d),
            Op::Send(m) => Action::Transmit(m.encode(), tx_timeout()),
            Op::AwaitReady(node) => Action::AwaitReady(node, ack_timeout()),
            Op::AwaitAck(node) => Action::AwaitAck(node, ack_timeout()),
            Op::Ask(m) => Action::Expect(request(m).expected()),
        }
    }

    /// The result of a step that takes one action only.
    pub open spec fn spec_result(self, outcome: Outcome) -> Result<(), Error> {
        match self {
            Op::Send(_) => crate::exchange::spec_sent(outcome),
            Op::AwaitReady(node) => crate::exchange::spec_wait_ack(outcome, node.spec_ready_id()),
            Op::AwaitAck(node) => crate::exchange::spec_wait_ack(outcome, node.spec_ack_id()),
            _ => Ok(()),
        }
    }

    fn result(self, outcome: Outcome) -> (r: Result<(), Error>)
        ensures
            r == self.spec_result(outcome),
    {
        match self {
            Op::Send(_) => sent(outcome),
            Op::AwaitReady(node) => wait_ack(outcome, node.ready_id()),
            Op::AwaitAck(node) => wait_ack(outcome, node.ack_id()),
            _ => Ok(()),
        }
    }
}

/// Where in its current step a procedure stands.
#[derive(Clone, Copy, PartialEq, Eq, Debug)]
pub enum Stage {
    /// The step takes one action, which is to be done.
    Single,
    /// The step is a request, which has come this far.
    Exchange(Roundtrip),
    /// The procedure is over.
    Finished(Result<(), Error>),
}

/// A procedure that is being carried out.
#[derive(Clone, Copy, PartialEq, Eq, Debug)]
pub struct Script {
    pub procedure: Procedure,
    /// The position of the current step.
    pub at: usize,
    pub stage: Stage,
}

/// What a procedure needs next.
#[derive(Clone, Copy, PartialEq, Eq, Debug)]
pub enum Next {
    Act(Action),
    Finished(Result<(), Error>),
}

impl Next {
    /// Whether `outcome` can come of it.
    pub open spec fn allows(self, outcome: Outcome) -> bool {
        self matches Next::Act(action) && action.spec_allows(outcome)
    }
}

impl Script {
    /// Whether this is where a procedure with steps `ops` can stand.
    pub open spec fn fits(self, ops: Seq<Op>) -> bool {
        match self.stage {
            Stage::Single => self.at < ops.len() && !(ops[self.at as int] is Ask),
            Stage::Exchange(trip) => {
                &&& self.at < ops.len()
                &&& ops[self.at as int] matches Op::Ask(m)
                &&& trip.frame == m.spec_encode()
                &&& trip.wf()
                &&& !(trip.phase is Finished)
            },
            Stage::Finished(Ok(_)) => self.at == ops.len(),
            Stage::Finished(Err(_)) => self.at < ops.len(),
        }
    }

    pub open spec fn wf(self) -> bool {
        self.fits(self.procedure.ops())
    }

    /// A procedure about to take the step at `at`.
    pub open spec fn entering(procedure: Procedure, at: int) -> Script {
        Script { procedure, at: at as usize, stage: Script::stage_at(procedure.ops(), at) }
    }

    /// Where a procedure with steps `ops` stands when it comes to `at`.
    pub open spec fn stage_at(ops: Seq<Op>, at: int) -> Stage {
        if at >= ops.len() {
            Stage::Finished(Ok(()))
        } else {
            match ops[at] {
                Op::Ask(m) => Stage::Exchange(crate::exchange::requesting(m)),
                _ => Stage::Single,
            }
        }
    }

    fn enter(procedure: Procedure, at: usize) -> (r: Script)
        requires
            at <= procedure.ops().len(),
        ensures
            r == Script::entering(procedure, at as int),
            r.wf(),
    {
        let stage = match procedure.op(at) {
            None => Stage::Finished(Ok(())),
            Some(Op::Ask(m)) => Stage::Exchange(request(m)),
            Some(_) => Stage::Single,
        };
        Script { procedure, at, stage }
    }

    /// A procedure that has yet to take its first step.
    pub open spec fn spec_new(procedure: Procedure) -> Script {
        Script::entering(procedure, 0)
    }

    pub fn new(procedure: Procedure) -> (r: Script)
        ensures
            r == Script::spec_new(procedure),
            r.wf(),
    {
        Script::enter(procedure, 0)
    }

    /// What the procedure needs next.
    pub open spec fn spec_next(self) -> Next {
        self.next_of(self.procedure.ops())
    }

    /// What a procedure with steps `ops` needs next.
    pub open spec fn next_of(self, ops: Seq<Op>) -> Next {
        match self.stage {
            Stage::Single => Next::Act(ops[self.at as int].spec_action()),
            Stage::Exchange(trip) => Next::Act(trip.spec_progress()->Act_0),
            Stage::Finished(result) => Next::Finished(result),
        }
    }

    pub fn next(&self) -> (r: Next)
        requires
            self.wf(),
        ensures
            r == self.spec_next(),
    {
        match self.stage {
            Stage::Finished(result) => Next::Finished(result),
            Stage::Exchange(trip) => match trip.progress() {
                Progress::Act(action) => Next::Act(action),
                Progress::Finished(_) => {
                    assert(false);
                    Next::Finished(Ok(()))
                },
            },
            Stage::Single => match self.procedure.op(self.at) {
                Some(op) => Next::Act(op.action()),
                None => {
                    assert(false);
                    Next::Finished(Ok(()))
                },
            },
        }
    }

    /// Whether `outcome` can come of what the procedure needs next.
    pub open spec fn takes(self, outcome: Outcome) -> bool {
        self.spec_next().allows(outcome)
    }

    pub fn can_take(&self, outcome: &Outcome) -> (r: bool)
        requires
            self.wf(),
        ensures
            r == self.takes(*outcome),
    {
        match self.next() {
            Next::Act(action) => action.allows(outcome),
            Next::Finished(_) => false,
        }
    }

    /// A procedure with steps `ops`, behind a step that ended with `result`.
    pub open spec fn after(self, ops: Seq<Op>, result: Result<(), Error>) -> Script {
        match result {
            Ok(_) => Script {
                at: (self.at + 1) as usize,
                stage: Script::stage_at(ops, self.at + 1),
                ..self
            },
            Err(e) => Script { stage: Stage::Finished(Err(e)), ..self },
        }
    }

    /// The procedure after `outcome` came of what it needed.
    pub open spec fn stepped(self, outcome: Outcome) -> Script {
        self.moved(self.procedure.ops(), outcome)
    }

    /// A procedure with steps `ops`, after `outcome` came of what it needed.
    pub open spec fn moved(self, ops: Seq<Op>, outcome: Outcome) -> Script {
        match self.stage {
            Stage::Single => self.after(ops, ops[self.at as int].spec_result(outcome)),
            Stage::Exchange(trip) => match trip.stepped(outcome).phase {
                Phase::Finished(Ok(_)) => self.after(ops, Ok(())),
                Phase::Finished(Err(e)) => self.after(ops, Err(e)),
                _ => Script { stage: Stage::Exchange(trip.stepped(outcome)), ..self },
            },
            Stage::Finished(_) => self,
        }
    }

    /// Takes in what came of the action that was needed.
    pub fn step(&mut self, outcome: Outcome)
        requires
            old(self).wf(),
            old(self).takes(outcome),
        ensures
            *final(self) == old(self).stepped(outcome),
            final(self).wf(),
    {
        let result = match self.stage {
            Stage::Finished(_) => return,
            Stage::Exchange(mut trip) => {
                trip.step(outcome);
                match trip.phase {
                    Phase::Finished(Ok(_)) => Ok(()),
                    Phase::Finished(Err(e)) => Err(e),
                    _ => {
                        self.stage = Stage::Exchange(trip);
                        return;
                    },
                }
            },
            Stage::Single => match self.procedure.op(self.at) {
                Some(op) => op.result(outcome),
                None => return,
            },
        };
        match result {
            Ok(_) => *self = Script::enter(self.procedure, self.at + 1),
            Err(e) => self.stage = Stage::Finished(Err(e)),
        }
    }
}

impl Script {
    /// A procedure with steps `ops`, after `outcomes` came, one after the other,
    /// of what it needed.
    pub open spec fn after_all(self, ops: Seq<Op>, outcomes: Seq<Outcome>) -> Script
        decreases outcomes.len(),
    {
        if outcomes.len() == 0 {
            self
        } else {
            self.after_all(ops, outcomes.drop_last()).moved(ops, outcomes.last())
        }
    }

    /// Whether each outcome can come of what a procedure with steps `ops` needs
    /// at that point.
    pub open spec fn takes_all(self, ops: Seq<Op>, outcomes: Seq<Outcome>) -> bool
        decreases outcomes.len(),
    {
        outcomes.len() == 0 || {
            &&& self.takes_all(ops, outcomes.drop_last())
            &&& self.after_all(ops, outcomes.drop_last()).next_of(ops).allows(outcomes.last())
        }
    }

    /// The frames that a procedure with steps `ops` has handed to the bus on
    /// the way, in order.
    pub open spec fn sent_on_the_way(self, ops: Seq<Op>, outcomes: Seq<Outcome>) -> Seq<Frame>
        decreases outcomes.len(),
    {
        if outcomes.len() == 0 {
            seq![]
        } else {
            self.sent_on_the_way(ops, outcomes.drop_last()) + frames_in(
                self.after_all(ops, outcomes.drop_last()).next_of(ops),
            )
        }
    }
}

/// The procedure after `outcomes` came, one after the other, of what it needed.
pub open spec fn script_after(procedure: Procedure, outcomes: Seq<Outcome>) -> Script {
    Script::spec_new(procedure).after_all(procedure.ops(), outcomes)
}

/// Whether each outcome can come of what the procedure needs at that point.
pub open spec fn possible(procedure: Procedure, outcomes: Seq<Outcome>) -> bool {
    Script::spec_new(procedure).takes_all(procedure.ops(), outcomes)
}

/// The frames that were handed to the bus on the way, in order.
pub open spec fn transmitted(procedure: Procedure, outcomes: Seq<Outcome>) -> Seq<Frame> {
    Script::spec_new(procedure).sent_on_the_way(procedure.ops(), outcomes)
}

/// Whether an outcome reports a failure.
pub open spec fn is_failure(outcome: Outcome) -> bool {
    outcome is TimedOut || outcome is Failed
}

/// Whether none of the outcomes reports a failure.
pub open spec fn all_well(outcomes: Seq<Outcome>) -> bool {
    forall|i: int| 0 <= i < outcomes.len() ==> !is_failure(#[trigger] outcomes[i])
}

impl Op {
    /// The frames that the step sends.
    pub open spec fn frames(self) -> Seq<Frame> {
        match self {
            Op::Send(m) => seq![m.spec_encode()],
            Op::Ask(m) => seq![m.spec_encode()],
            _ => seq![],
        }
    }

    /// The number of actions that the step takes.
    pub open spec fn actions(self) -> int {
        if self is Ask {
            3
        } else {
            1
        }
    }
}

/// The frames of a sequence of steps, in order.
pub open spec fn frames_of(ops: Seq<Op>) -> Seq<Frame>
    decreases ops.len(),
{
    if ops.len() == 0 {
        seq![]
    } else {
        frames_of(ops.drop_last()) + ops.last().frames()
    }
}

/// The number of actions in a sequence of steps.
pub open spec fn actions_of(ops: Seq<Op>) -> int
    decreases ops.len(),
{
    if ops.len() == 0 {
        0
    } else {
        actions_of(ops.drop_last()) + ops.last().actions()
    }
}

impl Script {
    /// Whether the current step has handed its frame, if it has one, to the
    /// bus.
    spec fn tried(self) -> bool {
        match self.stage {
            Stage::Exchange(trip) => trip.phase is Waiting || trip.phase is Forgetting,
            Stage::Finished(Err(_)) => true,
            _ => false,
        }
    }

    /// The number of actions that the current step has behind it.
    spec fn actions_done(self) -> int {
        match self.stage {
            Stage::Exchange(trip) => match trip.phase {
                Phase::Expecting => 0,
                Phase::Sending => 1,
                _ => 2,
            },
            _ => 0,
        }
    }

    /// Whether something has failed.
    spec fn broken(self) -> bool {
        match self.stage {
            Stage::Exchange(trip) => trip.phase is Forgetting,
            Stage::Finished(Err(_)) => true,
            _ => false,
        }
    }
}

proof fn frames_of_take(ops: Seq<Op>, n: int)
    requires
        0 <= n < ops.len(),
    ensures
        frames_of(ops.take(n + 1)) == frames_of(ops.take(n)) + ops[n].frames(),
        actions_of(ops.take(n + 1)) == actions_of(ops.take(n)) + ops[n].actions(),
{
    assert(ops.take(n + 1).drop_last() =~= ops.take(n));
}

proof fn frames_of_prefix(ops: Seq<Op>, n: int)
    requires
        0 <= n <= ops.len(),
    ensures
        frames_of(ops.take(n)).is_prefix_of(frames_of(ops)),
        actions_of(ops.take(n)) <= actions_of(ops),
    decreases ops.len() - n,
{
    if n == ops.len() {
        assert(ops.take(n) =~= ops);
    } else {
        frames_of_take(ops, n);
        frames_of_prefix(ops, n + 1);
    }
}

/// The frame that an action hands to the bus, if it is a transmission.
pub open spec fn frames_in(next: Next) -> Seq<Frame> {
    match next {
        Next::Act(Action::Transmit(frame, _)) => seq![frame],
        _ => seq![],
    }
}

/// How far one outcome takes a procedure with steps `ops` from `s` to `t`,
/// where `frames` is what was handed to the bus.
spec fn moves(ops: Seq<Op>, s: Script, t: Script, frames: Seq<Frame>) -> bool {
    let op = ops[s.at as int];
    &&& s.at < ops.len()
    &&& if t.at == s.at + 1 {
        &&& !t.tried()
        &&& t.actions_done() == 0
        &&& op.actions() == s.actions_done() + 1
    } else {
        &&& t.at == s.at
        &&& t.stage is Finished ==> t.tried()
        &&& s.tried() ==> t.tried()
        &&& !(t.stage is Finished) ==> t.actions_done() == s.actions_done() + 1
        &&& s.actions_done() < op.actions()
    }
    &&& !(s.stage is Finished)
    &&& t.stage matches Stage::Finished(Ok(_)) ==> t.at == s.at + 1 && t.at == ops.len()
    &&& frames.len() == 0 || (frames == op.frames() && !s.tried() && (t.at == s.at ==> t.tried()))
    &&& frames.len() == 0 && !s.tried() && (t.tried() || t.at == s.at + 1) ==> op.frames().len()
        == 0
}

proof fn request_fits(m: Message)
    ensures
        crate::exchange::requesting(m).wf(),
        crate::exchange::requesting(m).frame == m.spec_encode(),
        crate::exchange::requesting(m).phase is Expecting,
{
    crate::message::messages_fit(m);
}

proof fn entering_fits(ops: Seq<Op>, s: Script)
    requires
        s.at <= ops.len(),
        s.stage == Script::stage_at(ops, s.at as int),
    ensures
        s.fits(ops),
        !s.tried(),
        !s.broken(),
        s.actions_done() == 0,
{
    if s.at < ops.len() {
        if let Op::Ask(m) = ops[s.at as int] {
            request_fits(m);
        }
    }
}

proof fn single_moves(ops: Seq<Op>, s: Script, outcome: Outcome)
    requires
        s.fits(ops),
        s.stage is Single,
        ops.len() < usize::MAX,
        s.next_of(ops).allows(outcome),
    ensures
        s.moved(ops, outcome).fits(ops),
        moves(ops, s, s.moved(ops, outcome), frames_in(s.next_of(ops))),
        s.moved(ops, outcome).broken() <==> is_failure(outcome),
{
    let t = s.moved(ops, outcome);
    if t.at == s.at + 1 {
        entering_fits(ops, t);
    }
}

proof fn exchange_moves(ops: Seq<Op>, s: Script, outcome: Outcome)
    requires
        s.fits(ops),
        s.stage is Exchange,
        ops.len() < usize::MAX,
        s.next_of(ops).allows(outcome),
    ensures
        s.moved(ops, outcome).fits(ops),
        moves(ops, s, s.moved(ops, outcome), frames_in(s.next_of(ops))),
        s.moved(ops, outcome).broken() <==> s.broken() || is_failure(outcome),
{
    let t = s.moved(ops, outcome);
    if t.at == s.at + 1 {
        entering_fits(ops, t);
    }
}

proof fn step_moves(ops: Seq<Op>, s: Script, outcome: Outcome)
    requires
        s.fits(ops),
        ops.len() < usize::MAX,
        s.next_of(ops).allows(outcome),
    ensures
        s.moved(ops, outcome).fits(ops),
        s.moved(ops, outcome).procedure == s.procedure,
        moves(ops, s, s.moved(ops, outcome), frames_in(s.next_of(ops))),
        s.moved(ops, outcome).broken() <==> s.broken() || is_failure(outcome),
{
    match s.stage {
        Stage::Single => single_moves(ops, s, outcome),
        Stage::Exchange(_) => exchange_moves(ops, s, outcome),
        Stage::Finished(_) => {},
    }
}

/// What `sent` frames and `n` actions have to do with where a procedure with
/// steps `ops` stands.
#[verifier::opaque]
spec fn tracks(ops: Seq<Op>, s: Script, sent: Seq<Frame>, n: int) -> bool {
    &&& s.at <= ops.len()
    &&& s.tried() ==> s.at < ops.len()
    &&& sent == frames_of(ops.take(s.at as int)) + (if s.tried() {
        ops[s.at as int].frames()
    } else {
        seq![]
    })
    &&& n <= actions_of(ops)
    &&& !(s.stage is Finished) ==> n == actions_of(ops.take(s.at as int)) + s.actions_done()
    &&& s.stage matches Stage::Finished(Ok(_)) ==> n == actions_of(ops)
}

proof fn start_is_tracked(ops: Seq<Op>, s: Script)
    requires
        s.at == 0,
        !s.tried(),
        s.actions_done() == 0,
        s.stage is Finished <==> ops.len() == 0,
    ensures
        tracks(ops, s, seq![], 0),
{
    reveal(tracks);
    assert(ops.take(0) =~= seq![]);
    frames_of_prefix(ops, 0);
    assert(seq![] =~= frames_of(ops.take(0)) + seq![]);
}

proof fn move_keeps_track(
    ops: Seq<Op>,
    s: Script,
    t: Script,
    sent: Seq<Frame>,
    frames: Seq<Frame>,
    n: int,
)
    requires
        moves(ops, s, t, frames),
        tracks(ops, s, sent, n),
    ensures
        tracks(ops, t, sent + frames, n + 1),
{
    reveal(tracks);
    frames_of_take(ops, s.at as int);
    frames_of_prefix(ops, s.at + 1);
    if t.at == ops.len() {
        assert(ops.take(t.at as int) =~= ops);
    }
    assert(sent + frames =~= frames_of(ops.take(t.at as int)) + (if t.tried() {
        ops[t.at as int].frames()
    } else {
        seq![]
    }));
}

/// What is true all along a procedure with steps `ops`.
proof fn run_invariant(start: Script, ops: Seq<Op>, outcomes: Seq<Outcome>)
    requires
        start.at == 0,
        start.stage == Script::stage_at(ops, 0),
        ops.len() < usize::MAX,
        start.takes_all(ops, outcomes),
    ensures
        start.after_all(ops, outcomes).fits(ops),
        start.after_all(ops, outcomes).procedure == start.procedure,
        tracks(
            ops,
            start.after_all(ops, outcomes),
            start.sent_on_the_way(ops, outcomes),
            outcomes.len() as int,
        ),
        start.after_all(ops, outcomes).broken() <==> !all_well(outcomes),
    decreases outcomes.len(),
{
    if outcomes.len() == 0 {
        entering_fits(ops, start);
        start_is_tracked(ops, start);
    } else {
        let before = outcomes.drop_last();
        let last = outcomes.last();
        let s = start.after_all(ops, before);
        run_invariant(start, ops, before);
        step_moves(ops, s, last);
        move_keeps_track(
            ops,
            s,
            s.moved(ops, last),
            start.sent_on_the_way(ops, before),
            frames_in(s.next_of(ops)),
            before.len() as int,
        );
        assert(all_well(outcomes) <==> all_well(before) && !is_failure(last)) by {
            assert(forall|i: int| 0 <= i < before.len() ==> before[i] == outcomes[i]);
        }
    }
}

proof fn procedure_invariant(procedure: Procedure, outcomes: Seq<Outcome>)
    requires
        possible(procedure, outcomes),
    ensures
        script_after(procedure, outcomes).wf(),
        script_after(procedure, outcomes).procedure == procedure,
        tracks(
            procedure.ops(),
            script_after(procedure, outcomes),
            transmitted(procedure, outcomes),
            outcomes.len() as int,
        ),
        script_after(procedure, outcomes).broken() <==> !all_well(outcomes),
{
    run_invariant(Script::spec_new(procedure), procedure.ops(), outcomes);
}

/// One more outcome takes a procedure on by one step, and what can come of it
/// is what can come of the action that it needs.
pub proof fn script_goes_step_by_step(
    procedure: Procedure,
    outcomes: Seq<Outcome>,
    outcome: Outcome,
)
    requires
        possible(procedure, outcomes),
    ensures
        script_after(procedure, seq![]) == Script::spec_new(procedure),
        script_after(procedure, outcomes.push(outcome)) == script_after(
            procedure,
            outcomes,
        ).stepped(outcome),
        possible(procedure, outcomes.push(outcome)) <==> script_after(procedure, outcomes).takes(
            outcome,
        ),
{
    procedure_invariant(procedure, outcomes);
    assert(outcomes.push(outcome).drop_last() =~= outcomes);
}

/// A procedure hands its frames to the bus in the order of its steps and none
/// besides; when it has succeeded, it has handed over all of them.
pub proof fn frames_sent_in_order(procedure: Procedure, outcomes: Seq<Outcome>)
    requires
        possible(procedure, outcomes),
    ensures
        transmitted(procedure, outcomes).is_prefix_of(frames_of(procedure.ops())),
        script_after(procedure, outcomes).spec_next() == Next::Finished(Ok(())) ==> transmitted(
            procedure,
            outcomes,
        ) == frames_of(procedure.ops()),
{
    let s = script_after(procedure, outcomes);
    let ops = procedure.ops();
    procedure_invariant(procedure, outcomes);
    reveal(tracks);
    frames_of_prefix(ops, s.at as int);
    if s.tried() {
        frames_of_take(ops, s.at as int);
        frames_of_prefix(ops, s.at + 1);
    }
    if s.stage matches Stage::Finished(Ok(_)) {
        assert(ops.take(s.at as int) =~= ops);
    }
}

/// A procedure ends after as many actions as its steps take, or earlier. It
/// ends with success if and only if nothing failed, and then exactly after
/// that many.
pub proof fn procedure_ends(procedure: Procedure, outcomes: Seq<Outcome>)
    requires
        possible(procedure, outcomes),
    ensures
        outcomes.len() <= actions_of(procedure.ops()),
        outcomes.len() == actions_of(procedure.ops()) ==> script_after(procedure, outcomes).spec_next()
            is Finished,
        script_after(procedure, outcomes).spec_next() == Next::Finished(Ok(())) <==> all_well(outcomes)
            && outcomes.len() == actions_of(procedure.ops()),
{
    let s = script_after(procedure, outcomes);
    let ops = procedure.ops();
    procedure_invariant(procedure, outcomes);
    reveal(tracks);
    if !(s.stage is Finished) {
        frames_of_take(ops, s.at as int);
        frames_of_prefix(ops, s.at + 1);
    }
}

/// The error that a failed action stands for.
pub open spec fn failure_of(action: Action, outcome: Outcome, expected: u16) -> Error {
    match (action, outcome) {
        (_, Outcome::Failed(e)) => Error::Twai(e),
        (Action::AwaitReady(node, _), _) => Error::AckTimeout(node.spec_ready_id()),
        (Action::AwaitAck(node, _), _) => Error::AckTimeout(node.spec_ack_id()),
        (Action::AwaitReply(_), _) => Error::AckTimeout(expected),
        _ => Error::TxTimeout,
    }
}

/// The first failure ends a procedure with its error. All that may still be
/// done is to give up the reply to a request that could not be sent; nothing
/// more is sent.
pub proof fn first_failure_ends(s: Script, outcome: Outcome)
    requires
        s.wf(),
        s.takes(outcome),
        is_failure(outcome),
    ensures
        ({
            let expected = s.stage->Exchange_0.spec_expected();
            let ended = Next::Finished(
                Err(failure_of(s.spec_next()->Act_0, outcome, expected)),
            );
            let t = s.stepped(outcome);
            ||| t.spec_next() == ended
            ||| {
                &&& s.spec_next()->Act_0 is Transmit
                &&& t.spec_next() == Next::Act(Action::Forget)
                &&& t.takes(Outcome::Done)
                &&& t.stepped(Outcome::Done).spec_next() == ended
            }
        }),
{
}

/// Starting up leaves every burner in standby at most, and every burner is
/// told so.
pub proof fn startup_sets_standby(burner: Burner)
    ensures
        forall|i: int, b: Burner, p: Power|
            0 <= i < Procedure::Startup.ops().len() && Procedure::Startup.ops()[i] == Op::Ask(
                Message::SetPower(b, p),
            ) ==> p == Power::Standby,
        Procedure::Startup.ops().contains(Op::Ask(Message::SetPower(burner, Power::Standby))),
{
    let ops = Procedure::Startup.ops();
    assert(ops[19] == Op::Ask(Message::SetPower(Burner::Left, Power::Standby)));
    assert(ops[21] == Op::Ask(Message::SetPower(Burner::Middle, Power::Standby)));
    assert(ops[22] == Op::Ask(Message::SetPower(Burner::Right, Power::Standby)));
}

/// Starting up asks every node for its serial number and its configuration,
/// after all boards have reported ready and before the controller is announced.
pub proof fn startup_enumerates(node: Node, other: Node, at: int)
    requires
        0 <= at < Procedure::Startup.ops().len(),
    ensures
        ({
            let ops = Procedure::Startup.ops();
            let before = ops.take(at);
            &&& ops[at] == Op::Send(Message::Announce) ==> {
                &&& before.contains(Op::Ask(Message::ReadSerial(node)))
                &&& before.contains(Op::Ask(Message::ReadConfig(node)))
            }
            &&& ops[at] == Op::Ask(Message::ReadSerial(node)) || ops[at] == Op::Ask(
                Message::ReadConfig(node),
            ) ==> before.contains(Op::AwaitReady(other))
        }),
{
    let ops = Procedure::Startup.ops();
    let before = ops.take(at);
    if at >= 7 {
        assert(before[4] == Op::AwaitReady(Node::LeftCoil));
        assert(before[5] == Op::AwaitReady(Node::RightCoil));
        assert(before[6] == Op::AwaitReady(Node::Psu));
    }
    if at >= 13 {
        assert(before[7] == Op::Ask(Message::ReadSerial(Node::LeftCoil)));
        assert(before[8] == Op::Ask(Message::ReadConfig(Node::LeftCoil)));
        assert(before[9] == Op::Ask(Message::ReadSerial(Node::RightCoil)));
        assert(before[10] == Op::Ask(Message::ReadConfig(Node::RightCoil)));
        assert(before[11] == Op::Ask(Message::ReadSerial(Node::Psu)));
        assert(before[12] == Op::Ask(Message::ReadConfig(Node::Psu)));
    }
}

/// Polling only asks: every frame of it is a status query. It reads all four
/// registers of every burner.
pub proof fn polling_only_asks(at: int, burner: Burner, register: u8)
    ensures
        0 <= at < Procedure::PollStatus.ops().len() ==> (Procedure::PollStatus.ops()[at] matches Op::Ask(
            m,
        ) && m is ReadStatus),
        0x02 <= register <= 0x05 ==> Procedure::PollStatus.ops().contains(
            Op::Ask(
                Message::ReadStatus(
                    burner.spec_node(),
                    burner.spec_temperature_subcmd(),
                    register,
                ),
            ),
        ),
{
    let ops = Procedure::PollStatus.ops();
    let base: int = match burner {
        Burner::Left => 3,
        Burner::Middle => 7,
        Burner::Right => 11,
    };
    if 0x02 <= register <= 0x05 {
        let i: int = match register {
            0x02 => base,
            0x03 => base + 1,
            0x05 => base + 2,
            _ => base + 3,
        };
        assert(ops[i] == Op::Ask(
            Message::ReadStatus(burner.spec_node(), burner.spec_temperature_subcmd(), register),
        ));
    }
}

/// Shutting down sets no burner to anything but off, and switches every burner
/// off before any board is reset.
pub proof fn shutdown_switches_off(burner: Burner, reset: int, node: Node)
    ensures
        forall|i: int, b: Burner, p: Power|
            0 <= i < Procedure::Shutdown.ops().len() && Procedure::Shutdown.ops()[i] == Op::Ask(
                Message::SetPower(b, p),
            ) ==> p == Power::Off,
        0 <= reset < Procedure::Shutdown.ops().len() && Procedure::Shutdown.ops()[reset] == Op::Ask(
            Message::NodeOff(node),
        ) ==> Procedure::Shutdown.ops().take(reset).contains(
            Op::Ask(Message::SetPower(burner, Power::Off)),
        ),
{
    let ops = Procedure::Shutdown.ops();
    let before = ops.take(reset);
    if 0 <= reset < ops.len() && ops[reset] == Op::Ask(Message::NodeOff(node)) {
        assert(reset == 3 || reset == 4);
        assert(before[0] == Op::Ask(Message::SetPower(Burner::Left, Power::Off)));
        assert(before[1] == Op::Ask(Message::SetPower(Burner::Middle, Power::Off)));
        assert(before[2] == Op::Ask(Message::SetPower(Burner::Right, Power::Off)));
    }
}

/// Setting the powers, when it succeeds, has sent three frames, whatever the
/// powers are: to 0x689 the left one, to 0x693 under sub-command 5 the right
/// one, and to 0x693 under sub-command 4 the middle one. It takes nine actions,
/// none of which may fail.
pub proof fn every_burner_is_set(left: Power, right: Power, middle: Power, outcomes: Seq<Outcome>)
    requires
        possible(Procedure::SetPower { left, right, middle }, outcomes),
    ensures
        ({
            let procedure = Procedure::SetPower { left, right, middle };
            let frames = transmitted(procedure, outcomes);
            let end = script_after(procedure, outcomes).spec_next();
            &&& end == Next::Finished(Ok(())) <==> outcomes.len() == 9 && all_well(outcomes)
            &&& end == Next::Finished(Ok(())) ==> {
                &&& frames.len() == 3
                &&& frames[0].id == 0x689
                &&& frames[0].data() == seq![0x01u8, 0x04, 0x00, left.spec_as_raw()]
                &&& frames[1].id == 0x693
                &&& frames[1].data() == seq![0x01u8, 0x05, 0x00, right.spec_as_raw()]
                &&& frames[2].id == 0x693
                &&& frames[2].data() == seq![0x01u8, 0x04, 0x00, middle.spec_as_raw()]
            }
        }),
{
    let procedure = Procedure::SetPower { left, right, middle };
    frames_sent_in_order(procedure, outcomes);
    procedure_ends(procedure, outcomes);
    let ops = procedure.ops();
    assert(ops.take(0) =~= seq![]);
    frames_of_take(ops, 0);
    frames_of_take(ops, 1);
    frames_of_take(ops, 2);
    assert(ops.take(3) =~= ops);
    crate::message::power_command(Burner::Left, left);
    crate::message::power_command(Burner::Right, right);
    crate::message::power_command(Burner::Middle, middle);
}

/// Shutting down, when it succeeds, has sent these frames: it switches every
/// burner off, resets both coils, switches the PSU off, and announces. All but
/// the announcement wait for a reply.
pub proof fn shutdown_sends(outcomes: Seq<Outcome>, at: int)
    requires
        possible(Procedure::Shutdown, outcomes),
        0 <= at < Procedure::Shutdown.ops().len(),
    ensures
        script_after(Procedure::Shutdown, outcomes).spec_next() == Next::Finished(Ok(()))
            ==> transmitted(Procedure::Shutdown, outcomes) == seq![
            Message::SetPower(Burner::Left, Power::Off).spec_encode(),
            Message::SetPower(Burner::Middle, Power::Off).spec_encode(),
            Message::SetPower(Burner::Right, Power::Off).spec_encode(),
            Message::NodeOff(Node::LeftCoil).spec_encode(),
            Message::NodeOff(Node::RightCoil).spec_encode(),
            Message::PsuPrepare.spec_encode(),
            Message::PsuOff.spec_encode(),
            Message::Announce.spec_encode(),
        ],
        script_after(Procedure::Shutdown, outcomes).spec_next() == Next::Finished(Ok(()))
            <==> outcomes.len() == 22 && all_well(outcomes),
        Procedure::Shutdown.ops()[at] is Ask || Procedure::Shutdown.ops()[at] == Op::Send(
            Message::Announce,
        ),
{
    let ops = Procedure::Shutdown.ops();
    frames_sent_in_order(Procedure::Shutdown, outcomes);
    procedure_ends(Procedure::Shutdown, outcomes);
    assert(ops.take(0) =~= seq![]);
    frames_of_take(ops, 0);
    frames_of_take(ops, 1);
    frames_of_take(ops, 2);
    frames_of_take(ops, 3);
    frames_of_take(ops, 4);
    frames_of_take(ops, 5);
    frames_of_take(ops, 6);
    frames_of_take(ops, 7);
    assert(ops.take(8) =~= ops);
    assert(frames_of(ops) =~= seq![
        Message::SetPower(Burner::Left, Power::Off).spec_encode(),
        Message::SetPower(Burner::Middle, Power::Off).spec_encode(),
        Message::SetPower(Burner::Right, Power::Off).spec_encode(),
        Message::NodeOff(Node::LeftCoil).spec_encode(),
        Message::NodeOff(Node::RightCoil).spec_encode(),
        Message::PsuPrepare.spec_encode(),
        Message::PsuOff.spec_encode(),
        Message::Announce.spec_encode(),
    ]);
}

#[verifier::spinoff_prover]
#[verifier::rlimit(60)]
proof fn startup_frames()
    ensures
        frames_of(Procedure::Startup.ops()) == seq![
            Message::SystemInit.spec_encode(),
            Message::ControllerReady.spec_encode(),
            Message::ReadSerial(Node::LeftCoil).spec_encode(),
            Message::ReadConfig(Node::LeftCoil).spec_encode(),
            Message::ReadSerial(Node::RightCoil).spec_encode(),
            Message::ReadConfig(Node::RightCoil).spec_encode(),
            Message::ReadSerial(Node::Psu).spec_encode(),
            Message::ReadConfig(Node::Psu).spec_encode(),
            Message::Announce.spec_encode(),
            Message::NodeOn(Node::LeftCoil).spec_encode(),
            Message::SetPower(Burner::Left, Power::Standby).spec_encode(),
            Message::NodeOn(Node::RightCoil).spec_encode(),
            Message::SetPower(Burner::Middle, Power::Standby).spec_encode(),
            Message::SetPower(Burner::Right, Power::Standby).spec_encode(),
            Message::Configure(Node::LeftCoil).spec_encode(),
            Message::Configure(Node::RightCoil).spec_encode(),
            Message::Announce.spec_encode(),
        ],
        actions_of(Procedure::Startup.ops()) == 56,
{
    let ops = Procedure::Startup.ops();
    assert(ops.take(0) =~= seq![]);
    frames_of_take(ops, 0);
    frames_of_take(ops, 1);
    frames_of_take(ops, 2);
    frames_of_take(ops, 3);
    frames_of_take(ops, 4);
    frames_of_take(ops, 5);
    frames_of_take(ops, 6);
    frames_of_take(ops, 7);
    frames_of_take(ops, 8);
    frames_of_take(ops, 9);
    frames_of_take(ops, 10);
    frames_of_take(ops, 11);
    frames_of_take(ops, 12);
    frames_of_take(ops, 13);
    frames_of_take(ops, 14);
    frames_of_take(ops, 15);
    frames_of_take(ops, 16);
    frames_of_take(ops, 17);
    frames_of_take(ops, 18);
    frames_of_take(ops, 19);
    frames_of_take(ops, 20);
    frames_of_take(ops, 21);
    frames_of_take(ops, 22);
    frames_of_take(ops, 23);
    frames_of_take(ops, 24);
    frames_of_take(ops, 25);
    frames_of_take(ops, 26);
    frames_of_take(ops, 27);
    frames_of_take(ops, 28);
    frames_of_take(ops, 29);
    assert(ops.take(30) =~= ops);
    assert(frames_of(ops) =~= seq![
        Message::SystemInit.spec_encode(),
        Message::ControllerReady.spec_encode(),
        Message::ReadSerial(Node::LeftCoil).spec_encode(),
        Message::ReadConfig(Node::LeftCoil).spec_encode(),
        Message::ReadSerial(Node::RightCoil).spec_encode(),
        Message::ReadConfig(Node::RightCoil).spec_encode(),
        Message::ReadSerial(Node::Psu).spec_encode(),
        Message::ReadConfig(Node::Psu).spec_encode(),
        Message::Announce.spec_encode(),
        Message::NodeOn(Node::LeftCoil).spec_encode(),
        Message::SetPower(Burner::Left, Power::Standby).spec_encode(),
        Message::NodeOn(Node::RightCoil).spec_encode(),
        Message::SetPower(Burner::Middle, Power::Standby).spec_encode(),
        Message::SetPower(Burner::Right, Power::Standby).spec_encode(),
        Message::Configure(Node::LeftCoil).spec_encode(),
        Message::Configure(Node::RightCoil).spec_encode(),
        Message::Announce.spec_encode(),
    ]);
}

/// Starting up, when it succeeds, has sent these frames: it wakes the boards,
/// asks each for its serial number and configuration, announces, initialises
/// both coils with their burners in standby, configures them, and announces.
pub proof fn startup_sends(outcomes: Seq<Outcome>)
    requires
        possible(Procedure::Startup, outcomes),
    ensures
        script_after(Procedure::Startup, outcomes).spec_next() == Next::Finished(Ok(()))
            ==> transmitted(Procedure::Startup, outcomes) == seq![
            Message::SystemInit.spec_encode(),
            Message::ControllerReady.spec_encode(),
            Message::ReadSerial(Node::LeftCoil).spec_encode(),
            Message::ReadConfig(Node::LeftCoil).spec_encode(),
            Message::ReadSerial(Node::RightCoil).spec_encode(),
            Message::ReadConfig(Node::RightCoil).spec_encode(),
            Message::ReadSerial(Node::Psu).spec_encode(),
            Message::ReadConfig(Node::Psu).spec_encode(),
            Message::Announce.spec_encode(),
            Message::NodeOn(Node::LeftCoil).spec_encode(),
            Message::SetPower(Burner::Left, Power::Standby).spec_encode(),
            Message::NodeOn(Node::RightCoil).spec_encode(),
            Message::SetPower(Burner::Middle, Power::Standby).spec_encode(),
            Message::SetPower(Burner::Right, Power::Standby).spec_encode(),
            Message::Configure(Node::LeftCoil).spec_encode(),
            Message::Configure(Node::RightCoil).spec_encode(),
            Message::Announce.spec_encode(),
        ],
        script_after(Procedure::Startup, outcomes).spec_next() == Next::Finished(Ok(()))
            <==> outcomes.len() == 56 && all_well(outcomes),
{
    frames_sent_in_order(Procedure::Startup, outcomes);
    procedure_ends(Procedure::Startup, outcomes);
    startup_frames();
}

/// Starting up waits for all boards. The boards are woken up 40 ms before the
/// controller reports ready, and then every node is awaited; reports from
/// before are forgotten first. Behind every announcement every node's
/// acknowledgement is awaited, and those from before are forgotten right before
/// it. Every message to a single board waits for its reply.
pub proof fn startup_waits_for_all(at: int, node: Node)
    requires
        0 <= at < Procedure::Startup.ops().len(),
    ensures
        ({
            let ops = Procedure::Startup.ops();
            &&& ops[0] == Op::ClearReady
            &&& ops[at] == Op::Send(Message::ControllerReady) ==> {
                &&& at >= 3
                &&& ops[at - 1] matches Op::Pause(d)
                &&& d.ticks == crate::time::millis(40)
                &&& ops[at - 2] == Op::Send(Message::SystemInit)
                &&& at + 4 <= ops.len()
                &&& ops.subrange(at + 1, at + 4).contains(Op::AwaitReady(node))
            }
            &&& ops[at] == Op::Send(Message::Announce) ==> {
                &&& at >= 1
                &&& ops[at - 1] == Op::ClearAcks
                &&& at + 4 <= ops.len()
                &&& ops.subrange(at + 1, at + 4).contains(Op::AwaitAck(node))
            }
            &&& ops[at] matches Op::Send(m) ==> m == Message::SystemInit || m
                == Message::ControllerReady || m == Message::Announce
        }),
{
    let ops = Procedure::Startup.ops();
    if ops[at] == Op::Send(Message::ControllerReady) {
        let next = ops.subrange(at + 1, at + 4);
        assert(next[0] == Op::AwaitReady(Node::LeftCoil));
        assert(next[1] == Op::AwaitReady(Node::RightCoil));
        assert(next[2] == Op::AwaitReady(Node::Psu));
    }
    if ops[at] == Op::Send(Message::Announce) {
        assert(at == 14 || at == 26);
        let next = ops.subrange(at + 1, at + 4);
        assert(next[0] == Op::AwaitAck(Node::LeftCoil));
        assert(next[1] == Op::AwaitAck(Node::RightCoil));
        assert(next[2] == Op::AwaitAck(Node::Psu));
    }
}

/// A step that asks for nothing takes one action: it clears, waits or sends as
/// it says, a transmission within 100 ms and a wait within 500 ms. When that is
/// done, the next step has its turn, and behind the last one the procedure has
/// succeeded.
pub proof fn simple_step_acts(procedure: Procedure, at: int)
    requires
        0 <= at < procedure.ops().len(),
        !(procedure.ops()[at] is Ask),
    ensures
        ({
            let s = Script::entering(procedure, at);
            &&& s.stepped(Outcome::Done) == Script::entering(procedure, at + 1)
            &&& match procedure.ops()[at] {
                Op::ClearReady => s.spec_next() == Next::Act(Action::ClearReady),
                Op::ClearAcks => s.spec_next() == Next::Act(Action::ClearAcks),
                Op::Pause(d) => s.spec_next() == Next::Act(Action::Sleep(d)),
                Op::Send(m) => s.spec_next() matches Next::Act(Action::Transmit(frame, d)) && frame
                    == m.spec_encode() && d.ticks == crate::time::millis(100),
                Op::AwaitReady(node) => s.spec_next() matches Next::Act(Action::AwaitReady(n, d))
                    && n == node && d.ticks == crate::time::millis(500),
                Op::AwaitAck(node) => s.spec_next() matches Next::Act(Action::AwaitAck(n, d)) && n
                    == node && d.ticks == crate::time::millis(500),
                Op::Ask(_) => false,
            }
        }),
        Script::entering(procedure, procedure.ops().len() as int).spec_next() == Next::Finished(
            Ok(()),
        ),
{
}

/// A step that asks expects the reply 0x80 below the identifier of its message,
/// sends the message within 100 ms, and waits for the reply for 500 ms. With the
/// reply, whatever it is, the next step has its turn.
pub proof fn asking_step_acts(procedure: Procedure, at: int, reply: [u8; 8])
    requires
        0 <= at < procedure.ops().len(),
        procedure.ops()[at] is Ask,
    ensures
        ({
            let frame = procedure.ops()[at]->Ask_0.spec_encode();
            let expecting = Script::entering(procedure, at);
            let sending = expecting.stepped(Outcome::Done);
            let waiting = sending.stepped(Outcome::Done);
            &&& expecting.spec_next() matches Next::Act(Action::Expect(id)) && id + 0x80 == frame.id
            &&& sending.spec_next() matches Next::Act(Action::Transmit(f, d)) && f == frame
                && d.ticks == crate::time::millis(100)
            &&& waiting.spec_next() matches Next::Act(Action::AwaitReply(d)) && d.ticks
                == crate::time::millis(500)
            &&& waiting.stepped(Outcome::Reply(reply)) == Script::entering(procedure, at + 1)
        }),
{
}

} // verus!
