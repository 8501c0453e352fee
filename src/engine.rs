//! The synchronization engine: the decisions of request handling and of
//! startup reconciliation, as state machines.
//!
//! Each machine is driven by its caller: it hands out a `Step` (work for the
//! durable record or the firewall set, or the outcome), the caller performs
//! it and reports back an event. Every mutation updates the durable record
//! first and the firewall set only after that succeeded.
use vstd::prelude::*;

use crate::auth::{credential_matches, credential_ok};
use crate::config::NftablesConfig;
use crate::database::StoreOp;
use crate::nftables::{add_addrs_to_set, remove_addrs_from_set, targets, SetAction, SetCommand};
use crate::Addr;

verus! {

/// The three kinds of request.
#[derive(Clone, Copy, Debug, PartialEq, Eq, Structural)]
pub enum Operation {
    Add,
    Remove,
    Check,
}

/// Which collaborator failed.
#[derive(Clone, Copy, Debug, PartialEq, Eq, Structural)]
pub enum ErrorKind {
    /// The durable record could not be read or changed.
    Store,
    /// The firewall set could not be changed.
    Enforcement,
}

/// How a request, or startup, ended.
#[derive(Clone, Copy, Debug, PartialEq, Eq, Structural)]
pub enum Outcome {
    /// The work was done in full.
    Done,
    /// The answer of a check: whether the address is blacklisted.
    Present(bool),
    /// The credential did not match; nothing was read or changed.
    Unauthorized,
    /// A collaborator failed; the work stopped there.
    Failed(ErrorKind),
}

/// What the caller is to do next.
#[derive(Clone, Debug)]
pub enum Step {
    /// Run this operation on the durable record.
    Store(StoreOp),
    /// Apply this command to the firewall set.
    Enforce(SetCommand),
    /// Stop, with this outcome.
    Finish(Outcome),
}

/// A `Step` with the firewall command reduced to its action and elements.
pub enum StepModel {
    Store(StoreOp),
    Enforce(SetAction, Seq<Addr>),
    Finish(Outcome),
}

impl View for Step {
    type V = StepModel;

    open spec fn view(&self) -> StepModel {
        match self {
            Step::Store(op) => StepModel::Store(*op),
            Step::Enforce(c) => StepModel::Enforce(c.action, c.elements@),
            Step::Finish(o) => StepModel::Finish(*o),
        }
    }
}

/// Every firewall command of `step` names the configured set.
pub open spec fn step_targets(step: Step, config: NftablesConfig) -> bool {
    step matches Step::Enforce(c) ==> targets(c, config)
}

/// The HTTP status that answers a request with outcome `o`: a failure
/// shows only its class, never its detail.
pub open spec fn status_of(o: Outcome) -> u16 {
    match o {
        Outcome::Done => 200,
        Outcome::Present(_) => 200,
        Outcome::Unauthorized => 401,
        Outcome::Failed(_) => 500,
    }
}

pub fn status_code(o: Outcome) -> (r: u16)
    ensures
        r == status_of(o),
{
    match o {
        Outcome::Done | Outcome::Present(_) => 200,
        Outcome::Unauthorized => 401,
        Outcome::Failed(_) => 500,
    }
}

// ---------------------------------------------------------------------------
// Request handling

/// What a request's collaborator reported.
#[derive(Clone, Copy, Debug, PartialEq, Eq, Structural)]
pub enum Event {
    /// The durable record did the operation.
    StoreDone,
    /// The durable record answered an existence check.
    StoreAnswered(bool),
    StoreFailed,
    /// The firewall set applied the command.
    EnforceDone,
    EnforceFailed,
}

#[derive(Clone, Copy, Debug, PartialEq, Eq, Structural)]
pub enum RequestPhase {
    AwaitStore,
    AwaitEnforce,
    Finished(Outcome),
}

/// One request in flight.
#[derive(Clone, Copy, Debug, PartialEq, Eq, Structural)]
pub struct Request {
    pub op: Operation,
    pub addr: Addr,
    pub phase: RequestPhase,
}

/// The durable-record operation that carries out `op` on `addr`.
pub open spec fn store_op_of(op: Operation, addr: Addr) -> StoreOp {
    match op {
        Operation::Add => StoreOp::Insert(addr),
        Operation::Remove => StoreOp::Delete(addr),
        Operation::Check => StoreOp::Contains(addr),
    }
}

/// The firewall action that follows a mutation `op`.
pub open spec fn set_action_of(op: Operation) -> SetAction {
    match op {
        Operation::Remove => SetAction::DeleteElements,
        _ => SetAction::AddElements,
    }
}

pub open spec fn finish(r: Request, o: Outcome) -> (Request, StepModel) {
    (Request { phase: RequestPhase::Finished(o), ..r }, StepModel::Finish(o))
}

/// The state and first step of a request for `op` on `addr`.
pub open spec fn request_start(op: Operation, addr: Addr, authorized: bool) -> (Request, StepModel) {
    let r = Request { op, addr, phase: RequestPhase::AwaitStore };
    if !authorized {
        finish(r, Outcome::Unauthorized)
    } else {
        (r, StepModel::Store(store_op_of(op, addr)))
    }
}

/// The state and step that follow `e` in state `r`.
pub open spec fn request_next(r: Request, e: Event) -> (Request, StepModel) {
    match r.phase {
        RequestPhase::Finished(o) => (r, StepModel::Finish(o)),
        RequestPhase::AwaitStore => match (r.op, e) {
            (Operation::Check, Event::StoreAnswered(b)) => finish(r, Outcome::Present(b)),
            (Operation::Add, Event::StoreDone) | (Operation::Remove, Event::StoreDone) => (
                Request { phase: RequestPhase::AwaitEnforce, ..r },
                StepModel::Enforce(set_action_of(r.op), seq![r.addr]),
            ),
            _ => finish(r, Outcome::Failed(ErrorKind::Store)),
        },
        RequestPhase::AwaitEnforce => match e {
            Event::EnforceDone => finish(r, Outcome::Done),
            _ => finish(r, Outcome::Failed(ErrorKind::Enforcement)),
        },
    }
}

impl Request {
    /// Starts a request for `op` on `addr`. Unless `presented` equals
    /// `secret`, the request ends at once as unauthorized, before anything
    /// is read or changed.
    pub fn begin(op: Operation, addr: Addr, presented: Option<&[u8]>, secret: &[u8]) -> (r: (
        Request,
        Step,
    ))
        ensures
            (r.0, r.1@) == request_start(
                op,
                addr,
                credential_ok(
                    match presented {
                        Some(p) => Some(p@),
                        None => None,
                    },
                    secret@,
                ),
            ),
    {
        let req = Request { op, addr, phase: RequestPhase::AwaitStore };
        if !credential_matches(presented, secret) {
            return (
                Request { phase: RequestPhase::Finished(Outcome::Unauthorized), ..req },
                Step::Finish(Outcome::Unauthorized),
            );
        }
        let sop = match op {
            Operation::Add => StoreOp::Insert(addr),
            Operation::Remove => StoreOp::Delete(addr),
            Operation::Check => StoreOp::Contains(addr),
        };
        (req, Step::Store(sop))
    }

    /// Takes in what the last step's collaborator reported and returns the
    /// next step.
    pub fn advance(&mut self, e: Event, config: &NftablesConfig) -> (step: Step)
        ensures
            (*final(self), step@) == request_next(*old(self), e),
            step_targets(step, *config),
    {
        match self.phase {
            RequestPhase::Finished(o) => Step::Finish(o),
            RequestPhase::AwaitStore => {
                match (self.op, e) {
                    (Operation::Check, Event::StoreAnswered(b)) => self.finish(Outcome::Present(b)),
                    (Operation::Add, Event::StoreDone) => {
                        self.phase = RequestPhase::AwaitEnforce;
                        let addrs = vec![self.addr];
                        assert(addrs@ =~= seq![self.addr]);
                        match add_addrs_to_set(config, addrs.as_slice()) {
                            Some(c) => Step::Enforce(c),
                            None => self.finish(Outcome::Failed(ErrorKind::Enforcement)),
                        }
                    },
                    (Operation::Remove, Event::StoreDone) => {
                        self.phase = RequestPhase::AwaitEnforce;
                        let addrs = vec![self.addr];
                        assert(addrs@ =~= seq![self.addr]);
                        match remove_addrs_from_set(config, addrs.as_slice()) {
                            Some(c) => Step::Enforce(c),
                            None => self.finish(Outcome::Failed(ErrorKind::Enforcement)),
                        }
                    },
                    _ => self.finish(Outcome::Failed(ErrorKind::Store)),
                }
            },
            RequestPhase::AwaitEnforce => {
                match e {
                    Event::EnforceDone => self.finish(Outcome::Done),
                    _ => self.finish(Outcome::Failed(ErrorKind::Enforcement)),
                }
            },
        }
    }

    fn finish(&mut self, o: Outcome) -> (step: Step)
        ensures
            (*final(self), step@) == finish(*old(self), o),
    {
        self.phase = RequestPhase::Finished(o);
        Step::Finish(o)
    }
}

} // verus!
