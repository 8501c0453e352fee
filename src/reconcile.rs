//! Startup reconciliation: create the record's table, read every recorded
//! address, empty the firewall set, then add those addresses to it in one
//! batch. Requests are served only after this ended in `Outcome::Done`.
use vstd::prelude::*;

use crate::config::NftablesConfig;
use crate::database::StoreOp;
use crate::engine::{step_targets, ErrorKind, Outcome, Step, StepModel};
use crate::nftables::{add_addrs_to_set, flush_set, SetAction};
use crate::Addr;

verus! {

/// What startup's collaborator reported.
#[derive(Clone, Debug)]
pub enum StartupEvent {
    /// The durable record did the operation.
    StoreDone,
    /// The durable record listed these addresses.
    Listed(Vec<Addr>),
    StoreFailed,
    /// The firewall set applied the command.
    EnforceDone,
    EnforceFailed,
}

pub enum StartupEventModel {
    StoreDone,
    Listed(Seq<Addr>),
    StoreFailed,
    EnforceDone,
    EnforceFailed,
}

impl View for StartupEvent {
    type V = StartupEventModel;

    open spec fn view(&self) -> StartupEventModel {
        match self {
            StartupEvent::StoreDone => StartupEventModel::StoreDone,
            StartupEvent::Listed(v) => StartupEventModel::Listed(v@),
            StartupEvent::StoreFailed => StartupEventModel::StoreFailed,
            StartupEvent::EnforceDone => StartupEventModel::EnforceDone,
            StartupEvent::EnforceFailed => StartupEventModel::EnforceFailed,
        }
    }
}

#[derive(Clone, Copy, Debug, PartialEq, Eq, Structural)]
pub enum StartupPhase {
    /// Waiting for the table to be created.
    InitSchema,
    /// Waiting for the recorded addresses.
    Listing,
    /// Waiting for the firewall set to be emptied.
    Flushing,
    /// Waiting for the recorded addresses to be added to the set.
    Populating,
    Finished(Outcome),
}

/// Startup reconciliation in progress.
#[derive(Clone, Debug)]
pub struct Startup {
    pub phase: StartupPhase,
    /// The addresses that the durable record listed.
    pub listed: Vec<Addr>,
}

pub struct StartupModel {
    pub phase: StartupPhase,
    pub listed: Seq<Addr>,
}

impl View for Startup {
    type V = StartupModel;

    open spec fn view(&self) -> StartupModel {
        StartupModel { phase: self.phase, listed: self.listed@ }
    }
}

pub open spec fn startup_finish(s: StartupModel, o: Outcome) -> (StartupModel, StepModel) {
    (StartupModel { phase: StartupPhase::Finished(o), ..s }, StepModel::Finish(o))
}

/// The state and first step of startup.
pub open spec fn startup_start() -> (StartupModel, StepModel) {
    (
        StartupModel { phase: StartupPhase::InitSchema, listed: Seq::empty() },
        StepModel::Store(StoreOp::InitSchema),
    )
}

/// The state and step that follow `e` in state `s`.
pub open spec fn startup_next(s: StartupModel, e: StartupEventModel) -> (StartupModel, StepModel) {
    match s.phase {
        StartupPhase::Finished(o) => (s, StepModel::Finish(o)),
        StartupPhase::InitSchema => match e {
            StartupEventModel::StoreDone => (
                StartupModel { phase: StartupPhase::Listing, ..s },
                StepModel::Store(StoreOp::ListAll),
            ),
            _ => startup_finish(s, Outcome::Failed(ErrorKind::Store)),
        },
        StartupPhase::Listing => match e {
            StartupEventModel::Listed(v) => (
                StartupModel { phase: StartupPhase::Flushing, listed: v },
                StepModel::Enforce(SetAction::Flush, Seq::empty()),
            ),
            _ => startup_finish(s, Outcome::Failed(ErrorKind::Store)),
        },
        StartupPhase::Flushing => match e {
            StartupEventModel::EnforceDone => if s.listed.len() == 0 {
                startup_finish(s, Outcome::Done)
            } else {
                (
                    StartupModel { phase: StartupPhase::Populating, ..s },
                    StepModel::Enforce(SetAction::AddElements, s.listed),
                )
            },
            _ => startup_finish(s, Outcome::Failed(ErrorKind::Enforcement)),
        },
        StartupPhase::Populating => match e {
            StartupEventModel::EnforceDone => startup_finish(s, Outcome::Done),
            _ => startup_finish(s, Outcome::Failed(ErrorKind::Enforcement)),
        },
    }
}

impl Startup {
    /// Starts reconciliation; its first step creates the record's table.
    pub fn begin() -> (r: (Startup, Step))
        ensures
            (r.0@, r.1@) == startup_start(),
    {
        let s = Startup { phase: StartupPhase::InitSchema, listed: Vec::new() };
        assert(s.listed@ =~= Seq::<Addr>::empty());
        (s, Step::Store(StoreOp::InitSchema))
    }

    /// Takes in what the last step's collaborator reported and returns the
    /// next step.
    pub fn advance(&mut self, e: StartupEvent, config: &NftablesConfig) -> (step: Step)
        ensures
            (final(self)@, step@) == startup_next(old(self)@, e@),
            step_targets(step, *config),
    {
        match self.phase {
            StartupPhase::Finished(o) => Step::Finish(o),
            StartupPhase::InitSchema => match e {
                StartupEvent::StoreDone => {
                    self.phase = StartupPhase::Listing;
                    Step::Store(StoreOp::ListAll)
                },
                _ => self.finish(Outcome::Failed(ErrorKind::Store)),
            },
            StartupPhase::Listing => match e {
                StartupEvent::Listed(v) => {
                    self.phase = StartupPhase::Flushing;
                    self.listed = v;
                    let c = flush_set(config);
                    assert(c.elements@ =~= Seq::<Addr>::empty());
                    Step::Enforce(c)
                },
                _ => self.finish(Outcome::Failed(ErrorKind::Store)),
            },
            StartupPhase::Flushing => match e {
                StartupEvent::EnforceDone => match add_addrs_to_set(config, self.listed.as_slice()) {
                    None => self.finish(Outcome::Done),
                    Some(c) => {
                        self.phase = StartupPhase::Populating;
                        Step::Enforce(c)
                    },
                },
                _ => self.finish(Outcome::Failed(ErrorKind::Enforcement)),
            },
            StartupPhase::Populating => match e {
                StartupEvent::EnforceDone => self.finish(Outcome::Done),
                _ => self.finish(Outcome::Failed(ErrorKind::Enforcement)),
            },
        }
    }

    fn finish(&mut self, o: Outcome) -> (step: Step)
        ensures
            (final(self)@, step@) == startup_finish(old(self)@, o),
    {
        self.phase = StartupPhase::Finished(o);
        Step::Finish(o)
    }
}

} // verus!
