//! The launch of the service: a stage is attached, the startup is gone
//! through, and at its end stands the service.

use vstd::prelude::*;
use crate::service::{stage, Service, ServiceView, Stage};
use crate::startup::{Fault, Phase, Step};

verus! {

/// What a [`Launch`] holds: the mount point of its stage, and how far its
/// startup has come.
pub struct LaunchView {
    pub base: Seq<char>,
    pub phase: Phase,
}

/// A service that is being launched. It says which step of the startup is
/// due and is told how the step went; it hands out the service once the
/// startup has come to an end with success, and never otherwise.
pub struct Launch {
    stage: Stage,
    phase: Phase,
}

impl View for Launch {
    type V = LaunchView;

    closed spec fn view(&self) -> LaunchView {
        LaunchView { base: self.stage.base@, phase: self.phase }
    }
}

/// The launch of the service: its stage attached, and nothing done yet.
pub fn rocket() -> (launch: Launch)
    ensures
        launch@ == (LaunchView { base: "/diesel"@, phase: Phase::Connecting }),
{
    Launch::new(stage())
}

impl Launch {
    /// A launch with the given stage attached, of which nothing has been
    /// done yet.
    pub fn new(stage: Stage) -> (launch: Launch)
        ensures
            launch@ == (LaunchView { base: stage.base@, phase: Phase::Connecting }),
    {
        Launch { stage, phase: Phase::Connecting }
    }

    /// The stage that is attached.
    pub fn stage(&self) -> (stage: Stage)
        ensures
            stage.base@ == self@.base,
    {
        self.stage
    }

    /// How far the startup has come.
    pub fn phase(&self) -> (phase: Phase)
        ensures
            phase == self@.phase,
    {
        self.phase
    }

    /// The step of the startup that is due.
    pub fn next(&self) -> (step: Step)
        ensures
            step == self@.phase.next(),
    {
        match self.phase {
            Phase::Connecting => Step::Connect,
            Phase::Migrating => Step::Migrate,
            Phase::Serving => Step::Serve,
            Phase::Aborted(fault) => Step::Abort(fault),
        }
    }

    /// Takes note that the step that was due has been made and has
    /// succeeded (`ok`) or failed.
    pub fn advance(&mut self, ok: bool)
        ensures
            final(self)@ == (LaunchView { phase: old(self)@.phase.advance(ok), ..old(self)@ }),
    {
        match self.phase {
            Phase::Connecting => {
                if ok {
                    self.phase = Phase::Migrating;
                } else {
                    self.phase = Phase::Aborted(Fault::Connection);
                }
            },
            Phase::Migrating => {
                if ok {
                    self.phase = Phase::Serving;
                } else {
                    self.phase = Phase::Aborted(Fault::Migration);
                }
            },
            Phase::Serving => {},
            Phase::Aborted(_) => {},
        }
    }

    /// The service, mounted at the stage's mount point and with no record
    /// stored, if the startup has come to serving; the launch itself
    /// otherwise.
    pub fn serve(self) -> (out: Result<Service, Launch>)
        ensures
            match out {
                Ok(service) => {
                    &&& self@.phase == Phase::Serving
                    &&& service@ == ServiceView::launched(self@.base)
                    &&& service@.wf()
                },
                Err(launch) => self@.phase != Phase::Serving && launch@ == self@,
            },
    {
        match self.phase {
            Phase::Serving => Ok(Service::new(self.stage)),
            _ => Err(self),
        }
    }
}

} // verus!
