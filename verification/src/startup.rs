//! The order of the work at startup: acquire a connection to the database,
//! run the migrations on it, and only then serve.
//!
//! The steps themselves are made by whoever drives the startup. What stands
//! here says which step is due and what follows from how it went.

use vstd::prelude::*;

verus! {

/// The step of the startup that failed.
#[derive(Clone, Copy, Debug, PartialEq, Eq, Structural)]
pub enum Fault {
    /// No connection to the database could be had.
    Connection,
    /// The migrations did not run through.
    Migration,
}

/// What is to be done next.
#[derive(Clone, Copy, Debug, PartialEq, Eq, Structural)]
pub enum Step {
    /// Acquire a connection to the database.
    Connect,
    /// Run the migrations on the connection.
    Migrate,
    /// Start to accept requests.
    Serve,
    /// Give up: the given step has failed.
    Abort(Fault),
}

/// How far the startup has come.
#[derive(Clone, Copy, Debug, PartialEq, Eq, Structural)]
pub enum Phase {
    /// No connection to the database has been acquired yet.
    Connecting,
    /// The connection is there, and the migrations have not run yet.
    Migrating,
    /// The migrations have run: requests are accepted.
    Serving,
    /// A step failed. The startup has ended and no request is accepted.
    Aborted(Fault),
}

impl Phase {
    /// What is to be done next.
    pub open spec fn next(self) -> Step {
        match self {
            Phase::Connecting => Step::Connect,
            Phase::Migrating => Step::Migrate,
            Phase::Serving => Step::Serve,
            Phase::Aborted(fault) => Step::Abort(fault),
        }
    }

    /// The phase once the step that was due has been made and has succeeded
    /// (`ok`) or failed. A failure ends the startup. Nothing follows on
    /// serving and on giving up: the phase stays as it is.
    pub open spec fn advance(self, ok: bool) -> Phase {
        match self {
            Phase::Connecting => if ok {
                Phase::Migrating
            } else {
                Phase::Aborted(Fault::Connection)
            },
            Phase::Migrating => if ok {
                Phase::Serving
            } else {
                Phase::Aborted(Fault::Migration)
            },
            Phase::Serving => self,
            Phase::Aborted(_) => self,
        }
    }

    /// The phase after steps were made with the given results, one after
    /// the other.
    pub open spec fn after(self, results: Seq<bool>) -> Phase
        decreases results.len(),
    {
        if results.len() == 0 {
            self
        } else {
            self.after(results.drop_last()).advance(results.last())
        }
    }
}

/// The startup connects first, then migrates, then serves, and the first
/// failure ends it for good.
///
/// After steps with the given results, counted from the beginning: requests
/// are accepted if and only if there were two steps or more and the first
/// two, to connect and to migrate, succeeded. Where one of the two failed,
/// the startup has given up on the first that did, whatever came after.
pub proof fn law_startup_order(results: Seq<bool>)
    ensures
        ({
            let phase = Phase::Connecting.after(results);
            let n = results.len();
            &&& n == 0 ==> phase == Phase::Connecting
            &&& n >= 1 && !results[0] ==> phase == Phase::Aborted(Fault::Connection)
            &&& n == 1 && results[0] ==> phase == Phase::Migrating
            &&& n >= 2 && results[0] && !results[1] ==> phase == Phase::Aborted(Fault::Migration)
            &&& n >= 2 && results[0] && results[1] ==> phase == Phase::Serving
        }),
    decreases results.len(),
{
    if results.len() > 0 {
        let earlier = results.drop_last();
        law_startup_order(earlier);
        if earlier.len() >= 1 {
            assert(earlier[0] == results[0]);
        }
        if earlier.len() >= 2 {
            assert(earlier[1] == results[1]);
        }
    }
}

} // verus!
