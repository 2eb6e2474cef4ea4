//! The run of the whole registry: make sure the database exists, then run
//! every migration in order, stopping at the first error.
use vstd::prelude::*;
use crate::error::MigrationError;
use crate::event::Event;
use crate::registry::Registry;
use crate::runner::{answers, pending, run_step, MigrationRun, Operation, Phase, Reply};

verus! {

/// What the caller must do next for a registry run.
#[derive(PartialEq, Eq, Structural, Clone, Copy, Debug)]
pub enum Request {
    /// Create the target database if it is missing (idempotent).
    EnsureDatabase,
    /// Perform `operation` of the migration at `index` of the registry.
    Migration { index: usize, operation: Operation },
}

/// The result of a request, handed back to the run.
#[derive(Debug)]
pub enum Response {
    /// Whether the database exists now.
    DatabaseReady(Result<(), MigrationError>),
    /// The reply of the current migration.
    Migration(Reply),
}

/// Where a registry run stands.
#[derive(Debug)]
pub enum Stage {
    /// Waiting for the database to be ensured.
    Bootstrapping,
    /// Running the migration at the run's index.
    Running(MigrationRun),
    /// Done: every migration is in place, or the first error.
    Finished(Result<(), MigrationError>),
}

/// A run of every migration of a registry, in order.
#[derive(Debug)]
pub struct RegistryRun {
    pub registry: Registry,
    /// Index of the migration being run (the registry's length once all ran).
    pub index: usize,
    pub stage: Stage,
    /// Whether the registry's first migration found a brand-new database.
    pub clean_start: bool,
}

/// The stage in which the migration at `index` starts, or the run ends.
pub open spec fn begin(reg: Registry, index: nat) -> Stage {
    if index < reg.names().len() {
        Stage::Running(
            MigrationRun { name: reg.names()[index as int], bootstrap: index == 0, phase: Phase::Checking },
        )
    } else {
        Stage::Finished(Ok(()))
    }
}

/// A run that has not asked anything yet.
pub open spec fn initial(reg: Registry) -> RegistryRun {
    RegistryRun { registry: reg, index: 0, stage: Stage::Bootstrapping, clean_start: false }
}

/// The request a run waits for, if any.
pub open spec fn pending_request(st: RegistryRun) -> Option<Request> {
    match st.stage {
        Stage::Bootstrapping => Some(Request::EnsureDatabase),
        Stage::Running(run) => match pending(run.phase) {
            Some(op) => Some(Request::Migration { index: st.index, operation: op }),
            None => None,
        },
        Stage::Finished(_) => None,
    }
}

/// Whether `resp` answers the request a run waits for.
pub open spec fn accepts(st: RegistryRun, resp: Response) -> bool {
    match (st.stage, resp) {
        (Stage::Bootstrapping, Response::DatabaseReady(_)) => true,
        (Stage::Running(run), Response::Migration(reply)) => answers(run.phase, reply),
        _ => false,
    }
}

/// The run after `resp`, and the events emitted. A response that does not
/// answer the pending request changes nothing.
pub open spec fn session_step(st: RegistryRun, resp: Response) -> (RegistryRun, Seq<Event>) {
    if !accepts(st, resp) {
        (st, seq![])
    } else {
        match (st.stage, resp) {
            (Stage::Bootstrapping, Response::DatabaseReady(Err(e))) => (
                RegistryRun { stage: Stage::Finished(Err(e)), ..st },
                seq![],
            ),
            (Stage::Bootstrapping, Response::DatabaseReady(Ok(()))) => (
                RegistryRun { index: 0, stage: begin(st.registry, 0), ..st },
                seq![],
            ),
            (Stage::Running(run), Response::Migration(reply)) => {
                let (phase, events) = run_step(run, reply);
                match phase {
                    Phase::Finished(Err(e)) => (
                        RegistryRun { stage: Stage::Finished(Err(e)), ..st },
                        events,
                    ),
                    Phase::Finished(Ok(c)) => (
                        RegistryRun {
                            index: (st.index + 1) as usize,
                            stage: begin(st.registry, (st.index + 1) as nat),
                            clean_start: if run.bootstrap {
                                c
                            } else {
                                st.clean_start
                            },
                            ..st
                        },
                        events,
                    ),
                    _ => (RegistryRun { stage: Stage::Running(MigrationRun { phase, ..run }), ..st }, events),
                }
            },
            _ => (st, seq![]),
        }
    }
}

/// The outcome of a run, once it is finished.
pub open spec fn session_outcome(st: RegistryRun) -> Option<Result<(), MigrationError>> {
    match st.stage {
        Stage::Finished(o) => Some(o),
        _ => None,
    }
}

impl RegistryRun {
    /// The registry run's own consistency: the migration being run is the
    /// one at `index`, under its registry name.
    pub open spec fn wf(&self) -> bool {
        &&& self.registry.wf()
        &&& self.index <= self.registry.ids().len()
        &&& match self.stage {
            Stage::Running(run) => {
                &&& self.index < self.registry.ids().len()
                &&& run.name == self.registry.names()[self.index as int]
                &&& run.bootstrap == (self.index == 0)
                &&& !(run.phase is Finished)
            },
            _ => true,
        }
    }

    /// A run of every migration of `registry`, starting with the database.
    pub fn new(registry: Registry) -> (r: RegistryRun)
        requires
            registry.wf(),
        ensures
            r == initial(registry),
            r.wf(),
    {
        RegistryRun { registry, index: 0, stage: Stage::Bootstrapping, clean_start: false }
    }

    /// The request the caller must perform next; `None` once finished.
    pub fn next_request(&self) -> (r: Option<Request>)
        ensures
            r == pending_request(*self),
    {
        match &self.stage {
            Stage::Bootstrapping => Some(Request::EnsureDatabase),
            Stage::Running(run) => match run.next_operation() {
                Some(op) => Some(Request::Migration { index: self.index, operation: op }),
                None => None,
            },
            Stage::Finished(_) => None,
        }
    }

    /// Whether `resp` answers the pending request.
    pub fn expects(&self, resp: &Response) -> (r: bool)
        ensures
            r == accepts(*self, *resp),
    {
        match (&self.stage, resp) {
            (Stage::Bootstrapping, Response::DatabaseReady(_)) => true,
            (Stage::Running(run), Response::Migration(reply)) => run.expects(reply),
            _ => false,
        }
    }

    /// Whether the first migration of the registry found a brand-new database.
    pub fn clean_start(&self) -> (r: bool)
        ensures
            r == self.clean_start,
    {
        self.clean_start
    }

    fn start(registry: Registry, index: usize, clean_start: bool) -> (r: RegistryRun)
        requires
            registry.wf(),
            index <= registry.ids().len(),
        ensures
            r == (RegistryRun { registry, index, stage: begin(registry, index as nat), clean_start }),
    {
        if index < registry.len() {
            let name = registry.name(index).clone();
            let stage = Stage::Running(MigrationRun::new(name, index == 0));
            RegistryRun { registry, index, stage, clean_start }
        } else {
            RegistryRun { registry, index, stage: Stage::Finished(Ok(())), clean_start }
        }
    }

    /// Takes the response to the pending request, appends the events of the
    /// step to `events`, and returns the run as it then stands. A response
    /// that does not answer the pending request leaves the run as it was.
    pub fn receive(self, resp: Response, events: &mut Vec<Event>) -> (next: RegistryRun)
        requires
            self.wf(),
        ensures
            next == session_step(self, resp).0,
            final(events)@ == old(events)@ + session_step(self, resp).1,
            next.wf(),
    {
        if !self.expects(&resp) {
            proof {
                assert(old(events)@ + seq![] =~= old(events)@);
            }
            return self;
        }
        let ghost events0 = events@;
        let RegistryRun { registry, index, stage, clean_start } = self;
        match (stage, resp) {
            (Stage::Bootstrapping, Response::DatabaseReady(Err(e))) => {
                assert(events@ =~= events0 + seq![]);
                RegistryRun { registry, index, stage: Stage::Finished(Err(e)), clean_start }
            },
            (Stage::Bootstrapping, Response::DatabaseReady(Ok(()))) => {
                assert(events@ =~= events0 + seq![]);
                RegistryRun::start(registry, 0, clean_start)
            },
            (Stage::Running(mut run), Response::Migration(reply)) => {
                assert(index < registry.ids().len());
                run.receive(reply, events);
                let bootstrap = run.bootstrap;
                match run.phase {
                    Phase::Finished(Err(e)) => {
                        RegistryRun { registry, index, stage: Stage::Finished(Err(e)), clean_start }
                    },
                    Phase::Finished(Ok(c)) => {
                        let clean_start = if bootstrap {
                            c
                        } else {
                            clean_start
                        };
                        RegistryRun::start(registry, index + 1, clean_start)
                    },
                    phase => {
                        let run = MigrationRun { name: run.name, bootstrap, phase };
                        RegistryRun { registry, index, stage: Stage::Running(run), clean_start }
                    },
                }
            },
            (stage, _) => {
                proof {
                    assert(false);
                }
                RegistryRun { registry, index, stage, clean_start }
            },
        }
    }

    /// The outcome of the run: `Some(Ok(()))` once every migration is in
    /// place, `Some(Err(e))` with the first error, `None` while requests are
    /// pending.
    pub fn into_outcome(self) -> (r: Option<Result<(), MigrationError>>)
        ensures
            r == session_outcome(self),
    {
        match self.stage {
            Stage::Finished(o) => Some(o),
            _ => None,
        }
    }
}

} // verus!
