//! A model of the database side of a run, for stating what runs achieve.
//!
//! A migration is modelled by what its operations answer in a database state
//! and by what applying it does to that state. Driving a run against such a
//! model feeds it exactly the transitions of `run_step` and `session_step`.
use vstd::prelude::*;
use crate::error::MigrationError;
use crate::event::Event;
use crate::registry::Registry;
use crate::runner::{pending, run_step, MigrationRun, Operation, Phase, Reply};
use crate::session::{initial, pending_request, session_step, RegistryRun, Request, Response, Stage};

verus! {

/// How a migration behaves against a database in state `S`. Its checks have
/// no side effects; applying it yields the next state and whether it ran.
#[verifier::reject_recursive_types(S)]
pub struct MigrationModel<S> {
    pub should_apply: spec_fn(S) -> Result<bool, MigrationError>,
    pub apply: spec_fn(S) -> (S, Result<(), MigrationError>),
    pub verify: spec_fn(S) -> Result<bool, MigrationError>,
}

/// A deployment: how creating the database answers in a state (it leaves
/// the schema as it is), and the models of the registry's migrations, in order.
#[verifier::reject_recursive_types(S)]
pub struct DeploymentModel<S> {
    pub ensure_database: spec_fn(S) -> Result<(), MigrationError>,
    pub migrations: Seq<MigrationModel<S>>,
}

/// Whether migration `m` has nothing left to do in state `s`.
pub open spec fn settled<S>(m: MigrationModel<S>, s: S) -> bool {
    (m.should_apply)(s) == Ok::<bool, MigrationError>(false)
}

/// What every migration author owes: once the end state is verified, the
/// migration has nothing left to do.
pub open spec fn keeps_contract<S>(m: MigrationModel<S>) -> bool {
    forall|s: S| (m.verify)(s) == Ok::<bool, MigrationError>(true) ==> #[trigger] settled(m, s)
}

/// Applying `later` successfully leaves `earlier` settled: migrations only
/// move forward.
pub open spec fn preserves<S>(later: MigrationModel<S>, earlier: MigrationModel<S>) -> bool {
    forall|s: S|
        settled(earlier, s) && (#[trigger] (later.apply)(s)).1 is Ok ==> settled(
            earlier,
            (later.apply)(s).0,
        )
}

/// Every migration keeps its contract, and later ones preserve earlier ones.
pub open spec fn well_behaved<S>(d: DeploymentModel<S>) -> bool {
    &&& forall|i: int| 0 <= i < d.migrations.len() ==> keeps_contract(#[trigger] d.migrations[i])
    &&& forall|i: int, j: int|
        0 <= i < j < d.migrations.len() ==> preserves(
            #[trigger] d.migrations[j],
            #[trigger] d.migrations[i],
        )
}

/// The state after migration `m` performs `op` in state `s`, and its reply.
pub open spec fn perform<S>(m: MigrationModel<S>, op: Operation, s: S) -> (S, Reply) {
    match op {
        Operation::ShouldApply => (s, Reply::ShouldApply((m.should_apply)(s))),
        Operation::Apply => ((m.apply)(s).0, Reply::Applied((m.apply)(s).1)),
        Operation::Verify => (s, Reply::Verified((m.verify)(s))),
    }
}

/// How many steps a run in `phase` has left at most.
pub open spec fn phase_rank(phase: Phase) -> nat {
    match phase {
        Phase::Checking => 3,
        Phase::Applying => 2,
        Phase::Verifying => 1,
        Phase::Finished(_) => 0,
    }
}

/// Drives `run` against migration `m` from state `s` until it is finished:
/// the run at the end, the state at the end, and the events emitted.
pub open spec fn drive_run<S>(m: MigrationModel<S>, run: MigrationRun, s: S) -> (
    MigrationRun,
    S,
    Seq<Event>,
)
    decreases phase_rank(run.phase),
{
    match pending(run.phase) {
        None => (run, s, seq![]),
        Some(op) => {
            let (s1, reply) = perform(m, op, s);
            let (phase, events) = run_step(run, reply);
            let next = MigrationRun { phase, ..run };
            if phase_rank(phase) < phase_rank(run.phase) {
                let (r, s2, more) = drive_run(m, next, s1);
                (r, s2, events + more)
            } else {
                (next, s1, events)
            }
        },
    }
}

/// One complete run of migration `m`, named `name`, from state `s`: its
/// outcome, the state at the end, and the events emitted.
pub open spec fn run_one<S>(m: MigrationModel<S>, name: String, bootstrap: bool, s: S) -> (
    Option<Result<bool, MigrationError>>,
    S,
    Seq<Event>,
) {
    let (r, s1, events) = drive_run(
        m,
        MigrationRun { name, bootstrap, phase: Phase::Checking },
        s,
    );
    (crate::runner::phase_outcome(r.phase), s1, events)
}

/// The state after the deployment serves `req` in state `s`, and its response.
pub open spec fn respond<S>(d: DeploymentModel<S>, req: Request, s: S) -> (S, Response) {
    match req {
        Request::EnsureDatabase => (s, Response::DatabaseReady((d.ensure_database)(s))),
        Request::Migration { index, operation } => {
            let (s1, reply) = perform(d.migrations[index as int], operation, s);
            (s1, Response::Migration(reply))
        },
    }
}

/// How many steps a registry run has left at most.
pub open spec fn session_rank(st: RegistryRun) -> nat {
    let n = st.registry.ids().len();
    match st.stage {
        Stage::Bootstrapping => 4 * n + 1,
        Stage::Running(run) => if st.index < n {
            (4 * (n - 1 - st.index) + phase_rank(run.phase) + 1) as nat
        } else {
            0
        },
        Stage::Finished(_) => 0,
    }
}

/// Drives the registry run `st` against deployment `d` from state `s` until
/// it is finished: the run at the end, the state at the end, and the events.
pub open spec fn drive_session<S>(d: DeploymentModel<S>, st: RegistryRun, s: S) -> (
    RegistryRun,
    S,
    Seq<Event>,
)
    decreases session_rank(st),
{
    match pending_request(st) {
        None => (st, s, seq![]),
        Some(req) => {
            let (s1, resp) = respond(d, req, s);
            let (next, events) = session_step(st, resp);
            if session_rank(next) < session_rank(st) {
                let (r, s2, more) = drive_session(d, next, s1);
                (r, s2, events + more)
            } else {
                (next, s1, events)
            }
        },
    }
}

/// One complete run of the whole registry from state `s`.
pub open spec fn run_all<S>(d: DeploymentModel<S>, reg: Registry, s: S) -> (RegistryRun, S, Seq<Event>) {
    drive_session(d, initial(reg), s)
}

} // verus!
