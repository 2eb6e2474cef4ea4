//! What runs of the whole registry achieve against any deployment whose
//! migrations keep their contract and only move forward.
use vstd::prelude::*;
use crate::error::MigrationError;
use crate::event::Event;
use crate::laws::lemma_run_one;
use crate::model::{
    drive_run, drive_session, phase_rank, run_all, session_rank, settled, well_behaved,
    DeploymentModel, MigrationModel,
};
use crate::registry::Registry;
use crate::runner::{MigrationRun, Phase};
use crate::session::{begin, session_outcome, RegistryRun, Stage};

verus! {

/// The registry run after the migration at its index finished, reporting `c`.
pub open spec fn advance(st: RegistryRun, c: bool) -> RegistryRun {
    RegistryRun {
        index: (st.index + 1) as usize,
        stage: begin(st.registry, (st.index + 1) as nat),
        clean_start: if st.stage->Running_0.bootstrap {
            c
        } else {
            st.clean_start
        },
        ..st
    }
}

/// Whether a registry run is about to start the migration at its index (or
/// has run them all).
pub open spec fn at_start(st: RegistryRun) -> bool {
    &&& st.wf()
    &&& st.stage == begin(st.registry, st.index as nat)
}

/// A driven run of one migration always finishes.
proof fn lemma_drive_run_finishes<S>(m: MigrationModel<S>, run: MigrationRun, s: S)
    ensures
        drive_run(m, run, s).0.phase is Finished,
    decreases phase_rank(run.phase),
{
    if let Some(op) = crate::runner::pending(run.phase) {
        let (s1, reply) = crate::model::perform(m, op, s);
        let (phase, events) = crate::runner::run_step(run, reply);
        assert(phase_rank(phase) < phase_rank(run.phase));
        lemma_drive_run_finishes(m, MigrationRun { phase, ..run }, s1);
    }
}

/// Driving a registry run through its current migration is driving that
/// migration's run, then going on with the next migration or stopping.
proof fn lemma_session_runs_migration<S>(d: DeploymentModel<S>, st: RegistryRun, s: S)
    requires
        st.wf(),
        st.stage is Running,
        d.migrations.len() == st.registry.ids().len(),
    ensures
        ({
            let run = st.stage->Running_0;
            let (r, s1, events) = drive_run(d.migrations[st.index as int], run, s);
            drive_session(d, st, s) == match r.phase {
                Phase::Finished(Ok(c)) => {
                    let (end, s2, more) = drive_session(d, advance(st, c), s1);
                    (end, s2, events + more)
                },
                Phase::Finished(Err(e)) => (
                    RegistryRun { stage: Stage::Finished(Err(e)), ..st },
                    s1,
                    events,
                ),
                _ => (st, s, Seq::<Event>::empty()),
            }
        }),
    decreases phase_rank(st.stage->Running_0.phase),
{
    let run = st.stage->Running_0;
    let m = d.migrations[st.index as int];
    let (r, s1, events) = drive_run(m, run, s);
    let op = crate::runner::pending(run.phase)->Some_0;
    let (s_a, reply) = crate::model::perform(m, op, s);
    let (phase, ev) = crate::runner::run_step(run, reply);
    let next_run = crate::runner::MigrationRun { phase, ..run };
    assert(ev + Seq::<Event>::empty() =~= ev);
    let req = crate::session::Request::Migration { index: st.index, operation: op };
    assert(crate::session::pending_request(st) == Some(req));
    assert(crate::model::respond(d, req, s) == (s_a, crate::session::Response::Migration(reply)));
    let (next_st, ev2) = crate::session::session_step(
        st,
        crate::session::Response::Migration(reply),
    );
    assert(ev2 == ev);
    if session_rank(next_st) < session_rank(st) {
        assert(drive_session(d, st, s) == {
            let (e, s2, more) = drive_session(d, next_st, s_a);
            (e, s2, ev + more)
        });
    }
    assert(drive_run(m, run, s) == {
        let (r2, s2, more) = drive_run(m, next_run, s_a);
        (r2, s2, ev + more)
    });
    match phase {
        Phase::Finished(Ok(c)) => {
            assert(drive_run(m, next_run, s_a) == (next_run, s_a, Seq::<Event>::empty()));
            let next = advance(st, c);
            assert(crate::session::session_step(st, crate::session::Response::Migration(reply)).0
                == next);
            assert(session_rank(next) < session_rank(st));
            assert(next_st == next);
            assert(drive_session(d, st, s) == {
                let (e, s2, more) = drive_session(d, next, s_a);
                (e, s2, ev + more)
            });
        },
        Phase::Finished(Err(e)) => {
            assert(drive_run(m, next_run, s_a) == (next_run, s_a, Seq::<Event>::empty()));
            let next = RegistryRun { stage: Stage::Finished(Err(e)), ..st };
            assert(drive_session(d, next, s_a) == (next, s_a, Seq::<Event>::empty()));
        },
        _ => {
            let st2 = RegistryRun { stage: Stage::Running(next_run), ..st };
            lemma_session_runs_migration(d, st2, s_a);
            lemma_drive_run_finishes(m, next_run, s_a);
            assert(advance(st2, true) == advance(st, true));
            assert(advance(st2, false) == advance(st, false));
            let (r2, s2, more) = drive_run(m, next_run, s_a);
            match r2.phase {
                Phase::Finished(Ok(c)) => {
                    let more2 = drive_session(d, advance(st, c), s2).2;
                    assert(ev + (more + more2) =~= (ev + more) + more2);
                },
                _ => {},
            }
        },
    }
}

/// A first pass that succeeds leaves every migration of the registry settled.
proof fn lemma_first_pass<S>(d: DeploymentModel<S>, st: RegistryRun, s: S)
    requires
        at_start(st),
        d.migrations.len() == st.registry.ids().len(),
        well_behaved(d),
        forall|k: int| 0 <= k < st.index ==> settled(#[trigger] d.migrations[k], s),
    ensures
        ({
            let (end, s1, events) = drive_session(d, st, s);
            &&& session_outcome(end) is Some
            &&& session_outcome(end) == Some(Ok::<(), MigrationError>(())) ==> forall|k: int|
                0 <= k < d.migrations.len() ==> settled(#[trigger] d.migrations[k], s1)
        }),
    decreases st.registry.ids().len() - st.index,
{
    let n = st.registry.ids().len();
    if st.index < n {
        let i = st.index as int;
        let run = st.stage->Running_0;
        let m = d.migrations[i];
        lemma_session_runs_migration(d, st, s);
        lemma_run_one(m, run.name, run.bootstrap, s);
        let (r, s1, events) = drive_run(m, run, s);
        if let Phase::Finished(Ok(c)) = r.phase {
            assert forall|k: int| 0 <= k < st.index + 1 implies settled(
                #[trigger] d.migrations[k],
                s1,
            ) by {
                if (m.should_apply)(s) == Ok::<bool, MigrationError>(true) {
                    assert(crate::model::keeps_contract(m));
                    if k < i {
                        assert(crate::model::preserves(d.migrations[i], d.migrations[k]));
                    }
                }
            }
            lemma_first_pass(d, advance(st, c), s1);
        }
    }
}

/// A pass over a registry whose remaining migrations are all settled skips
/// each of them: it changes nothing, emits nothing and succeeds.
proof fn lemma_settled_pass<S>(d: DeploymentModel<S>, st: RegistryRun, s: S)
    requires
        at_start(st),
        d.migrations.len() == st.registry.ids().len(),
        forall|k: int| st.index <= k < d.migrations.len() ==> settled(#[trigger] d.migrations[k], s),
    ensures
        drive_session(d, st, s) == (
            RegistryRun {
                index: st.registry.ids().len() as usize,
                stage: Stage::Finished(Ok(())),
                clean_start: if st.index == 0 && st.registry.ids().len() > 0 {
                    false
                } else {
                    st.clean_start
                },
                ..st
            },
            s,
            Seq::<Event>::empty(),
        ),
    decreases st.registry.ids().len() - st.index,
{
    let n = st.registry.ids().len();
    if st.index < n {
        let run = st.stage->Running_0;
        let m = d.migrations[st.index as int];
        lemma_session_runs_migration(d, st, s);
        lemma_run_one(m, run.name, run.bootstrap, s);
        lemma_settled_pass(d, advance(st, false), s);
        assert(Seq::<Event>::empty() + Seq::<Event>::empty() =~= Seq::<Event>::empty());
    }
}

/// Past the first migration, a registry run keeps its clean-start flag.
proof fn lemma_keeps_clean_start<S>(d: DeploymentModel<S>, st: RegistryRun, s: S)
    requires
        at_start(st),
        st.index >= 1,
        d.migrations.len() == st.registry.ids().len(),
    ensures
        drive_session(d, st, s).0.clean_start == st.clean_start,
    decreases st.registry.ids().len() - st.index,
{
    let n = st.registry.ids().len();
    if st.index < n {
        let run = st.stage->Running_0;
        let m = d.migrations[st.index as int];
        lemma_session_runs_migration(d, st, s);
        lemma_run_one(m, run.name, run.bootstrap, s);
        let (r, s1, events) = drive_run(m, run, s);
        if let Phase::Finished(Ok(c)) = r.phase {
            lemma_keeps_clean_start(d, advance(st, c), s1);
        }
    }
}

/// The registry run right after the database was ensured.
pub open spec fn bootstrapped(reg: Registry) -> RegistryRun {
    RegistryRun { registry: reg, index: 0, stage: begin(reg, 0), clean_start: false }
}

/// A run of the whole registry first ensures the database: if that fails the
/// run ends with that error, unchanged and silent; otherwise it goes on with
/// the registry's first migration.
proof fn lemma_run_all_bootstrap<S>(d: DeploymentModel<S>, reg: Registry, s: S)
    requires
        reg.wf(),
    ensures
        run_all(d, reg, s) == match (d.ensure_database)(s) {
            Ok(()) => drive_session(d, bootstrapped(reg), s),
            Err(e) => (
                RegistryRun {
                    registry: reg,
                    index: 0,
                    stage: Stage::Finished(Err(e)),
                    clean_start: false,
                },
                s,
                Seq::<Event>::empty(),
            ),
        },
{
    assert(Seq::<Event>::empty() + Seq::<Event>::empty() =~= Seq::<Event>::empty());
    let st = crate::session::initial(reg);
    let req = crate::session::Request::EnsureDatabase;
    assert(crate::session::pending_request(st) == Some(req));
    let resp = crate::session::Response::DatabaseReady((d.ensure_database)(s));
    assert(crate::model::respond(d, req, s) == (s, resp));
    let next = bootstrapped(reg);
    assert(session_rank(next) < session_rank(st));
    let (next_st, ev) = crate::session::session_step(st, resp);
    assert(ev == Seq::<Event>::empty());
    assert(run_all(d, reg, s) == drive_session(d, st, s));
    assert(drive_session(d, st, s) == {
        let (r, s2, more) = drive_session(d, next_st, s);
        (r, s2, ev + more)
    });
    if (d.ensure_database)(s) is Ok {
        assert(next_st == next);
    } else {
        assert(next_st == RegistryRun {
                    registry: reg,
                    index: 0,
                    stage: Stage::Finished(Err((d.ensure_database)(s)->Err_0)),
                    clean_start: false,
                });
        assert(drive_session(d, next_st, s) == (next_st, s, Seq::<Event>::empty()));
    }
    let more = drive_session(d, next, s).2;
    assert(Seq::<Event>::empty() + more =~= more);
}

/// Running the whole registry twice applies nothing the second time: once a
/// run has succeeded, a second run changes nothing and emits no event; it
/// ends as ensuring the database ends, and reports no clean start. A run of
/// the registry always finishes.
pub proof fn lemma_rerun_applies_nothing<S>(d: DeploymentModel<S>, reg: Registry, s: S)
    requires
        reg.wf(),
        d.migrations.len() == reg.ids().len(),
        well_behaved(d),
    ensures
        ({
            let (end1, s1, events1) = run_all(d, reg, s);
            let (end2, s2, events2) = run_all(d, reg, s1);
            &&& session_outcome(end1) is Some
            &&& session_outcome(end1) == Some(Ok::<(), MigrationError>(())) ==> {
                &&& s2 == s1
                &&& events2 == Seq::<Event>::empty()
                &&& session_outcome(end2) == Some((d.ensure_database)(s1))
                &&& !end2.clean_start
            }
        }),
{
    lemma_run_all_bootstrap(d, reg, s);
    if (d.ensure_database)(s) is Ok {
        lemma_first_pass(d, bootstrapped(reg), s);
        let (end1, s1, events1) = run_all(d, reg, s);
        lemma_run_all_bootstrap(d, reg, s1);
        if session_outcome(end1) == Some(Ok::<(), MigrationError>(())) {
            match (d.ensure_database)(s1) {
                Ok(u) => {
                    lemma_settled_pass(d, bootstrapped(reg), s1);
                    assert(u == ());
                },
                Err(e) => {},
            }
        }
    }
}

/// On a database where the registry's first migration has work to do (a
/// brand-new one), a successful run of the whole registry reports a clean
/// start.
pub proof fn lemma_clean_start_on_new_database<S>(d: DeploymentModel<S>, reg: Registry, s: S)
    requires
        reg.wf(),
        reg.ids().len() > 0,
        d.migrations.len() == reg.ids().len(),
        (d.migrations[0].should_apply)(s) == Ok::<bool, MigrationError>(true),
    ensures
        ({
            let (end, s1, events) = run_all(d, reg, s);
            session_outcome(end) == Some(Ok::<(), MigrationError>(())) ==> end.clean_start
        }),
{
    lemma_run_all_bootstrap(d, reg, s);
    if (d.ensure_database)(s) is Ok {
        let st = bootstrapped(reg);
        let run = st.stage->Running_0;
        let m = d.migrations[0];
        lemma_session_runs_migration(d, st, s);
        lemma_run_one(m, run.name, run.bootstrap, s);
        let (r, s1, events) = drive_run(m, run, s);
        if let Phase::Finished(Ok(c)) = r.phase {
            lemma_keeps_clean_start(d, advance(st, c), s1);
        }
    }
}

} // verus!
