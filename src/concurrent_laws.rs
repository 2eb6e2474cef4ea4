//! What many registry runs achieve when they share one database and their
//! requests interleave in any order.
use vstd::prelude::*;
use crate::error::MigrationError;
use crate::model::{respond, run_all, settled, DeploymentModel};
use crate::runner::Phase;
use crate::registry::Registry;
use crate::session::{pending_request, session_step, RegistryRun, Request, Stage};

verus! {

/// Whether migrations `0..i` are all settled in state `t`.
pub open spec fn settled_below<S>(d: DeploymentModel<S>, t: S, i: int) -> bool {
    forall|k: int| 0 <= k < i ==> settled(#[trigger] d.migrations[k], t)
}

/// A deployment whose database calls are idempotent and never fail:
/// ensuring the database and checking always answer, applying always runs,
/// applying a settled migration changes nothing, a settled migration
/// verifies, applying a migration after all earlier ones settles it, and
/// applying never unsettles an earlier migration.
pub open spec fn idempotent<S>(d: DeploymentModel<S>) -> bool {
    let ms = d.migrations;
    &&& forall|t: S| (#[trigger] (d.ensure_database)(t)) is Ok
    &&& forall|k: int, t: S| 0 <= k < ms.len() ==> (#[trigger] (ms[k].should_apply)(t)) is Ok
    &&& forall|k: int, t: S| 0 <= k < ms.len() ==> (#[trigger] (ms[k].apply)(t)).1 is Ok
    &&& forall|k: int, t: S|
        0 <= k < ms.len() && settled(ms[k], t) ==> (#[trigger] (ms[k].apply)(t)).0 == t
    &&& forall|k: int, t: S|
        0 <= k < ms.len() && settled(ms[k], t) ==> (#[trigger] (ms[k].verify)(t)) == Ok::<
            bool,
            MigrationError,
        >(true)
    &&& forall|k: int, t: S|
        0 <= k < ms.len() && settled_below(d, t, k) ==> settled(
            ms[k],
            (#[trigger] (ms[k].apply)(t)).0,
        )
    &&& forall|i: int, k: int, t: S|
        0 <= i < k < ms.len() && settled(ms[i], t) ==> settled(
            #[trigger] ms[i],
            (#[trigger] (ms[k].apply)(t)).0,
        )
}

/// The state after settling migrations `0..k` one after the other from `s`.
pub open spec fn sequential_state<S>(d: DeploymentModel<S>, s: S, k: nat) -> S
    decreases k,
{
    if k == 0 {
        s
    } else {
        let t = sequential_state(d, s, (k - 1) as nat);
        let m = d.migrations[k - 1];
        if settled(m, t) {
            t
        } else {
            (m.apply)(t).0
        }
    }
}

/// The index of the first migration from `k` on that is not settled in `t`
/// (the number of migrations if there is none).
pub open spec fn lead_from<S>(d: DeploymentModel<S>, t: S, k: nat) -> nat
    decreases d.migrations.len() - k,
{
    if k >= d.migrations.len() || !settled(d.migrations[k as int], t) {
        k
    } else {
        lead_from(d, t, k + 1)
    }
}

/// The length of the longest settled prefix of the registry in `t`.
pub open spec fn lead<S>(d: DeploymentModel<S>, t: S) -> nat {
    lead_from(d, t, 0)
}

proof fn lemma_lead_from<S>(d: DeploymentModel<S>, t: S, k: nat)
    requires
        k <= d.migrations.len(),
    ensures
        k <= lead_from(d, t, k) <= d.migrations.len(),
        forall|j: int| k <= j < lead_from(d, t, k) ==> settled(#[trigger] d.migrations[j], t),
        lead_from(d, t, k) < d.migrations.len() ==> !settled(
            d.migrations[lead_from(d, t, k) as int],
            t,
        ),
    decreases d.migrations.len() - k,
{
    if k < d.migrations.len() && settled(d.migrations[k as int], t) {
        lemma_lead_from(d, t, k + 1);
    }
}

/// The longest settled prefix: everything before it is settled, the
/// migration at it is not.
proof fn lemma_lead<S>(d: DeploymentModel<S>, t: S)
    ensures
        lead(d, t) <= d.migrations.len(),
        settled_below(d, t, lead(d, t) as int),
        lead(d, t) < d.migrations.len() ==> !settled(d.migrations[lead(d, t) as int], t),
{
    lemma_lead_from(d, t, 0);
}

/// With `0..g` settled and `g` unsettled, the longest settled prefix is `g`.
proof fn lemma_lead_is<S>(d: DeploymentModel<S>, t: S, g: int)
    requires
        0 <= g <= d.migrations.len(),
        settled_below(d, t, g),
        g < d.migrations.len() ==> !settled(d.migrations[g], t),
    ensures
        lead(d, t) == g,
{
    lemma_lead(d, t);
    let l = lead(d, t) as int;
    if l < g {
        assert(settled(d.migrations[l], t));
    } else if l > g {
        assert(settled(d.migrations[g], t));
    }
}

/// A state reached by settling `0..g`, in which `g..h` are settled too, is
/// also the state reached by settling `0..h`.
proof fn lemma_sequential_stays<S>(d: DeploymentModel<S>, s: S, g: nat, h: nat)
    requires
        g <= h <= d.migrations.len(),
        forall|k: int| g <= k < h ==> settled(#[trigger] d.migrations[k], sequential_state(d, s, g)),
    ensures
        sequential_state(d, s, h) == sequential_state(d, s, g),
    decreases h - g,
{
    if g < h {
        lemma_sequential_stays(d, s, g, (h - 1) as nat);
        assert(settled(d.migrations[h - 1], sequential_state(d, s, g)));
    }
}

/// One request of caller `r` served against the shared state `t`; a finished
/// caller has nothing left to ask.
pub open spec fn concurrent_step<S>(
    d: DeploymentModel<S>,
    runs: Seq<RegistryRun>,
    t: S,
    r: int,
) -> (Seq<RegistryRun>, S) {
    match pending_request(runs[r]) {
        Some(req) => {
            let (t1, resp) = respond(d, req, t);
            (runs.update(r, session_step(runs[r], resp).0), t1)
        },
        None => (runs, t),
    }
}

/// The callers and the shared state after serving one request of each caller
/// that `schedule` names, in its order.
pub open spec fn run_schedule<S>(
    d: DeploymentModel<S>,
    runs: Seq<RegistryRun>,
    t: S,
    schedule: Seq<int>,
) -> (Seq<RegistryRun>, S)
    decreases schedule.len(),
{
    if schedule.len() == 0 {
        (runs, t)
    } else {
        let (runs1, t1) = concurrent_step(d, runs, t, schedule[0]);
        run_schedule(d, runs1, t1, schedule.drop_first())
    }
}

/// What a caller has established about the shared state `t`: the migrations
/// it has passed are settled, as is the one it is verifying; a finished caller
/// succeeded, with every migration settled.
pub open spec fn caller_inv<S>(d: DeploymentModel<S>, st: RegistryRun, t: S) -> bool {
    &&& st.wf()
    &&& match st.stage {
        Stage::Bootstrapping => true,
        Stage::Running(run) => {
            &&& settled_below(d, t, st.index as int)
            &&& run.phase is Verifying ==> settled(d.migrations[st.index as int], t)
        },
        Stage::Finished(o) => {
            &&& o == Ok::<(), MigrationError>(())
            &&& settled_below(d, t, d.migrations.len() as int)
        },
    }
}

/// Every caller runs `reg` and keeps its invariant, and the shared state is
/// the one reached by settling its longest settled prefix one after another.
pub open spec fn system_inv<S>(
    d: DeploymentModel<S>,
    reg: Registry,
    s: S,
    runs: Seq<RegistryRun>,
    t: S,
) -> bool {
    &&& forall|r: int|
        0 <= r < runs.len() ==> (#[trigger] runs[r]).registry == reg && caller_inv(d, runs[r], t)
    &&& t == sequential_state(d, s, lead(d, t))
}

/// Applying migration `i` while it is unsettled, after all earlier ones, keeps
/// what every caller has established.
proof fn lemma_effective_apply<S>(d: DeploymentModel<S>, st: RegistryRun, t: S, i: int)
    requires
        idempotent(d),
        0 <= i < d.migrations.len(),
        d.migrations.len() == st.registry.ids().len(),
        settled_below(d, t, i),
        !settled(d.migrations[i], t),
        caller_inv(d, st, t),
    ensures
        caller_inv(d, st, (d.migrations[i].apply)(t).0),
{
    let t1 = (d.migrations[i].apply)(t).0;
    match st.stage {
        Stage::Running(run) => {
            let j = st.index as int;
            if j > i {
                assert(settled(d.migrations[i], t));
            }
            assert forall|k: int| 0 <= k < j implies settled(#[trigger] d.migrations[k], t1) by {
                assert(settled(d.migrations[k], t));
            }
            if run.phase is Verifying {
                assert(settled(d.migrations[j], t));
            }
        },
        Stage::Finished(_) => {
            assert(settled(d.migrations[i], t));
        },
        _ => {},
    }
}

/// Serving one request of any caller keeps the system invariant.
proof fn lemma_step_keeps<S>(
    d: DeploymentModel<S>,
    reg: Registry,
    s: S,
    runs: Seq<RegistryRun>,
    t: S,
    r: int,
)
    requires
        reg.wf(),
        d.migrations.len() == reg.ids().len(),
        idempotent(d),
        system_inv(d, reg, s, runs, t),
        0 <= r < runs.len(),
    ensures
        ({
            let (runs1, t1) = concurrent_step(d, runs, t, r);
            &&& runs1.len() == runs.len()
            &&& system_inv(d, reg, s, runs1, t1)
        }),
{
    let st = runs[r];
    let n = d.migrations.len() as int;
    assert(caller_inv(d, st, t));
    match pending_request(st) {
        None => {},
        Some(req) => {
            let (t1, resp) = respond(d, req, t);
            let st1 = session_step(st, resp).0;
            let runs1 = runs.update(r, st1);
            match req {
                Request::EnsureDatabase => {
                    assert((d.ensure_database)(t) is Ok);
                    assert(caller_inv(d, st1, t1));
                },
                Request::Migration { index, operation } => {
                    let i = index as int;
                    let m = d.migrations[i];
                    let run = st.stage->Running_0;
                    assert(i == st.index);
                    match run.phase {
                        Phase::Checking => {
                            assert((m.should_apply)(t) is Ok);
                            assert(caller_inv(d, st1, t1));
                        },
                        Phase::Applying => {
                            assert((m.apply)(t).1 is Ok);
                            if settled(m, t) {
                                assert(t1 == t);
                                assert(caller_inv(d, st1, t1));
                            } else {
                                lemma_lead_is(d, t, i);
                                assert(t1 == sequential_state(d, s, (i + 1) as nat));
                                assert(settled(m, t1));
                                assert forall|k: int| 0 <= k < i + 1 implies settled(
                                    #[trigger] d.migrations[k],
                                    t1,
                                ) by {
                                    if k < i {
                                        assert(settled(d.migrations[k], t));
                                    }
                                }
                                assert(caller_inv(d, st1, t1));
                                lemma_lead(d, t1);
                                let l = lead(d, t1);
                                if l < i + 1 {
                                    assert(settled(d.migrations[l as int], t1));
                                }
                                lemma_sequential_stays(d, s, (i + 1) as nat, l);
                                assert forall|q: int| 0 <= q < runs1.len() implies (
                                #[trigger] runs1[q]).registry == reg && caller_inv(
                                    d,
                                    runs1[q],
                                    t1,
                                ) by {
                                    if q != r {
                                        assert(runs[q].registry == reg);
                                        lemma_effective_apply(d, runs[q], t, i);
                                    }
                                }
                            }
                        },
                        Phase::Verifying => {
                            assert((m.verify)(t) == Ok::<bool, MigrationError>(true));
                            assert(caller_inv(d, st1, t1));
                        },
                        _ => {},
                    }
                },
            }
        },
    }
}

/// Serving any schedule of requests keeps the system invariant.
proof fn lemma_schedule_keeps<S>(
    d: DeploymentModel<S>,
    reg: Registry,
    s: S,
    runs: Seq<RegistryRun>,
    t: S,
    schedule: Seq<int>,
)
    requires
        reg.wf(),
        d.migrations.len() == reg.ids().len(),
        idempotent(d),
        system_inv(d, reg, s, runs, t),
        forall|j: int| 0 <= j < schedule.len() ==> 0 <= #[trigger] schedule[j] < runs.len(),
    ensures
        ({
            let (runs1, t1) = run_schedule(d, runs, t, schedule);
            &&& runs1.len() == runs.len()
            &&& system_inv(d, reg, s, runs1, t1)
        }),
    decreases schedule.len(),
{
    if schedule.len() > 0 {
        lemma_step_keeps(d, reg, s, runs, t, schedule[0]);
        let (runs1, t1) = concurrent_step(d, runs, t, schedule[0]);
        let rest = schedule.drop_first();
        assert forall|j: int| 0 <= j < rest.len() implies 0 <= #[trigger] rest[j] < runs1.len() by {
            assert(rest[j] == schedule[j + 1]);
        }
        lemma_schedule_keeps(d, reg, s, runs1, t1, rest);
    }
}

/// A single caller keeps the system invariant all the way and finishes.
proof fn lemma_drive_keeps<S>(d: DeploymentModel<S>, reg: Registry, s: S, st: RegistryRun, t: S)
    requires
        reg.wf(),
        d.migrations.len() == reg.ids().len(),
        idempotent(d),
        system_inv(d, reg, s, seq![st], t),
    ensures
        ({
            let (end, t2, events) = crate::model::drive_session(d, st, t);
            &&& system_inv(d, reg, s, seq![end], t2)
            &&& crate::session::session_outcome(end) is Some
        }),
    decreases crate::model::session_rank(st),
{
    assert(caller_inv(d, seq![st][0], t));
    if let Some(req) = pending_request(st) {
        let (t1, resp) = respond(d, req, t);
        let (next, events) = session_step(st, resp);
        lemma_step_keeps(d, reg, s, seq![st], t, 0);
        assert(seq![st].update(0, next) =~= seq![next]);
        assert(crate::model::session_rank(next) < crate::model::session_rank(st));
        lemma_drive_keeps(d, reg, s, next, t1);
    }
}

/// Initially every caller is about to ensure the database.
proof fn lemma_initial<S>(d: DeploymentModel<S>, reg: Registry, s: S, callers: nat)
    requires
        reg.wf(),
        d.migrations.len() == reg.ids().len(),
    ensures
        system_inv(d, reg, s, Seq::new(callers, |r: int| crate::session::initial(reg)), s),
{
    lemma_lead(d, s);
    lemma_sequential_stays(d, s, 0, lead(d, s));
}

/// A caller that finished leaves the state a single run produces.
proof fn lemma_finished_state<S>(d: DeploymentModel<S>, s: S, st: RegistryRun, t: S)
    requires
        caller_inv(d, st, t),
        st.stage is Finished,
        t == sequential_state(d, s, lead(d, t)),
    ensures
        t == sequential_state(d, s, d.migrations.len()),
{
    lemma_lead_is(d, t, d.migrations.len() as int);
}

/// Against a database whose calls are idempotent, a single run of the whole
/// registry succeeds and settles the migrations one after the other.
pub proof fn lemma_single_run<S>(d: DeploymentModel<S>, reg: Registry, s: S)
    requires
        reg.wf(),
        d.migrations.len() == reg.ids().len(),
        idempotent(d),
    ensures
        ({
            let (end, t, events) = run_all(d, reg, s);
            &&& crate::session::session_outcome(end) == Some(Ok::<(), MigrationError>(()))
            &&& t == sequential_state(d, s, d.migrations.len())
        }),
{
    lemma_initial(d, reg, s, 1);
    let st = crate::session::initial(reg);
    assert(Seq::new(1, |r: int| crate::session::initial(reg)) =~= seq![st]);
    lemma_drive_keeps(d, reg, s, st, s);
    let (end, t, events) = run_all(d, reg, s);
    assert(caller_inv(d, seq![end][0], t));
    lemma_finished_state(d, s, end, t);
}

/// Any number of callers run the whole registry at once against one database
/// whose calls are idempotent, their requests interleaved in any order. None
/// of them fails; and as soon as one has finished, the schema is the one that
/// a single run of the registry produces (and that run succeeds).
pub proof fn lemma_concurrent_runs_agree<S>(
    d: DeploymentModel<S>,
    reg: Registry,
    s: S,
    callers: nat,
    schedule: Seq<int>,
)
    requires
        reg.wf(),
        d.migrations.len() == reg.ids().len(),
        idempotent(d),
        forall|j: int| 0 <= j < schedule.len() ==> 0 <= #[trigger] schedule[j] < callers,
    ensures
        ({
            let (runs, t) = run_schedule(
                d,
                Seq::new(callers, |r: int| crate::session::initial(reg)),
                s,
                schedule,
            );
            let (single, t_single, events) = run_all(d, reg, s);
            &&& crate::session::session_outcome(single) == Some(Ok::<(), MigrationError>(()))
            &&& runs.len() == callers
            &&& forall|r: int|
                0 <= r < callers ==> crate::session::session_outcome(#[trigger] runs[r]) is None
                    || crate::session::session_outcome(runs[r]) == Some(
                    Ok::<(), MigrationError>(()),
                )
            &&& forall|r: int|
                0 <= r < callers && crate::session::session_outcome(#[trigger] runs[r]) is Some
                    ==> t == t_single
        }),
{
    let runs0 = Seq::new(callers, |r: int| crate::session::initial(reg));
    lemma_initial(d, reg, s, callers);
    lemma_schedule_keeps(d, reg, s, runs0, s, schedule);
    lemma_single_run(d, reg, s);
    let (runs, t) = run_schedule(d, runs0, s, schedule);
    assert forall|r: int|
        0 <= r < callers && crate::session::session_outcome(#[trigger] runs[r]) is Some implies t
        == run_all(d, reg, s).1 by {
        assert(caller_inv(d, runs[r], t));
        lemma_finished_state(d, s, runs[r], t);
    }
    assert forall|r: int| 0 <= r < callers implies crate::session::session_outcome(
        #[trigger] runs[r],
    ) is None || crate::session::session_outcome(runs[r]) == Some(
        Ok::<(), MigrationError>(()),
    ) by {
        assert(caller_inv(d, runs[r], t));
    }
}

/// How many times `schedule` names caller `r`.
pub open spec fn turns(schedule: Seq<int>, r: int) -> nat
    decreases schedule.len(),
{
    if schedule.len() == 0 {
        0
    } else {
        (if schedule[0] == r {
            1nat
        } else {
            0nat
        }) + turns(schedule.drop_first(), r)
    }
}

/// A consistent registry run with nothing left to do is finished.
proof fn lemma_rank_zero(st: RegistryRun)
    requires
        st.wf(),
        crate::model::session_rank(st) == 0,
    ensures
        st.stage is Finished,
{
}

/// Each request served for a caller brings it one step closer to the end.
proof fn lemma_progress<S>(
    d: DeploymentModel<S>,
    reg: Registry,
    s: S,
    runs: Seq<RegistryRun>,
    t: S,
    schedule: Seq<int>,
    r: int,
)
    requires
        reg.wf(),
        d.migrations.len() == reg.ids().len(),
        idempotent(d),
        system_inv(d, reg, s, runs, t),
        forall|j: int| 0 <= j < schedule.len() ==> 0 <= #[trigger] schedule[j] < runs.len(),
        0 <= r < runs.len(),
    ensures
        ({
            let (runs1, t1) = run_schedule(d, runs, t, schedule);
            ||| runs1[r].stage is Finished
            ||| crate::model::session_rank(runs1[r]) + turns(schedule, r)
                <= crate::model::session_rank(runs[r])
        }),
    decreases schedule.len(),
{
    if schedule.len() > 0 {
        let q = schedule[0];
        lemma_step_keeps(d, reg, s, runs, t, q);
        let (runs1, t1) = concurrent_step(d, runs, t, q);
        let rest = schedule.drop_first();
        assert forall|j: int| 0 <= j < rest.len() implies 0 <= #[trigger] rest[j] < runs1.len() by {
            assert(rest[j] == schedule[j + 1]);
        }
        lemma_progress(d, reg, s, runs1, t1, rest, r);
        lemma_schedule_keeps(d, reg, s, runs1, t1, rest);
        let (runs2, t2) = run_schedule(d, runs1, t1, rest);
        assert(caller_inv(d, runs2[r], t2));
        if crate::model::session_rank(runs2[r]) == 0 {
            lemma_rank_zero(runs2[r]);
        }
        assert(caller_inv(d, runs[r], t));
        assert(caller_inv(d, runs1[r], t1));
        if q == r {
            if let Some(req) = pending_request(runs[r]) {
                let (t2, resp) = respond(d, req, t);
                let next = session_step(runs[r], resp).0;
                assert(runs1[r] == next);
                assert(crate::model::session_rank(next) < crate::model::session_rank(runs[r]));
            }
        } else {
            assert(runs1[r] == runs[r]);
        }
        if crate::model::session_rank(runs1[r]) == 0 {
            lemma_rank_zero(runs1[r]);
        }
    }
}

/// Every caller that has been served at least `4 * n + 1` requests, `n` being
/// the number of migrations, has finished, and succeeded.
pub proof fn lemma_every_caller_finishes<S>(
    d: DeploymentModel<S>,
    reg: Registry,
    s: S,
    callers: nat,
    schedule: Seq<int>,
    r: int,
)
    requires
        reg.wf(),
        d.migrations.len() == reg.ids().len(),
        idempotent(d),
        forall|j: int| 0 <= j < schedule.len() ==> 0 <= #[trigger] schedule[j] < callers,
        0 <= r < callers,
        turns(schedule, r) >= 4 * d.migrations.len() + 1,
    ensures
        ({
            let (runs, t) = run_schedule(
                d,
                Seq::new(callers, |i: int| crate::session::initial(reg)),
                s,
                schedule,
            );
            crate::session::session_outcome(runs[r]) == Some(Ok::<(), MigrationError>(()))
        }),
{
    let runs0 = Seq::new(callers, |i: int| crate::session::initial(reg));
    lemma_initial(d, reg, s, callers);
    lemma_schedule_keeps(d, reg, s, runs0, s, schedule);
    lemma_progress(d, reg, s, runs0, s, schedule, r);
    let (runs, t) = run_schedule(d, runs0, s, schedule);
    assert(caller_inv(d, runs[r], t));
    if !(runs[r].stage is Finished) {
        lemma_rank_zero(runs[r]);
    }
}

} // verus!
