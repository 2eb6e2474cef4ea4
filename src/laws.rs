//! What runs achieve against any database that behaves as its migrations say.
use vstd::prelude::*;
use crate::error::MigrationError;
use crate::event::Event;
use crate::model::{keeps_contract, run_one, settled, drive_run, MigrationModel};

verus! {

/// One run of a migration, stated case by case.
pub open spec fn run_one_cases<S>(m: MigrationModel<S>, name: String, bootstrap: bool, s: S) -> (
    Option<Result<bool, MigrationError>>,
    S,
    Seq<Event>,
) {
    match (m.should_apply)(s) {
        Err(e) => (Some(Err(e)), s, seq![]),
        Ok(false) => (Some(Ok(false)), s, seq![]),
        Ok(true) => {
            let (s1, applied) = (m.apply)(s);
            match applied {
                Err(e) => (
                    Some(Err(MigrationError::Apply { name, cause: Box::new(e) })),
                    s1,
                    seq![Event::Applying { name }, Event::ApplyFailed { name }],
                ),
                Ok(()) => match (m.verify)(s1) {
                    Ok(true) => (
                        Some(Ok(bootstrap)),
                        s1,
                        seq![Event::Applying { name }, Event::Succeeded { name }],
                    ),
                    Ok(false) => (
                        Some(Err(MigrationError::Verification { name })),
                        s1,
                        seq![Event::Applying { name }, Event::SuccessCheckFailed { name }],
                    ),
                    Err(e) => (
                        Some(Err(e)),
                        s1,
                        seq![Event::Applying { name }, Event::VerifyFailed { name }],
                    ),
                },
            }
        },
    }
}

/// A run of one migration always finishes, and goes as follows. A migration
/// with nothing to do is skipped silently and reports `false`. An error of the
/// applicability check (such as an inconsistent schema) ends the run unchanged
/// and without events. Otherwise the run announces the migration, applies it
/// (a failure is wrapped with the migration's name), verifies the end state (a
/// negative answer is a verification error), announces success, and reports
/// a clean start exactly when it is the registry's first migration.
pub proof fn lemma_run_one<S>(m: MigrationModel<S>, name: String, bootstrap: bool, s: S)
    ensures
        run_one(m, name, bootstrap, s) == run_one_cases(m, name, bootstrap, s),
{
    reveal_with_fuel(drive_run, 4);
    assert(seq![Event::Applying { name }] + seq![] =~= seq![Event::Applying { name }]);
    assert(Seq::<Event>::empty() + Seq::<Event>::empty() =~= Seq::<Event>::empty());
    assert(seq![Event::Applying { name }] + seq![Event::ApplyFailed { name }] =~= seq![
        Event::Applying { name },
        Event::ApplyFailed { name },
    ]);
    assert(seq![Event::Applying { name }] + seq![Event::Succeeded { name }] =~= seq![
        Event::Applying { name },
        Event::Succeeded { name },
    ]);
    assert(seq![Event::Applying { name }] + seq![Event::SuccessCheckFailed { name }] =~= seq![
        Event::Applying { name },
        Event::SuccessCheckFailed { name },
    ]);
    assert(seq![Event::Applying { name }] + seq![Event::VerifyFailed { name }] =~= seq![
        Event::Applying { name },
        Event::VerifyFailed { name },
    ]);
}

/// Running a migration twice in a row applies it at most once: when the first
/// run succeeds, the second is skipped, changes nothing and emits nothing;
/// when the first run had work to do and succeeded, it emitted exactly the
/// announcement and the success of the migration.
pub proof fn lemma_run_twice_applies_once<S>(
    m: MigrationModel<S>,
    name: String,
    bootstrap: bool,
    s: S,
)
    requires
        keeps_contract(m),
    ensures
        ({
            let (first, s1, events1) = run_one(m, name, bootstrap, s);
            let (second, s2, events2) = run_one(m, name, bootstrap, s1);
            &&& first is Some
            &&& first->Some_0 is Ok ==> {
                &&& second == Some(Ok::<bool, MigrationError>(false))
                &&& s2 == s1
                &&& events2 == Seq::<Event>::empty()
            }
            &&& (m.should_apply)(s) == Ok::<bool, MigrationError>(true) && first->Some_0 is Ok
                ==> events1 == seq![Event::Applying { name }, Event::Succeeded { name }]
        }),
{
    lemma_run_one(m, name, bootstrap, s);
    let s1 = run_one(m, name, bootstrap, s).1;
    lemma_run_one(m, name, bootstrap, s1);
    if (m.should_apply)(s) == Ok::<bool, MigrationError>(true) && (m.apply)(s).1 is Ok {
        if (m.verify)(s1) == Ok::<bool, MigrationError>(true) {
            assert(settled(m, s1));
        }
    }
}

/// The registry's first migration reports a clean start when it finds a
/// database on which it has work to do (a brand-new one) and succeeds, and no
/// clean start on a database where it has nothing to do (one migrated
/// before). Any other migration never reports a clean start.
pub proof fn lemma_clean_start<S>(m: MigrationModel<S>, name: String, bootstrap: bool, s: S)
    ensures
        ({
            let (outcome, s1, events) = run_one(m, name, bootstrap, s);
            &&& bootstrap && (m.should_apply)(s) == Ok::<bool, MigrationError>(true)
                && outcome->Some_0 is Ok ==> outcome == Some(Ok::<bool, MigrationError>(true))
            &&& settled(m, s) ==> outcome == Some(Ok::<bool, MigrationError>(false))
            &&& !bootstrap && outcome->Some_0 is Ok ==> outcome == Some(
                Ok::<bool, MigrationError>(false),
            )
        }),
{
    lemma_run_one(m, name, bootstrap, s);
}

} // verus!
