//! The run of one migration: check, apply, verify.
//!
//! A `MigrationRun` never touches the database. It names the operation the
//! caller must perform next, takes the reply, emits the events of the step and
//! moves on, until it holds the outcome.
use vstd::prelude::*;
use crate::error::MigrationError;
use crate::event::Event;

verus! {

/// An operation of a migration that the caller performs against the database.
#[derive(PartialEq, Eq, Structural, Clone, Copy, Debug)]
pub enum Operation {
    /// Ask whether the migration still has work to do (free of side effects).
    ShouldApply,
    /// Run the migration's forward statements.
    Apply,
    /// Check that the migration's end state holds.
    Verify,
}

/// The result of an operation, handed back to the run.
#[derive(Debug)]
pub enum Reply {
    /// Whether the migration has work to do; an error means its applicability
    /// cannot be decided safely.
    ShouldApply(Result<bool, MigrationError>),
    /// Whether the forward statements ran.
    Applied(Result<(), MigrationError>),
    /// Whether the end state holds.
    Verified(Result<bool, MigrationError>),
}

/// Where a run stands.
#[derive(Debug)]
pub enum Phase {
    /// Waiting for the answer to `ShouldApply`.
    Checking,
    /// Waiting for the result of `Apply`.
    Applying,
    /// Waiting for the result of `Verify`.
    Verifying,
    /// Done: `Ok(clean_start)` or the error that stopped the run.
    Finished(Result<bool, MigrationError>),
}

/// One run of one migration.
#[derive(Debug)]
pub struct MigrationRun {
    /// The migration's name, used in events and errors.
    pub name: String,
    /// Whether this is the registry's first migration, the one that detects a
    /// brand-new database.
    pub bootstrap: bool,
    pub phase: Phase,
}

/// The operation a run in `phase` waits for, if any.
pub open spec fn pending(phase: Phase) -> Option<Operation> {
    match phase {
        Phase::Checking => Some(Operation::ShouldApply),
        Phase::Applying => Some(Operation::Apply),
        Phase::Verifying => Some(Operation::Verify),
        Phase::Finished(_) => None,
    }
}

/// Whether `reply` answers the operation a run in `phase` waits for.
pub open spec fn answers(phase: Phase, reply: Reply) -> bool {
    match phase {
        Phase::Checking => reply is ShouldApply,
        Phase::Applying => reply is Applied,
        Phase::Verifying => reply is Verified,
        Phase::Finished(_) => false,
    }
}

/// The phase a run moves to on `reply`, and the events it emits.
///
/// A reply that does not answer the pending operation changes nothing.
pub open spec fn run_step(run: MigrationRun, reply: Reply) -> (Phase, Seq<Event>) {
    let name = run.name;
    if !answers(run.phase, reply) {
        (run.phase, seq![])
    } else {
        match reply {
            Reply::ShouldApply(Err(e)) => (Phase::Finished(Err(e)), seq![]),
            Reply::ShouldApply(Ok(false)) => (Phase::Finished(Ok(false)), seq![]),
            Reply::ShouldApply(Ok(true)) => (Phase::Applying, seq![Event::Applying { name }]),
            Reply::Applied(Err(e)) => (
                Phase::Finished(Err(MigrationError::Apply { name, cause: Box::new(e) })),
                seq![Event::ApplyFailed { name }],
            ),
            Reply::Applied(Ok(())) => (Phase::Verifying, seq![]),
            Reply::Verified(Ok(true)) => (
                Phase::Finished(Ok(run.bootstrap)),
                seq![Event::Succeeded { name }],
            ),
            Reply::Verified(Ok(false)) => (
                Phase::Finished(Err(MigrationError::Verification { name })),
                seq![Event::SuccessCheckFailed { name }],
            ),
            Reply::Verified(Err(e)) => (Phase::Finished(Err(e)), seq![Event::VerifyFailed { name }]),
        }
    }
}

/// The outcome of a run in `phase`, once it is finished.
pub open spec fn phase_outcome(phase: Phase) -> Option<Result<bool, MigrationError>> {
    match phase {
        Phase::Finished(o) => Some(o),
        _ => None,
    }
}

impl MigrationRun {
    /// A run of migration `name` that has not asked anything yet.
    pub fn new(name: String, bootstrap: bool) -> (r: MigrationRun)
        ensures
            r == (MigrationRun { name, bootstrap, phase: Phase::Checking }),
    {
        MigrationRun { name, bootstrap, phase: Phase::Checking }
    }

    /// The operation the caller must perform next; `None` once finished.
    pub fn next_operation(&self) -> (r: Option<Operation>)
        ensures
            r == pending(self.phase),
    {
        match self.phase {
            Phase::Checking => Some(Operation::ShouldApply),
            Phase::Applying => Some(Operation::Apply),
            Phase::Verifying => Some(Operation::Verify),
            Phase::Finished(_) => None,
        }
    }

    /// Whether `reply` answers the pending operation.
    pub fn expects(&self, reply: &Reply) -> (r: bool)
        ensures
            r == answers(self.phase, *reply),
    {
        match (&self.phase, reply) {
            (Phase::Checking, Reply::ShouldApply(_)) => true,
            (Phase::Applying, Reply::Applied(_)) => true,
            (Phase::Verifying, Reply::Verified(_)) => true,
            _ => false,
        }
    }

    /// Takes the reply to the pending operation and appends the events of the
    /// step to `events`. Returns whether the reply was taken: one that does not
    /// answer the pending operation leaves the run as it was.
    pub fn receive(&mut self, reply: Reply, events: &mut Vec<Event>) -> (taken: bool)
        ensures
            taken == answers(old(self).phase, reply),
            final(self).name == old(self).name,
            final(self).bootstrap == old(self).bootstrap,
            final(self).phase == run_step(*old(self), reply).0,
            final(events)@ == old(events)@ + run_step(*old(self), reply).1,
    {
        if !self.expects(&reply) {
            proof {
                assert(old(events)@ + seq![] =~= old(events)@);
            }
            return false;
        }
        let ghost events0 = events@;
        match reply {
            Reply::ShouldApply(Err(e)) => {
                self.phase = Phase::Finished(Err(e));
                assert(events@ =~= events0 + seq![]);
            },
            Reply::ShouldApply(Ok(false)) => {
                self.phase = Phase::Finished(Ok(false));
                assert(events@ =~= events0 + seq![]);
            },
            Reply::ShouldApply(Ok(true)) => {
                events.push(Event::Applying { name: self.name.clone() });
                self.phase = Phase::Applying;
                assert(events@ =~= events0 + seq![Event::Applying { name: self.name }]);
            },
            Reply::Applied(Err(e)) => {
                events.push(Event::ApplyFailed { name: self.name.clone() });
                self.phase = Phase::Finished(
                    Err(MigrationError::Apply { name: self.name.clone(), cause: Box::new(e) }),
                );
                assert(events@ =~= events0 + seq![Event::ApplyFailed { name: self.name }]);
            },
            Reply::Applied(Ok(())) => {
                self.phase = Phase::Verifying;
                assert(events@ =~= events0 + seq![]);
            },
            Reply::Verified(Ok(true)) => {
                events.push(Event::Succeeded { name: self.name.clone() });
                self.phase = Phase::Finished(Ok(self.bootstrap));
                assert(events@ =~= events0 + seq![Event::Succeeded { name: self.name }]);
            },
            Reply::Verified(Ok(false)) => {
                events.push(Event::SuccessCheckFailed { name: self.name.clone() });
                self.phase = Phase::Finished(
                    Err(MigrationError::Verification { name: self.name.clone() }),
                );
                assert(events@ =~= events0 + seq![Event::SuccessCheckFailed { name: self.name }]);
            },
            Reply::Verified(Err(e)) => {
                events.push(Event::VerifyFailed { name: self.name.clone() });
                self.phase = Phase::Finished(Err(e));
                assert(events@ =~= events0 + seq![Event::VerifyFailed { name: self.name }]);
            },
        }
        true
    }

    /// The outcome of the run: `Some(Ok(clean_start))`, `Some(Err(e))`, or
    /// `None` while operations are pending.
    pub fn into_outcome(self) -> (r: Option<Result<bool, MigrationError>>)
        ensures
            r == phase_outcome(self.phase),
    {
        match self.phase {
            Phase::Finished(o) => Some(o),
            _ => None,
        }
    }
}

} // verus!
