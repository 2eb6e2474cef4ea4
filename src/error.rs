//! Why a migration run stops.
use vstd::prelude::*;

verus! {

/// A fatal failure of a migration run. Every variant aborts the run it occurs in.
#[derive(Debug)]
pub enum MigrationError {
    /// The schema is in a state that no valid migration history produces;
    /// the message names the condition. Never repaired automatically.
    InconsistentState { message: String },
    /// A database operation (a query, a connection, creating the database) failed.
    Database { message: String },
    /// The forward statements of migration `name` failed with `cause`.
    Apply { name: String, cause: Box<MigrationError> },
    /// Migration `name` ran, but its end state does not hold.
    Verification { name: String },
    /// A concurrently started run did not complete.
    Join { message: String },
}

/// The message of an error, as operators see it.
pub open spec fn error_message(e: MigrationError) -> Seq<char>
    decreases e,
{
    match e {
        MigrationError::InconsistentState { message } => message@,
        MigrationError::Database { message } => "Database error: "@ + message@,
        MigrationError::Apply { name, cause } => "Failed to apply migration "@ + name@ + ": "@
            + error_message(*cause),
        MigrationError::Verification { name } => "Migration success check failed: "@ + name@,
        MigrationError::Join { message } => "Failed to join migration task: "@ + message@,
    }
}

/// Whether an error calls for an operator rather than a retry: the schema is
/// inconsistent, or a migration ran without producing its end state.
pub open spec fn error_requires_intervention(e: MigrationError) -> bool
    decreases e,
{
    match e {
        MigrationError::InconsistentState { .. } => true,
        MigrationError::Verification { .. } => true,
        MigrationError::Apply { cause, .. } => error_requires_intervention(*cause),
        _ => false,
    }
}

impl MigrationError {
    /// The message of this error.
    pub fn message(&self) -> (r: String)
        ensures
            r@ == error_message(*self),
        decreases self,
    {
        match self {
            MigrationError::InconsistentState { message } => message.clone(),
            MigrationError::Database { message } => {
                String::from_str("Database error: ").concat(message.as_str())
            },
            MigrationError::Apply { name, cause } => {
                let inner = cause.message();
                String::from_str("Failed to apply migration ").concat(name.as_str()).concat(
                    ": ",
                ).concat(inner.as_str())
            },
            MigrationError::Verification { name } => {
                String::from_str("Migration success check failed: ").concat(name.as_str())
            },
            MigrationError::Join { message } => {
                String::from_str("Failed to join migration task: ").concat(message.as_str())
            },
        }
    }

    /// Whether this error calls for an operator rather than a retry.
    pub fn requires_intervention(&self) -> (r: bool)
        ensures
            r == error_requires_intervention(*self),
        decreases self,
    {
        match self {
            MigrationError::InconsistentState { .. } => true,
            MigrationError::Verification { .. } => true,
            MigrationError::Apply { cause, .. } => cause.requires_intervention(),
            _ => false,
        }
    }
}

} // verus!
