//! Observability events emitted by migration runs.
//!
//! Their messages are a stable interface: operators and tests look for them.
use vstd::prelude::*;

verus! {

/// One structured event of a migration run.
#[derive(Debug)]
pub enum Event {
    /// The migration is about to run its forward statements.
    Applying { name: String },
    /// The migration was applied and its end state verified.
    Succeeded { name: String },
    /// The forward statements of the migration failed.
    ApplyFailed { name: String },
    /// The forward statements ran, but the end state check answered no.
    SuccessCheckFailed { name: String },
    /// The end state check itself failed.
    VerifyFailed { name: String },
}

/// The message of an event, as operators see it.
pub open spec fn event_message(e: Event) -> Seq<char> {
    match e {
        Event::Applying { name } => "Applying migration: "@ + name@,
        Event::Succeeded { name } => "Migration succeeded: "@ + name@,
        Event::ApplyFailed { .. } => "Failed to apply migration"@,
        Event::SuccessCheckFailed { .. } => "Failed migration success check"@,
        Event::VerifyFailed { .. } => "Failed to verify migration"@,
    }
}

/// Whether an event reports a failure (and is logged at error level).
pub open spec fn event_is_error(e: Event) -> bool {
    !(e is Applying || e is Succeeded)
}

impl Event {
    /// The message of this event.
    pub fn message(&self) -> (r: String)
        ensures
            r@ == event_message(*self),
    {
        match self {
            Event::Applying { name } => {
                let r = String::from_str("Applying migration: ");
                r.concat(name.as_str())
            },
            Event::Succeeded { name } => {
                let r = String::from_str("Migration succeeded: ");
                r.concat(name.as_str())
            },
            Event::ApplyFailed { .. } => String::from_str("Failed to apply migration"),
            Event::SuccessCheckFailed { .. } => String::from_str("Failed migration success check"),
            Event::VerifyFailed { .. } => String::from_str("Failed to verify migration"),
        }
    }

    /// Whether this event reports a failure.
    pub fn is_error(&self) -> (r: bool)
        ensures
            r == event_is_error(*self),
    {
        match self {
            Event::Applying { .. } | Event::Succeeded { .. } => false,
            _ => true,
        }
    }

    /// The name of the migration this event is about.
    pub fn migration(&self) -> (r: &String)
        ensures
            r == event_migration(*self),
    {
        match self {
            Event::Applying { name } => name,
            Event::Succeeded { name } => name,
            Event::ApplyFailed { name } => name,
            Event::SuccessCheckFailed { name } => name,
            Event::VerifyFailed { name } => name,
        }
    }
}

/// The name of the migration an event is about.
pub open spec fn event_migration(e: Event) -> String {
    match e {
        Event::Applying { name } => name,
        Event::Succeeded { name } => name,
        Event::ApplyFailed { name } => name,
        Event::SuccessCheckFailed { name } => name,
        Event::VerifyFailed { name } => name,
    }
}

} // verus!
