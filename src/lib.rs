//! Forward-only schema migrations for an append-mostly analytical database.
//!
//! The engine decides; the caller performs. A run is a state machine that
//! names the next database operation to perform and, fed the reply, moves on,
//! emitting the observability events that operators and tests rely on. No
//! ledger of applied migrations is kept: each migration decides from the live
//! schema whether it still has work to do, which lets many callers run the
//! registry at once.
//!
//! - `names`, `registry`: migration ids, their names, and the ordered registry.
//! - `event`, `error`: what runs report.
//! - `runner`: the run of one migration (check, apply, verify).
//! - `session`: the run of the whole registry, after ensuring the database.
//! - `concurrent`: gathering the outcomes of runs started at once.
//! - `evaluation`: the decisions of the evaluation harness that runs on top of
//!   the migrated database (evaluator routing, feedback, results).
//! - `model`, `laws`, `registry_laws`, `concurrent_laws`: a model of the
//!   database side, and what runs are proved to achieve against it.
use vstd::prelude::*;

pub mod concurrent;
pub mod concurrent_laws;
pub mod error;
pub mod evaluation;
pub mod event;
pub mod laws;
pub mod model;
pub mod names;
pub mod registry;
pub mod registry_laws;
pub mod runner;
pub mod session;

verus! {

} // verus!
