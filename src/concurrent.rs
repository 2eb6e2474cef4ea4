//! Many callers may run the registry at once, in separate tasks or processes.
//! What they report is gathered here: no failure is lost.
use vstd::prelude::*;
use crate::error::MigrationError;

verus! {

/// The index of the first failed result, if any.
pub open spec fn first_failure(results: Seq<Result<(), MigrationError>>) -> Option<int> {
    if exists|i: int| 0 <= i < results.len() && (#[trigger] results[i]) is Err {
        Some(
            choose|i: int|
                0 <= i < results.len() && (#[trigger] results[i]) is Err && forall|j: int|
                    0 <= j < i ==> (#[trigger] results[j]) is Ok,
        )
    } else {
        None
    }
}

/// Gathers the outcomes of concurrently started runs: `Ok` when every run
/// succeeded, otherwise the error of the first run (in the given order) that
/// failed. A task that did not complete is reported as a `Join` error.
pub fn gather(results: Vec<Result<(), MigrationError>>) -> (r: Result<(), MigrationError>)
    ensures
        match first_failure(results@) {
            None => r is Ok,
            Some(i) => r == results@[i],
        },
{
    let mut i: usize = 0;
    while i < results.len()
        invariant
            i <= results@.len(),
            forall|j: int| 0 <= j < i ==> (#[trigger] results@[j]) is Ok,
        decreases results@.len() - i,
    {
        if results[i].is_err() {
            proof {
                let k = i as int;
                let c = choose|c: int|
                    0 <= c < results@.len() && (#[trigger] results@[c]) is Err && forall|j: int|
                        0 <= j < c ==> (#[trigger] results@[j]) is Ok;
                assert(0 <= k < results@.len() && results@[k] is Err && forall|j: int|
                    0 <= j < k ==> (#[trigger] results@[j]) is Ok);
                if c < k {
                    assert(results@[c] is Ok);
                } else if c > k {
                    assert(results@[k] is Ok);
                }
            }
            let mut results = results;
            return results.remove(i);
        }
        i = i + 1;
    }
    Ok(())
}

} // verus!
