//! The ordered registry of migrations.
use vstd::prelude::*;
use crate::names::{migration_name, spec_migration_name};

verus! {

/// Whether the ids increase strictly along the sequence.
pub open spec fn strictly_increasing(ids: Seq<u32>) -> bool {
    forall|i: int, j: int| 0 <= i < j < ids.len() ==> ids[i] < ids[j]
}

/// Why a list of ids cannot form a registry.
#[derive(PartialEq, Eq, Structural, Clone, Copy, Debug)]
pub enum RegistryError {
    /// The id at `index` is not greater than the id before it.
    OutOfOrder { index: usize },
}

/// The first index whose id is not greater than its predecessor's, if any.
pub open spec fn first_out_of_order(ids: Seq<u32>) -> Option<nat> {
    if exists|k: int| 0 < k < ids.len() && ids[k - 1] >= #[trigger] ids[k] {
        let k = choose|k: int|
            0 < k < ids.len() && ids[k - 1] >= #[trigger] ids[k] && forall|j: int|
                0 < j < k ==> ids[j - 1] < #[trigger] ids[j];
        Some(k as nat)
    } else {
        None
    }
}

/// The migrations of a deployment in their fixed order of application, by id.
/// Built once at startup and never changed.
#[derive(Clone, Debug)]
pub struct Registry {
    ids: Vec<u32>,
    names: Vec<String>,
}

impl Registry {
    /// The ids, in order.
    pub closed spec fn ids(&self) -> Seq<u32> {
        self.ids@
    }

    /// The names, in the order of the ids.
    pub closed spec fn names(&self) -> Seq<String> {
        self.names@
    }

    /// The ids increase strictly and each name is derived from its id.
    pub open spec fn wf(&self) -> bool {
        &&& strictly_increasing(self.ids())
        &&& self.ids().len() <= usize::MAX
        &&& self.names().len() == self.ids().len()
        &&& forall|i: int|
            0 <= i < self.ids().len() ==> #[trigger] self.names()[i]@ == spec_migration_name(
                self.ids()[i] as nat,
            )
    }

    /// A registry of the migrations with the given ids, in this order.
    /// Fails at the first id that is not greater than the one before it.
    pub fn new(ids: Vec<u32>) -> (r: Result<Registry, RegistryError>)
        ensures
            match r {
                Ok(reg) => reg.wf() && reg.ids() == ids@,
                Err(RegistryError::OutOfOrder { index }) => first_out_of_order(ids@) == Some(
                    index as nat,
                ),
            },
            r is Ok <==> first_out_of_order(ids@) is None,
    {
        let mut names: Vec<String> = Vec::new();
        let mut i: usize = 0;
        while i < ids.len()
            invariant
                i <= ids@.len(),
                names@.len() == i,
                forall|k: int| 0 <= k < i ==> #[trigger] names@[k]@ == spec_migration_name(
                    ids@[k] as nat,
                ),
                forall|j: int| 0 < j < i ==> ids@[j - 1] < #[trigger] ids@[j],
            decreases ids@.len() - i,
        {
            if i > 0 && ids[i - 1] >= ids[i] {
                proof {
                    let k = i as int;
                    assert(0 < k < ids@.len() && ids@[k - 1] >= ids@[k]);
                    let c = choose|c: int|
                        0 < c < ids@.len() && ids@[c - 1] >= #[trigger] ids@[c] && forall|j: int|
                            0 < j < c ==> ids@[j - 1] < #[trigger] ids@[j];
                    assert(0 < c < ids@.len() && ids@[c - 1] >= ids@[c] && forall|j: int|
                        0 < j < c ==> ids@[j - 1] < #[trigger] ids@[j]) by {
                        assert(0 < k < ids@.len() && ids@[k - 1] >= ids@[k] && forall|j: int|
                            0 < j < k ==> ids@[j - 1] < #[trigger] ids@[j]);
                    }
                    if c < k {
                        assert(ids@[c - 1] < ids@[c]);
                    } else if c > k {
                        assert(ids@[k - 1] < ids@[k]);
                    }
                }
                return Err(RegistryError::OutOfOrder { index: i });
            }
            names.push(migration_name(ids[i]));
            i = i + 1;
        }
        proof {
            assert forall|a: int, b: int| 0 <= a < b < ids@.len() implies ids@[a] < ids@[b] by {
                lemma_steps_increase(ids@, a, b);
            }
            if exists|k: int| 0 < k < ids@.len() && ids@[k - 1] >= #[trigger] ids@[k] {
                let k = choose|k: int| 0 < k < ids@.len() && ids@[k - 1] >= #[trigger] ids@[k];
                assert(ids@[k - 1] < ids@[k]);
            }
        }
        Ok(Registry { ids, names })
    }

    /// Number of migrations.
    pub fn len(&self) -> (r: usize)
        ensures
            r == self.ids().len(),
    {
        self.ids.len()
    }

    /// The id of the migration at `index`.
    pub fn id(&self, index: usize) -> (r: u32)
        requires
            index < self.ids().len(),
        ensures
            r == self.ids()[index as int],
    {
        self.ids[index]
    }

    /// The name of the migration at `index`.
    pub fn name(&self, index: usize) -> (r: &String)
        requires
            index < self.names().len(),
        ensures
            *r == self.names()[index as int],
    {
        &self.names[index]
    }
}

/// Ids that increase at each step increase between any two positions.
proof fn lemma_steps_increase(ids: Seq<u32>, a: int, b: int)
    requires
        0 <= a < b < ids.len(),
        forall|j: int| 0 < j < ids.len() ==> ids[j - 1] < #[trigger] ids[j],
    ensures
        ids[a] < ids[b],
    decreases b - a,
{
    if b - a > 1 {
        lemma_steps_increase(ids, a, b - 1);
    }
    assert(ids[b - 1] < ids[b]);
}

} // verus!
