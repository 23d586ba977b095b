//! Containers left behind by interrupted deployments: finding them among the
//! service's containers, and accounting for their removal.
use crate::runtime::{ContainerError, ContainerSummary};
use crate::types::ContainerId;
use vstd::prelude::*;

verus! {

/// A container that could not be removed, and why.
#[derive(Debug)]
pub struct CleanupFailure {
    pub container_id: ContainerId,
    pub error: ContainerError,
}

/// What a cleanup came to, container by container.
#[derive(Debug)]
pub struct CleanupResult {
    /// The containers that were removed.
    pub succeeded: Vec<ContainerId>,
    /// The containers that could not be removed.
    pub failed: Vec<CleanupFailure>,
}

impl CleanupResult {
    /// Whether every container was removed.
    pub fn all_succeeded(&self) -> (r: bool)
        ensures
            r == (self.failed@.len() == 0),
    {
        self.failed.len() == 0
    }

    /// How many containers the cleanup attempted.
    pub fn total(&self) -> (r: usize)
        requires
            self.succeeded@.len() + self.failed@.len() <= usize::MAX,
        ensures
            r == self.succeeded@.len() + self.failed@.len(),
    {
        self.succeeded.len() + self.failed.len()
    }
}

/// Whether `id` is among `known`.
pub open spec fn is_known(id: Seq<char>, known: Seq<ContainerId>) -> bool {
    exists|j: int| 0 <= j < known.len() && (#[trigger] known[j])@ == id
}

/// The containers of `listed` that are not among `known`, in order.
pub open spec fn unknown_containers(listed: Seq<ContainerSummary>, known: Seq<ContainerId>) -> Seq<
    ContainerSummary,
>
    decreases listed.len(),
{
    if listed.len() == 0 {
        Seq::empty()
    } else {
        unknown_containers(listed.drop_last(), known) + if is_known(listed.last().id@, known) {
            Seq::empty()
        } else {
            seq![listed.last()]
        }
    }
}

fn known_contains(known: &[ContainerId], id: &ContainerId) -> (r: bool)
    ensures
        r == is_known(id@, known@),
{
    let mut j: usize = 0;
    while j < known.len()
        invariant
            j <= known@.len(),
            forall|k: int| 0 <= k < j ==> (#[trigger] known@[k])@ != id@,
        decreases known.len() - j,
    {
        if known[j].same(id) {
            assert(known@[j as int]@ == id@);
            return true;
        }
        j = j + 1;
    }
    false
}

/// The orphans among `listed`, the containers that peleka manages for a
/// service (see `ContainerFilters::for_service`): those that are not among
/// `known_containers`, the containers of the current deployment.
pub fn detect_orphans(listed: Vec<ContainerSummary>, known_containers: &[ContainerId]) -> (r: Vec<
    ContainerSummary,
>)
    ensures
        r@ == unknown_containers(listed@, known_containers@),
{
    let ghost orig = listed@;
    let n = listed.len();
    let mut rest = listed;
    let mut out: Vec<ContainerSummary> = Vec::new();
    let mut i: usize = 0;
    while rest.len() > 0
        invariant
            orig.len() == n,
            i + rest@.len() == orig.len(),
            rest@ == orig.subrange(i as int, orig.len() as int),
            out@ == unknown_containers(orig.subrange(0, i as int), known_containers@),
        decreases rest.len(),
    {
        let c = rest.remove(0);
        assert(orig.subrange(0, i + 1).drop_last() =~= orig.subrange(0, i as int));
        assert(orig[i as int] == c);
        if !known_contains(known_containers, &c.id) {
            out.push(c);
        }
        i = i + 1;
        assert(out@ =~= unknown_containers(orig.subrange(0, i as int), known_containers@));
        assert(rest@ =~= orig.subrange(i as int, orig.len() as int));
    }
    assert(orig.subrange(0, i as int) =~= orig);
    out
}

/// The identifiers of the containers whose removal succeeded, in order.
pub open spec fn removed_ids(ids: Seq<ContainerId>, removals: Seq<Result<(), ContainerError>>) -> Seq<
    Seq<char>,
>
    decreases ids.len(),
{
    if ids.len() == 0 || removals.len() == 0 {
        Seq::empty()
    } else {
        removed_ids(ids.drop_last(), removals.drop_last()) + if removals.last() is Ok {
            seq![ids.last()@]
        } else {
            Seq::empty()
        }
    }
}

/// The identifiers of the containers whose removal failed, with the error, in
/// order.
pub open spec fn failed_removals(
    ids: Seq<ContainerId>,
    removals: Seq<Result<(), ContainerError>>,
) -> Seq<(Seq<char>, ContainerError)>
    decreases ids.len(),
{
    if ids.len() == 0 || removals.len() == 0 {
        Seq::empty()
    } else {
        failed_removals(ids.drop_last(), removals.drop_last()) + match removals.last() {
            Ok(()) => Seq::empty(),
            Err(e) => seq![(ids.last()@, e)],
        }
    }
}

/// The identifier of a failure, with its error.
pub open spec fn failure_view(f: CleanupFailure) -> (Seq<char>, ContainerError) {
    (f.container_id@, f.error)
}

/// Accounts for a cleanup: each of `orphans` was stopped (failures there are
/// ignored: the container may be stopped already) and then removed, and
/// `removals` holds what each removal gave, in the same order.
pub fn cleanup_orphans(orphans: &[ContainerId], removals: Vec<Result<(), ContainerError>>) -> (r:
    CleanupResult)
    requires
        removals@.len() == orphans@.len(),
    ensures
        r.succeeded@.map_values(|c: ContainerId| c@) == removed_ids(orphans@, removals@),
        r.failed@.map_values(|f: CleanupFailure| failure_view(f)) == failed_removals(
            orphans@,
            removals@,
        ),
{
    let ghost orig = removals@;
    let mut rest = removals;
    let mut succeeded: Vec<ContainerId> = Vec::new();
    let mut failed: Vec<CleanupFailure> = Vec::new();
    let mut i: usize = 0;
    while rest.len() > 0
        invariant
            orig.len() == orphans@.len(),
            i + rest@.len() == orig.len(),
            rest@ == orig.subrange(i as int, orig.len() as int),
            succeeded@.map_values(|c: ContainerId| c@) == removed_ids(
                orphans@.subrange(0, i as int),
                orig.subrange(0, i as int),
            ),
            failed@.map_values(|f: CleanupFailure| failure_view(f)) == failed_removals(
                orphans@.subrange(0, i as int),
                orig.subrange(0, i as int),
            ),
        decreases rest.len(),
    {
        let outcome = rest.remove(0);
        assert(orig.subrange(0, i + 1).drop_last() =~= orig.subrange(0, i as int));
        assert(orphans@.subrange(0, i + 1).drop_last() =~= orphans@.subrange(0, i as int));
        assert(orig[i as int] == outcome);
        let id = orphans[i].duplicate();
        match outcome {
            Ok(()) => {
                succeeded.push(id);
            },
            Err(error) => {
                failed.push(CleanupFailure { container_id: id, error });
            },
        }
        i = i + 1;
        assert(succeeded@.map_values(|c: ContainerId| c@) =~= removed_ids(
            orphans@.subrange(0, i as int),
            orig.subrange(0, i as int),
        ));
        assert(failed@.map_values(|f: CleanupFailure| failure_view(f)) =~= failed_removals(
            orphans@.subrange(0, i as int),
            orig.subrange(0, i as int),
        ));
        assert(rest@ =~= orig.subrange(i as int, orig.len() as int));
    }
    assert(orig.subrange(0, i as int) =~= orig);
    assert(orphans@.subrange(0, i as int) =~= orphans@);
    CleanupResult { succeeded, failed }
}

/// Every container of a cleanup is accounted for exactly once: the removed
/// ones and the failed ones together are as many as were attempted.
pub proof fn lemma_cleanup_accounts_for_all(
    ids: Seq<ContainerId>,
    removals: Seq<Result<(), ContainerError>>,
)
    requires
        ids.len() == removals.len(),
    ensures
        removed_ids(ids, removals).len() + failed_removals(ids, removals).len() == ids.len(),
        failed_removals(ids, removals).len() == 0 <==> forall|i: int|
            0 <= i < removals.len() ==> (#[trigger] removals[i]) is Ok,
    decreases ids.len(),
{
    if ids.len() > 0 {
        let (a, b) = (ids.drop_last(), removals.drop_last());
        lemma_cleanup_accounts_for_all(a, b);
        if failed_removals(ids, removals).len() == 0 {
            assert forall|i: int| 0 <= i < removals.len() implies (#[trigger] removals[i]) is Ok by {
                if i < removals.len() - 1 {
                    assert(b[i] == removals[i]);
                }
            }
        }
        if forall|i: int| 0 <= i < removals.len() ==> (#[trigger] removals[i]) is Ok {
            assert forall|i: int| 0 <= i < b.len() implies (#[trigger] b[i]) is Ok by {
                assert(b[i] == removals[i]);
            }
            assert(removals[removals.len() - 1] is Ok);
        }
    }
}

} // verus!
