//! The generic referential-integrity pattern for entity catalogs.
//!
//! Every catalog of id-keyed entities with optional cross-references (fields,
//! sets, pieces, goals, dice) instantiates the same two checks: ids must be
//! unique, and every reference into another catalog's id space must resolve.
//! [`check_unique_ids`] and [`check_references`] are that single algorithm,
//! over the extracted ids; insertion order does not affect whether a catalog
//! passes, only which violation is named first.

use vstd::prelude::*;

verus! {

/// A failure of a catalog's referential integrity.
#[derive(Debug, Clone, Copy, PartialEq, Eq, Structural)]
pub enum CatalogError {
    /// Two entities carry the given id.
    DuplicateId(u64),
    /// An entity (first) references an id (second) that no entity of the
    /// referenced catalog carries.
    UnknownReference(u64, u64),
}

/// Whether the id at index `j` repeats an earlier id.
pub open spec fn id_duplicate_at(ids: Seq<u64>, j: int) -> bool {
    exists|i: int| 0 <= i < j && ids[i] == ids[j]
}

/// No two entities share an id.
pub open spec fn ids_unique(ids: Seq<u64>) -> bool {
    forall|i: int, j: int| 0 <= i < j < ids.len() ==> ids[i] != ids[j]
}

/// The first id of `ids[j..]` that repeats an earlier id, if any.
pub open spec fn id_dup_scan_from(ids: Seq<u64>, j: int) -> Option<u64>
    decreases ids.len() - j,
    when 0 <= j <= ids.len()
{
    if j == ids.len() {
        None
    } else if id_duplicate_at(ids, j) {
        Some(ids[j])
    } else {
        id_dup_scan_from(ids, j + 1)
    }
}

/// The duplicate scan accepts exactly when the ids are unique, and a
/// reported id is one of the ids.
pub proof fn lemma_id_dup_scan(ids: Seq<u64>, j: int)
    requires
        0 <= j <= ids.len(),
    ensures
        id_dup_scan_from(ids, j) is None <==> forall|k: int|
            j <= k < ids.len() ==> !id_duplicate_at(ids, k),
        id_dup_scan_from(ids, j) matches Some(d) ==> exists|k: int|
            j <= k < ids.len() && id_duplicate_at(ids, k) && ids[k] == d,
    decreases ids.len() - j,
{
    if j < ids.len() && !id_duplicate_at(ids, j) {
        lemma_id_dup_scan(ids, j + 1);
    }
}

/// Ids are unique exactly when no index repeats an earlier id.
pub proof fn lemma_ids_unique_no_duplicate(ids: Seq<u64>)
    ensures
        ids_unique(ids) <==> forall|k: int| 0 <= k < ids.len() ==> !id_duplicate_at(ids, k),
{
    if forall|k: int| 0 <= k < ids.len() ==> !id_duplicate_at(ids, k) {
        assert forall|i: int, j: int| 0 <= i < j < ids.len() implies ids[i] != ids[j] by {
            assert(!id_duplicate_at(ids, j));
        }
    }
}

/// Law: insertion order is irrelevant for uniqueness. Whenever `reordered`
/// lists the same ids as `ids` (each of its positions reading a distinct
/// position of `ids`, through any injective placement `f`), uniqueness
/// carries over; only which violation is named first can differ.
pub proof fn lemma_ids_unique_reordered(ids: Seq<u64>, reordered: Seq<u64>, f: spec_fn(int) -> int)
    requires
        forall|k: int|
            0 <= k < reordered.len() ==> 0 <= #[trigger] f(k) < ids.len() && reordered[k] == ids[f(
                k,
            )],
        forall|i: int, j: int| 0 <= i < j < reordered.len() ==> #[trigger] f(i) != #[trigger] f(j),
        ids_unique(ids),
    ensures
        ids_unique(reordered),
{
    assert forall|i: int, j: int| 0 <= i < j < reordered.len() implies reordered[i]
        != reordered[j] by {
        assert(f(i) != f(j));
    }
}

/// Checks the extracted ids of one catalog for uniqueness, reporting the
/// first id that repeats an earlier one.
#[verifier::loop_isolation(false)]
pub fn check_unique_ids(ids: &Vec<u64>) -> (r: Result<(), CatalogError>)
    ensures
        r is Ok <==> ids_unique(ids@),
        r == match id_dup_scan_from(ids@, 0) {
            None => Ok::<(), CatalogError>(()),
            Some(d) => Err(CatalogError::DuplicateId(d)),
        },
{
    proof {
        lemma_id_dup_scan(ids@, 0);
        lemma_ids_unique_no_duplicate(ids@);
    }
    let n = ids.len();
    let mut j: usize = 0;
    while j < n
        invariant
            0 <= j <= n,
            id_dup_scan_from(ids@, 0) == id_dup_scan_from(ids@, j as int),
        decreases n - j,
    {
        let mut i: usize = 0;
        while i < j
            invariant
                0 <= i <= j,
                forall|k: int| 0 <= k < i ==> ids@[k] != ids@[j as int],
            decreases j - i,
        {
            if ids[i] == ids[j] {
                proof {
                    assert(id_duplicate_at(ids@, j as int));
                }
                return Err(CatalogError::DuplicateId(ids[j]));
            }
            i += 1;
        }
        proof {
            assert(!id_duplicate_at(ids@, j as int));
        }
        j += 1;
    }
    Ok(())
}

/// Decides whether the extracted ids of a catalog contain `x`.
#[verifier::loop_isolation(false)]
pub fn contains_id(ids: &Vec<u64>, x: u64) -> (r: bool)
    ensures
        r == ids@.contains(x),
{
    let n = ids.len();
    let mut i: usize = 0;
    while i < n
        invariant
            0 <= i <= n,
            forall|k: int| 0 <= k < i ==> ids@[k] != x,
        decreases n - i,
    {
        if ids[i] == x {
            return true;
        }
        i += 1;
    }
    false
}

/// Every reference resolves to an id the referenced catalog carries. A
/// reference is the pair of the referring entity's id and the referenced id.
pub open spec fn refs_valid(ids: Seq<u64>, refs: Seq<(u64, u64)>) -> bool {
    forall|k: int| 0 <= k < refs.len() ==> ids.contains(#[trigger] refs[k].1)
}

/// The first reference of `refs[j..]` that does not resolve, if any.
pub open spec fn ref_miss_scan_from(ids: Seq<u64>, refs: Seq<(u64, u64)>, j: int) -> Option<
    (u64, u64),
>
    decreases refs.len() - j,
    when 0 <= j <= refs.len()
{
    if j == refs.len() {
        None
    } else if !ids.contains(refs[j].1) {
        Some(refs[j])
    } else {
        ref_miss_scan_from(ids, refs, j + 1)
    }
}

/// Checks every reference of one catalog against the extracted ids of the
/// referenced catalog, reporting the first reference that does not resolve.
#[verifier::loop_isolation(false)]
pub fn check_references(ids: &Vec<u64>, refs: &Vec<(u64, u64)>) -> (r: Result<(), CatalogError>)
    ensures
        r is Ok <==> refs_valid(ids@, refs@),
        r == match ref_miss_scan_from(ids@, refs@, 0) {
            None => Ok::<(), CatalogError>(()),
            Some(m) => Err(CatalogError::UnknownReference(m.0, m.1)),
        },
{
    let n = refs.len();
    let mut j: usize = 0;
    while j < n
        invariant
            0 <= j <= n,
            ref_miss_scan_from(ids@, refs@, 0) == ref_miss_scan_from(ids@, refs@, j as int),
            forall|k: int| 0 <= k < j ==> ids@.contains(#[trigger] refs@[k].1),
        decreases n - j,
    {
        let (from, to) = (refs[j].0, refs[j].1);
        if !contains_id(ids, to) {
            return Err(CatalogError::UnknownReference(from, to));
        }
        j += 1;
    }
    Ok(())
}

} // verus!
