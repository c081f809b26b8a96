//! Spec-level tallies over the engine's histories: how much a project's
//! completed milestones add up to, and how many attestations a milestone
//! has collected. The engine's well-formedness ties its stored counters to
//! these tallies, and the lemmas here say how each tally moves when a
//! history grows or one of its entries changes.

use vstd::prelude::*;

use crate::types::Milestone;

verus! {

/// What one milestone contributes to the released funds of project `pid`:
/// its amount once it is completed, nothing before.
pub open spec fn contribution(m: Milestone, pid: u32) -> int {
    if m.project_id == pid && m.completed {
        m.amount as int
    } else {
        0
    }
}

/// The sum of the amounts of the completed milestones of project `pid`.
pub open spec fn released_total(ms: Seq<Milestone>, pid: u32) -> int
    decreases ms.len(),
{
    if ms.len() == 0 {
        0
    } else {
        released_total(ms.drop_last(), pid) + contribution(ms.last(), pid)
    }
}

/// How many attestation records name milestone `mid`.
pub open spec fn attestation_count(atts: Seq<(u32, u64)>, mid: u32) -> int
    decreases atts.len(),
{
    if atts.len() == 0 {
        0
    } else {
        attestation_count(atts.drop_last(), mid) + if atts.last().0 == mid {
            1int
        } else {
            0int
        }
    }
}

/// Appending a milestone adds exactly its contribution to every total.
pub proof fn lemma_released_total_push(ms: Seq<Milestone>, m: Milestone, pid: u32)
    ensures
        released_total(ms.push(m), pid) == released_total(ms, pid) + contribution(m, pid),
{
    assert(ms.push(m).drop_last() =~= ms);
}

/// A project no milestone belongs to has released nothing.
pub proof fn lemma_released_total_absent(ms: Seq<Milestone>, pid: u32)
    requires
        forall|i: int| 0 <= i < ms.len() ==> (#[trigger] ms[i]).project_id != pid,
    ensures
        released_total(ms, pid) == 0,
    decreases ms.len(),
{
    if ms.len() > 0 {
        lemma_released_total_absent(ms.drop_last(), pid);
    }
}

/// Replacing one milestone moves every total by the difference of the old
/// and the new entry's contributions.
pub proof fn lemma_released_total_update(ms: Seq<Milestone>, j: int, m2: Milestone, pid: u32)
    requires
        0 <= j < ms.len(),
    ensures
        released_total(ms.update(j, m2), pid) == released_total(ms, pid) - contribution(
            ms[j],
            pid,
        ) + contribution(m2, pid),
    decreases ms.len(),
{
    let ms2 = ms.update(j, m2);
    if j == ms.len() - 1 {
        assert(ms2.drop_last() =~= ms.drop_last());
    } else {
        lemma_released_total_update(ms.drop_last(), j, m2, pid);
        assert(ms2.drop_last() =~= ms.drop_last().update(j, m2));
    }
}

/// Appending an attestation raises exactly the named milestone's count by
/// one and leaves every other count unchanged.
pub proof fn lemma_attestation_count_push(atts: Seq<(u32, u64)>, a: (u32, u64), mid: u32)
    ensures
        attestation_count(atts.push(a), mid) == attestation_count(atts, mid) + if a.0 == mid {
            1int
        } else {
            0int
        },
{
    assert(atts.push(a).drop_last() =~= atts);
}

/// A milestone no attestation names has a count of zero.
pub proof fn lemma_attestation_count_absent(atts: Seq<(u32, u64)>, mid: u32)
    requires
        forall|i: int| 0 <= i < atts.len() ==> (#[trigger] atts[i]).0 != mid,
    ensures
        attestation_count(atts, mid) == 0,
    decreases atts.len(),
{
    if atts.len() > 0 {
        lemma_attestation_count_absent(atts.drop_last(), mid);
    }
}

} // verus!
