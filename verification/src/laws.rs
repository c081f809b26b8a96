//! The engine's general guarantees, stated and proved over the spec-level
//! transitions of [`EscrowView`]. The executable operations are proved to
//! follow those transitions exactly, so each guarantee here carries over to
//! every run of the engine.

use vstd::prelude::*;

use crate::escrow::EscrowView;
use crate::types::EscrowError;
use crate::types::Transfer;

verus! {

/// Project ids are strictly increasing, starting at 1: a successful
/// `create_project` hands out an id one past the number of projects ever
/// created — strictly greater than every id already present, and 1 on a
/// fresh engine. Together with `lemma_histories_only_grow`, ids handed out
/// by successive successful calls grow strictly, whatever runs in between.
pub proof fn lemma_project_ids_strictly_increasing(
    v: EscrowView,
    caller: u64,
    name: String,
    owner: u64,
    total_budget: i128,
)
    requires
        v.wf(),
        caller == owner,
        v.projects.len() < u32::MAX,
    ensures
        ({
            let id = (v.projects.len() + 1) as u32;
            let (v2, r) = v.create_project_spec(caller, name, owner, total_budget);
            &&& r == Ok::<u32, EscrowError>(id)
            &&& forall|i: int| 0 <= i < v.projects.len() ==> (#[trigger] v.projects[i]).id < id
            &&& (v.projects.len() == 0 ==> id == 1)
            &&& v2.projects.len() == v.projects.len() + 1
            &&& v2.project(id).id == id
        }),
{
}

/// No operation discards or renumbers what was created: the project and
/// milestone histories only grow, under every transition and every outcome.
pub proof fn lemma_histories_only_grow(
    v: EscrowView,
    caller: u64,
    name: String,
    owner: u64,
    total_budget: i128,
    project_id: u32,
    description: String,
    amount: i128,
    verifications_required: u32,
    verifier: u64,
    admin: u64,
    milestone_id: u32,
    token: u64,
    recipient: u64,
)
    ensures
        ({
            let after = v.create_project_spec(caller, name, owner, total_budget).0;
            after.projects.len() >= v.projects.len() && after.milestones.len()
                == v.milestones.len()
        }),
        ({
            let after = v.create_milestone_spec(
                caller,
                project_id,
                description,
                amount,
                verifications_required,
            ).0;
            after.projects.len() == v.projects.len() && after.milestones.len()
                >= v.milestones.len()
        }),
        ({
            let after = v.register_verifier_spec(caller, verifier, admin).0;
            after.projects.len() == v.projects.len() && after.milestones.len()
                == v.milestones.len()
        }),
        ({
            let after = v.verify_milestone_spec(caller, milestone_id, verifier).0;
            after.projects.len() == v.projects.len() && after.milestones.len()
                == v.milestones.len()
        }),
        ({
            let after = v.release_payment_spec(milestone_id, token, recipient).0;
            after.projects.len() == v.projects.len() && after.milestones.len()
                == v.milestones.len()
        }),
{
}

/// `completed` is a one-way latch and attestation records are permanent:
/// whatever operation runs next, with whatever outcome, a completed
/// milestone stays completed and a recorded (milestone, verifier)
/// attestation stays recorded. With `lemma_release_at_most_once` and
/// `lemma_verify_counted_exactly_once` this extends "at most once" from
/// the immediately following call to any later one.
pub proof fn lemma_latches_persist(
    v: EscrowView,
    caller: u64,
    name: String,
    owner: u64,
    total_budget: i128,
    project_id: u32,
    description: String,
    amount: i128,
    verifications_required: u32,
    verifier: u64,
    admin: u64,
    milestone_id: u32,
    token: u64,
    recipient: u64,
    watched: u32,
    attestor: u64,
)
    requires
        v.wf(),
        v.has_milestone(watched),
    ensures
        ({
            let after = v.create_project_spec(caller, name, owner, total_budget).0;
            latch_kept(v, after, watched, attestor)
        }),
        ({
            let after = v.create_milestone_spec(
                caller,
                project_id,
                description,
                amount,
                verifications_required,
            ).0;
            latch_kept(v, after, watched, attestor)
        }),
        ({
            let after = v.register_verifier_spec(caller, verifier, admin).0;
            latch_kept(v, after, watched, attestor)
        }),
        ({
            let after = v.verify_milestone_spec(caller, milestone_id, verifier).0;
            latch_kept(v, after, watched, attestor)
        }),
        ({
            let after = v.release_payment_spec(milestone_id, token, recipient).0;
            latch_kept(v, after, watched, attestor)
        }),
{
    if v.has_attestation(watched, attestor) {
        // The recorded pair keeps its place when the history grows.
        let j = choose|j: int|
            0 <= j < v.attestations.len() && v.attestations[j] == (watched, attestor);
        let pushed = v.attestations.push((milestone_id, verifier));
        assert(pushed[j] == (watched, attestor));
        assert(pushed.contains((watched, attestor)));
    }
}

/// What persistence means for one watched milestone and one attestor: the
/// milestone still exists, completion is never undone, and an attestation
/// once recorded is still recorded.
pub open spec fn latch_kept(v: EscrowView, after: EscrowView, watched: u32, attestor: u64) -> bool {
    &&& after.has_milestone(watched)
    &&& v.milestone(watched).completed ==> after.milestone(watched).completed
    &&& v.has_attestation(watched, attestor) ==> after.has_attestation(watched, attestor)
}

/// A milestone is paid at most once: after a successful release, every
/// further release of the same milestone fails with `AlreadyDone` and
/// leaves the state unchanged, whatever token or recipient is named.
pub proof fn lemma_release_at_most_once(
    v: EscrowView,
    milestone_id: u32,
    token: u64,
    recipient: u64,
    token2: u64,
    recipient2: u64,
)
    requires
        v.wf(),
        v.release_payment_spec(milestone_id, token, recipient).1 is Ok,
    ensures
        ({
            let v2 = v.release_payment_spec(milestone_id, token, recipient).0;
            v2.release_payment_spec(milestone_id, token2, recipient2) == (
                v2,
                Err::<Transfer, EscrowError>(EscrowError::AlreadyDone),
            )
        }),
{
}

/// A verifier is counted exactly once per milestone: a first successful
/// verification raises the milestone's count by exactly one and touches no
/// other milestone, and every repeat by the same verifier fails with
/// `AlreadyDone` and changes nothing.
pub proof fn lemma_verify_counted_exactly_once(
    v: EscrowView,
    caller: u64,
    milestone_id: u32,
    verifier: u64,
    caller2: u64,
)
    requires
        v.wf(),
        v.can_count_verification(milestone_id),
        v.verify_milestone_spec(caller, milestone_id, verifier).1 is Ok,
        caller2 == verifier,
    ensures
        ({
            let v2 = v.verify_milestone_spec(caller, milestone_id, verifier).0;
            &&& v2.milestone(milestone_id).verifications_received == v.milestone(
                milestone_id,
            ).verifications_received + 1
            &&& forall|mid: u32|
                v.has_milestone(mid) && mid != milestone_id ==> v2.milestone(mid) == v.milestone(
                    mid,
                )
            &&& v2.verify_milestone_spec(caller2, milestone_id, verifier) == (
                v2,
                Err::<(), EscrowError>(EscrowError::AlreadyDone),
            )
        }),
{
    let v2 = v.verify_milestone_spec(caller, milestone_id, verifier).0;
    // The record written by the first call is what blocks the second.
    assert(v2.attestations[v.attestations.len() as int] == (milestone_id, verifier));
    assert(v2.has_attestation(milestone_id, verifier));
}

/// Payment is never early: for any well-formed state, a milestone short of
/// its quorum is released with `InvalidState` and the state does not
/// change. Well-formedness rules out the one other conceivable shape — a
/// latched milestone below quorum — so the guard is exact.
pub proof fn lemma_release_needs_quorum(
    v: EscrowView,
    milestone_id: u32,
    token: u64,
    recipient: u64,
)
    requires
        v.wf(),
        v.has_milestone(milestone_id),
        v.milestone(milestone_id).verifications_received < v.milestone(
            milestone_id,
        ).verifications_required,
    ensures
        v.release_payment_spec(milestone_id, token, recipient) == (
            v,
            Err::<Transfer, EscrowError>(EscrowError::InvalidState),
        ),
{
}

} // verus!
