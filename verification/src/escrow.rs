//! The escrow engine: its state, its mathematical model, and the lifecycle
//! operations on projects, milestones, verifiers and payments.
//!
//! `EscrowView` is the model: each operation has a spec-level transition
//! function on views, and the executable methods of [`CityWorksEscrow`] are
//! proved to follow those transitions exactly. Well-formedness (`wf`) is the
//! engine's invariant; every constructor establishes it and every operation
//! preserves it.

use vstd::prelude::*;

use crate::tally::attestation_count;
use crate::tally::lemma_attestation_count_absent;
use crate::tally::lemma_attestation_count_push;
use crate::tally::lemma_released_total_absent;
use crate::tally::lemma_released_total_push;
use crate::tally::lemma_released_total_update;
use crate::tally::released_total;
use crate::types::EscrowError;
use crate::types::Milestone;
use crate::types::Project;
use crate::types::Transfer;

verus! {

/// The mathematical model of the engine: the project and milestone
/// histories in order of creation, the registered verifiers, the recorded
/// (milestone id, verifier) attestations, and the custodial identity that
/// holds funds between funding and release.
#[verifier::ext_equal]
pub struct EscrowView {
    pub custodian: u64,
    pub projects: Seq<Project>,
    pub milestones: Seq<Milestone>,
    pub verifiers: Seq<u64>,
    pub attestations: Seq<(u32, u64)>,
}

impl EscrowView {
    /// The freshly deployed engine: no projects, no milestones, no
    /// verifiers, no attestations.
    pub open spec fn init(custodian: u64) -> EscrowView {
        EscrowView {
            custodian,
            projects: Seq::empty(),
            milestones: Seq::empty(),
            verifiers: Seq::empty(),
            attestations: Seq::empty(),
        }
    }

    /// A project id is known exactly when it was handed out by
    /// `create_project`: ids are assigned densely starting at 1.
    pub open spec fn has_project(self, project_id: u32) -> bool {
        1 <= project_id <= self.projects.len()
    }

    /// The project stored under a known id.
    pub open spec fn project(self, project_id: u32) -> Project {
        self.projects[project_id - 1]
    }

    /// A milestone id is known exactly when it was handed out by
    /// `create_milestone`: ids are assigned densely starting at 1.
    pub open spec fn has_milestone(self, milestone_id: u32) -> bool {
        1 <= milestone_id <= self.milestones.len()
    }

    /// The milestone stored under a known id.
    pub open spec fn milestone(self, milestone_id: u32) -> Milestone {
        self.milestones[milestone_id - 1]
    }

    /// Whether an identity is a registered verifier.
    pub open spec fn is_registered(self, verifier: u64) -> bool {
        self.verifiers.contains(verifier)
    }

    /// Whether `verifier` has already attested to milestone `milestone_id`.
    pub open spec fn has_attestation(self, milestone_id: u32, verifier: u64) -> bool {
        self.attestations.contains((milestone_id, verifier))
    }

    /// The engine's invariant. Ids are positional (project and milestone
    /// number `i` sits at index `i - 1`), every milestone belongs to an
    /// existing project, every project's `released_funds` equals the sum of
    /// the amounts of its completed milestones, every attestation names an
    /// existing milestone and is recorded at most once, every milestone's
    /// `verifications_received` equals the number of attestations recorded
    /// for it, and a completed milestone reached its quorum before it was
    /// latched.
    pub open spec fn wf(self) -> bool {
        &&& self.projects.len() <= u32::MAX
        &&& self.milestones.len() <= u32::MAX
        &&& forall|i: int|
            0 <= i < self.projects.len() ==> (#[trigger] self.projects[i]).id == i + 1
        &&& forall|i: int|
            0 <= i < self.projects.len() ==> (#[trigger] self.projects[i]).released_funds
                == released_total(self.milestones, self.projects[i].id)
        &&& forall|i: int|
            0 <= i < self.milestones.len() ==> (#[trigger] self.milestones[i]).id == i + 1
        &&& forall|i: int|
            0 <= i < self.milestones.len() ==> 1 <= (#[trigger] self.milestones[i]).project_id
                <= self.projects.len()
        &&& forall|i: int|
            0 <= i < self.milestones.len() ==> ((#[trigger] self.milestones[i]).completed
                ==> self.milestones[i].verifications_received
                >= self.milestones[i].verifications_required)
        &&& forall|i: int|
            0 <= i < self.milestones.len() ==> (
            #[trigger] self.milestones[i]).verifications_received == attestation_count(
                self.attestations,
                self.milestones[i].id,
            )
        &&& forall|j: int|
            0 <= j < self.attestations.len() ==> 1 <= (#[trigger] self.attestations[j]).0
                <= self.milestones.len()
        &&& forall|j: int, k: int|
            0 <= j < k < self.attestations.len() ==> self.attestations[j] != self.attestations[k]
    }

    /// The transition of `create_project`: the caller must prove control of
    /// the owner identity; the project is appended with the next id, no
    /// funds released, active.
    pub open spec fn create_project_spec(
        self,
        caller: u64,
        name: String,
        owner: u64,
        total_budget: i128,
    ) -> (EscrowView, Result<u32, EscrowError>) {
        if caller != owner {
            (self, Err(EscrowError::Unauthorized))
        } else {
            let project_id = (self.projects.len() + 1) as u32;
            let project = Project {
                id: project_id,
                name,
                owner,
                total_budget,
                released_funds: 0,
                active: true,
            };
            (EscrowView { projects: self.projects.push(project), ..self }, Ok(project_id))
        }
    }

    /// The transition of `fund_project`: the caller must prove control of
    /// the funder identity, the project must exist and be active. The state
    /// never changes; on success the instruction moves `amount` from the
    /// funder into custody. Nothing on the project records the funding:
    /// `total_budget` is informational only and never reconciled.
    pub open spec fn fund_project_spec(
        self,
        caller: u64,
        project_id: u32,
        funder: u64,
        token: u64,
        amount: i128,
    ) -> Result<Transfer, EscrowError> {
        if caller != funder {
            Err(EscrowError::Unauthorized)
        } else if !self.has_project(project_id) {
            Err(EscrowError::NotFound)
        } else if !self.project(project_id).active {
            Err(EscrowError::InvalidState)
        } else {
            Ok(Transfer { token, from: funder, to: self.custodian, amount })
        }
    }

    /// The transition of `create_milestone`: the project must exist and the
    /// caller must prove control of its stored owner — the owner is
    /// re-derived from the project, never taken from the caller. The
    /// milestone is appended with the next id, no verifications, not
    /// completed.
    pub open spec fn create_milestone_spec(
        self,
        caller: u64,
        project_id: u32,
        description: String,
        amount: i128,
        verifications_required: u32,
    ) -> (EscrowView, Result<u32, EscrowError>) {
        if !self.has_project(project_id) {
            (self, Err(EscrowError::NotFound))
        } else if caller != self.project(project_id).owner {
            (self, Err(EscrowError::Unauthorized))
        } else {
            let milestone_id = (self.milestones.len() + 1) as u32;
            let milestone = Milestone {
                id: milestone_id,
                project_id,
                description,
                amount,
                verifications_required,
                verifications_received: 0,
                completed: false,
            };
            (EscrowView { milestones: self.milestones.push(milestone), ..self }, Ok(milestone_id))
        }
    }

    /// The transition of `register_verifier`: the caller must prove control
    /// of the claimed admin identity — no stored admin role exists, so any
    /// identity that proves control of itself succeeds. Registration is
    /// idempotent.
    pub open spec fn register_verifier_spec(self, caller: u64, verifier: u64, admin: u64) -> (
        EscrowView,
        Result<(), EscrowError>,
    ) {
        if caller != admin {
            (self, Err(EscrowError::Unauthorized))
        } else if self.is_registered(verifier) {
            (self, Ok(()))
        } else {
            (EscrowView { verifiers: self.verifiers.push(verifier), ..self }, Ok(()))
        }
    }

    /// The transition of `verify_milestone`: the caller must prove control
    /// of the verifier identity, the verifier must be registered and must
    /// not have attested to this milestone before, the milestone must exist
    /// and must not be completed. On success the milestone's count rises by
    /// exactly one and the attestation is recorded, so it can never be
    /// counted again.
    pub open spec fn verify_milestone_spec(self, caller: u64, milestone_id: u32, verifier: u64) -> (
        EscrowView,
        Result<(), EscrowError>,
    ) {
        if caller != verifier {
            (self, Err(EscrowError::Unauthorized))
        } else if !self.is_registered(verifier) {
            (self, Err(EscrowError::Unauthorized))
        } else if self.has_attestation(milestone_id, verifier) {
            (self, Err(EscrowError::AlreadyDone))
        } else if !self.has_milestone(milestone_id) {
            (self, Err(EscrowError::NotFound))
        } else if self.milestone(milestone_id).completed {
            (self, Err(EscrowError::InvalidState))
        } else {
            let m = self.milestone(milestone_id);
            let bumped = Milestone {
                verifications_received: (m.verifications_received + 1) as u32,
                ..m
            };
            (
                EscrowView {
                    milestones: self.milestones.update(milestone_id - 1, bumped),
                    attestations: self.attestations.push((milestone_id, verifier)),
                    ..self
                },
                Ok(()),
            )
        }
    }

    /// The transition of `release_payment`: callable by anyone — the design
    /// has no caller requirement here. The milestone must exist, must not
    /// already be completed (payment happens at most once), and must have
    /// reached its quorum. On success the milestone latches to completed,
    /// its project's released funds grow by its amount, and the instruction
    /// moves that amount from custody to the recipient.
    pub open spec fn release_payment_spec(self, milestone_id: u32, token: u64, recipient: u64) -> (
        EscrowView,
        Result<Transfer, EscrowError>,
    ) {
        if !self.has_milestone(milestone_id) {
            (self, Err(EscrowError::NotFound))
        } else if self.milestone(milestone_id).completed {
            (self, Err(EscrowError::AlreadyDone))
        } else if self.milestone(milestone_id).verifications_received < self.milestone(
            milestone_id,
        ).verifications_required {
            (self, Err(EscrowError::InvalidState))
        } else if !self.has_project(self.milestone(milestone_id).project_id) {
            (self, Err(EscrowError::NotFound))
        } else {
            let m = self.milestone(milestone_id);
            let p = self.project(m.project_id);
            let latched = Milestone { completed: true, ..m };
            let paid = Project { released_funds: (p.released_funds + m.amount) as i128, ..p };
            (
                EscrowView {
                    milestones: self.milestones.update(milestone_id - 1, latched),
                    projects: self.projects.update(m.project_id - 1, paid),
                    ..self
                },
                Ok(Transfer { token, from: self.custodian, to: recipient, amount: m.amount }),
            )
        }
    }

    /// The machine limit on one more counted verification: the milestone's
    /// counter, if the milestone exists, has room for the increment.
    pub open spec fn can_count_verification(self, milestone_id: u32) -> bool {
        self.has_milestone(milestone_id) ==> self.milestone(
            milestone_id,
        ).verifications_received < u32::MAX
    }

    /// The machine limit on one more release: the project's released funds,
    /// if milestone and project exist, can take the milestone's amount
    /// without leaving `i128`.
    pub open spec fn release_fits(self, milestone_id: u32) -> bool {
        (self.has_milestone(milestone_id) && self.has_project(
            self.milestone(milestone_id).project_id,
        )) ==> {
            let sum = self.project(self.milestone(milestone_id).project_id).released_funds
                + self.milestone(milestone_id).amount;
            i128::MIN <= sum <= i128::MAX
        }
    }
}

/// The escrow engine. The host authenticates callers, persists this state
/// between operations, and executes the [`Transfer`] instructions the
/// operations return; everything else — lifecycle, quorum and payment rules
/// — is decided here.
pub struct CityWorksEscrow {
    pub custodian: u64,
    pub projects: Vec<Project>,
    pub milestones: Vec<Milestone>,
    pub verifiers: Vec<u64>,
    pub attestations: Vec<(u32, u64)>,
}

impl View for CityWorksEscrow {
    type V = EscrowView;

    open spec fn view(&self) -> EscrowView {
        EscrowView {
            custodian: self.custodian,
            projects: self.projects@,
            milestones: self.milestones@,
            verifiers: self.verifiers@,
            attestations: self.attestations@,
        }
    }
}

impl CityWorksEscrow {
    /// A fresh engine whose custodial identity — the account that holds
    /// funds between funding and release — is `custodian`.
    pub fn new(custodian: u64) -> (engine: CityWorksEscrow)
        ensures
            engine@ == EscrowView::init(custodian),
            engine@.wf(),
    {
        let engine = CityWorksEscrow {
            custodian,
            projects: Vec::new(),
            milestones: Vec::new(),
            verifiers: Vec::new(),
            attestations: Vec::new(),
        };
        proof {
            assert(engine@ =~= EscrowView::init(custodian));
        }
        engine
    }

    /// Create a new infrastructure project owned by `owner`, which the
    /// caller must have proven control of. Returns the new project id.
    pub fn create_project(
        &mut self,
        caller: u64,
        name: String,
        owner: u64,
        total_budget: i128,
    ) -> (r: Result<u32, EscrowError>)
        requires
            old(self)@.wf(),
            old(self)@.projects.len() < u32::MAX,
        ensures
            final(self)@.wf(),
            final(self)@ == old(self)@.create_project_spec(caller, name, owner, total_budget).0,
            r == old(self)@.create_project_spec(caller, name, owner, total_budget).1,
    {
        if caller != owner {
            return Err(EscrowError::Unauthorized);
        }
        let project_id = self.projects.len() as u32 + 1;
        let project = Project {
            id: project_id,
            name,
            owner,
            total_budget,
            released_funds: 0,
            active: true,
        };
        self.projects.push(project);
        proof {
            let pre = old(self)@;
            lemma_released_total_absent(pre.milestones, project_id);
            assert(self@ =~= pre.create_project_spec(caller, name, owner, total_budget).0);
        }
        Ok(project_id)
    }

    /// Ask the fund transfer service to move `amount` of `token` from the
    /// funder — whose identity the caller must have proven — into custody.
    /// The engine's state does not change: funds are tracked only through
    /// the custodial balance.
    pub fn fund_project(
        &self,
        caller: u64,
        project_id: u32,
        funder: u64,
        token: u64,
        amount: i128,
    ) -> (r: Result<Transfer, EscrowError>)
        ensures
            r == self@.fund_project_spec(caller, project_id, funder, token, amount),
    {
        if caller != funder {
            return Err(EscrowError::Unauthorized);
        }
        if !(1 <= project_id && project_id as usize <= self.projects.len()) {
            return Err(EscrowError::NotFound);
        }
        if !self.projects[(project_id - 1) as usize].active {
            return Err(EscrowError::InvalidState);
        }
        Ok(Transfer { token, from: funder, to: self.custodian, amount })
    }

    /// Create a milestone under an existing project. The caller must prove
    /// control of the project's stored owner. Returns the new milestone id,
    /// drawn from a global sequence independent of project ids.
    pub fn create_milestone(
        &mut self,
        caller: u64,
        project_id: u32,
        description: String,
        amount: i128,
        verifications_required: u32,
    ) -> (r: Result<u32, EscrowError>)
        requires
            old(self)@.wf(),
            old(self)@.milestones.len() < u32::MAX,
        ensures
            final(self)@.wf(),
            final(self)@ == old(self)@.create_milestone_spec(
                caller,
                project_id,
                description,
                amount,
                verifications_required,
            ).0,
            r == old(self)@.create_milestone_spec(
                caller,
                project_id,
                description,
                amount,
                verifications_required,
            ).1,
    {
        if !(1 <= project_id && project_id as usize <= self.projects.len()) {
            return Err(EscrowError::NotFound);
        }
        if caller != self.projects[(project_id - 1) as usize].owner {
            return Err(EscrowError::Unauthorized);
        }
        let milestone_id = self.milestones.len() as u32 + 1;
        let milestone = Milestone {
            id: milestone_id,
            project_id,
            description,
            amount,
            verifications_required,
            verifications_received: 0,
            completed: false,
        };
        self.milestones.push(milestone);
        proof {
            let pre = old(self)@;
            // A fresh milestone is not completed, so no released total moves.
            assert forall|i: int| 0 <= i < self@.projects.len() implies (
            #[trigger] self@.projects[i]).released_funds == released_total(
                self@.milestones,
                self@.projects[i].id,
            ) by {
                lemma_released_total_push(pre.milestones, milestone, pre.projects[i].id);
            }
            // No attestation can name the fresh milestone yet.
            lemma_attestation_count_absent(pre.attestations, milestone_id);
            assert(self@ =~= pre.create_milestone_spec(
                caller,
                project_id,
                description,
                amount,
                verifications_required,
            ).0);
        }
        Ok(milestone_id)
    }

    /// Register an identity as a verifier, idempotently. The caller must
    /// prove control of the claimed admin identity; no stored admin role
    /// exists beyond that.
    pub fn register_verifier(&mut self, caller: u64, verifier: u64, admin: u64) -> (r: Result<
        (),
        EscrowError,
    >)
        requires
            old(self)@.wf(),
        ensures
            final(self)@.wf(),
            final(self)@ == old(self)@.register_verifier_spec(caller, verifier, admin).0,
            r == old(self)@.register_verifier_spec(caller, verifier, admin).1,
    {
        if caller != admin {
            return Err(EscrowError::Unauthorized);
        }
        if !self.is_verifier(verifier) {
            self.verifiers.push(verifier);
            proof {
                assert(self@ =~= old(self)@.register_verifier_spec(caller, verifier, admin).0);
            }
        }
        Ok(())
    }

    /// Count one verification of a milestone by a registered verifier whose
    /// identity the caller has proven. Each verifier is counted at most
    /// once per milestone: the attestation record written here blocks every
    /// later attempt.
    pub fn verify_milestone(&mut self, caller: u64, milestone_id: u32, verifier: u64) -> (r: Result<
        (),
        EscrowError,
    >)
        requires
            old(self)@.wf(),
            old(self)@.can_count_verification(milestone_id),
        ensures
            final(self)@.wf(),
            final(self)@ == old(self)@.verify_milestone_spec(caller, milestone_id, verifier).0,
            r == old(self)@.verify_milestone_spec(caller, milestone_id, verifier).1,
    {
        if caller != verifier {
            return Err(EscrowError::Unauthorized);
        }
        if !self.is_verifier(verifier) {
            return Err(EscrowError::Unauthorized);
        }
        if self.attestation_recorded(milestone_id, verifier) {
            return Err(EscrowError::AlreadyDone);
        }
        if !(1 <= milestone_id && milestone_id as usize <= self.milestones.len()) {
            return Err(EscrowError::NotFound);
        }
        let midx = (milestone_id - 1) as usize;
        if self.milestones[midx].completed {
            return Err(EscrowError::InvalidState);
        }
        let m = &mut self.milestones[midx];
        m.verifications_received = m.verifications_received + 1;
        self.attestations.push((milestone_id, verifier));
        proof {
            let pre = old(self)@;
            let bumped = self@.milestones[midx as int];
            // The counter moved, but the milestone stays incomplete: no
            // released total changes.
            assert forall|i: int| 0 <= i < self@.projects.len() implies (
            #[trigger] self@.projects[i]).released_funds == released_total(
                self@.milestones,
                self@.projects[i].id,
            ) by {
                lemma_released_total_update(pre.milestones, midx as int, bumped, self@.projects[i].id);
            }
            // The new record raises exactly this milestone's count by one.
            assert forall|i: int| 0 <= i < self@.milestones.len() implies (
            #[trigger] self@.milestones[i]).verifications_received == attestation_count(
                self@.attestations,
                self@.milestones[i].id,
            ) by {
                lemma_attestation_count_push(
                    pre.attestations,
                    (milestone_id, verifier),
                    self@.milestones[i].id,
                );
            }
            assert(self@ =~= pre.verify_milestone_spec(caller, milestone_id, verifier).0);
        }
        Ok(())
    }

    /// Pay a milestone out once its quorum is met: latch it completed, add
    /// its amount to the project's released funds, and instruct the fund
    /// transfer service to move the amount from custody to the recipient.
    /// Anyone may call this; a completed milestone is never paid again.
    pub fn release_payment(&mut self, milestone_id: u32, token: u64, recipient: u64) -> (r: Result<
        Transfer,
        EscrowError,
    >)
        requires
            old(self)@.wf(),
            old(self)@.release_fits(milestone_id),
        ensures
            final(self)@.wf(),
            final(self)@ == old(self)@.release_payment_spec(milestone_id, token, recipient).0,
            r == old(self)@.release_payment_spec(milestone_id, token, recipient).1,
    {
        if !(1 <= milestone_id && milestone_id as usize <= self.milestones.len()) {
            return Err(EscrowError::NotFound);
        }
        let midx = (milestone_id - 1) as usize;
        if self.milestones[midx].completed {
            return Err(EscrowError::AlreadyDone);
        }
        if self.milestones[midx].verifications_received
            < self.milestones[midx].verifications_required {
            return Err(EscrowError::InvalidState);
        }
        let project_id = self.milestones[midx].project_id;
        // Defensive: unreachable for well-formed state, where every
        // milestone belongs to an existing project.
        if !(1 <= project_id && project_id as usize <= self.projects.len()) {
            return Err(EscrowError::NotFound);
        }
        let pidx = (project_id - 1) as usize;
        let amount = self.milestones[midx].amount;
        let m = &mut self.milestones[midx];
        m.completed = true;
        let p = &mut self.projects[pidx];
        p.released_funds = p.released_funds + amount;
        proof {
            let pre = old(self)@;
            let latched = self@.milestones[midx as int];
            // Latching the milestone adds its amount to its own project's
            // total and moves no other project's total.
            assert forall|i: int| 0 <= i < self@.projects.len() implies (
            #[trigger] self@.projects[i]).released_funds == released_total(
                self@.milestones,
                self@.projects[i].id,
            ) by {
                lemma_released_total_update(pre.milestones, midx as int, latched, self@.projects[i].id);
            }
            assert(self@ =~= pre.release_payment_spec(milestone_id, token, recipient).0);
        }
        Ok(Transfer { token, from: self.custodian, to: recipient, amount })
    }

    /// The stored project under `project_id`, or `NotFound`. A pure read.
    pub fn get_project(&self, project_id: u32) -> (r: Result<Project, EscrowError>)
        ensures
            self@.has_project(project_id) ==> r == Ok::<Project, EscrowError>(
                self@.project(project_id),
            ),
            !self@.has_project(project_id) ==> r == Err::<Project, EscrowError>(
                EscrowError::NotFound,
            ),
    {
        if 1 <= project_id && project_id as usize <= self.projects.len() {
            let p = &self.projects[(project_id - 1) as usize];
            Ok(
                Project {
                    id: p.id,
                    name: p.name.clone(),
                    owner: p.owner,
                    total_budget: p.total_budget,
                    released_funds: p.released_funds,
                    active: p.active,
                },
            )
        } else {
            Err(EscrowError::NotFound)
        }
    }

    /// The stored milestone under `milestone_id`, or `NotFound`. A pure read.
    pub fn get_milestone(&self, milestone_id: u32) -> (r: Result<Milestone, EscrowError>)
        ensures
            self@.has_milestone(milestone_id) ==> r == Ok::<Milestone, EscrowError>(
                self@.milestone(milestone_id),
            ),
            !self@.has_milestone(milestone_id) ==> r == Err::<Milestone, EscrowError>(
                EscrowError::NotFound,
            ),
    {
        if 1 <= milestone_id && milestone_id as usize <= self.milestones.len() {
            let m = &self.milestones[(milestone_id - 1) as usize];
            Ok(
                Milestone {
                    id: m.id,
                    project_id: m.project_id,
                    description: m.description.clone(),
                    amount: m.amount,
                    verifications_required: m.verifications_required,
                    verifications_received: m.verifications_received,
                    completed: m.completed,
                },
            )
        } else {
            Err(EscrowError::NotFound)
        }
    }

    /// Whether an identity is a registered verifier; false for identities
    /// never registered. A pure read.
    pub fn is_verifier(&self, address: u64) -> (r: bool)
        ensures
            r == self@.is_registered(address),
    {
        let mut i: usize = 0;
        while i < self.verifiers.len()
            invariant
                i <= self.verifiers.len(),
                forall|j: int| 0 <= j < i ==> self.verifiers@[j] != address,
            decreases self.verifiers.len() - i,
        {
            if self.verifiers[i] == address {
                return true;
            }
            i = i + 1;
        }
        false
    }

    /// Whether an attestation record exists for this milestone and verifier.
    fn attestation_recorded(&self, milestone_id: u32, verifier: u64) -> (r: bool)
        ensures
            r == self@.has_attestation(milestone_id, verifier),
    {
        let mut i: usize = 0;
        while i < self.attestations.len()
            invariant
                i <= self.attestations.len(),
                forall|j: int|
                    0 <= j < i ==> self.attestations@[j] != (milestone_id, verifier),
            decreases self.attestations.len() - i,
        {
            if self.attestations[i].0 == milestone_id && self.attestations[i].1 == verifier {
                return true;
            }
            i = i + 1;
        }
        false
    }
}

} // verus!
