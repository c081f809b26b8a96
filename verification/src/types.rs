//! The entities the escrow engine owns, its error kinds, and the transfer
//! instructions it hands to the fund transfer service.
//!
//! Identities (owners, funders, verifiers, token contracts) are opaque to the
//! engine and stand here as plain `u64` ids; the host keeps the mapping to
//! its own account representation.

use vstd::prelude::*;

verus! {

/// A public-works project. `released_funds` accumulates the amounts of its
/// completed milestones; `total_budget` is informational only and is never
/// reconciled against milestone amounts or actual funding.
#[derive(Debug)]
pub struct Project {
    pub id: u32,
    pub name: String,
    pub owner: u64,
    pub total_budget: i128,
    pub released_funds: i128,
    pub active: bool,
}

/// A funding milestone of a project. `completed` is a one-way latch: once
/// true, no verification or release may mutate the milestone again.
#[derive(Debug)]
pub struct Milestone {
    pub id: u32,
    pub project_id: u32,
    pub description: String,
    pub amount: i128,
    pub verifications_required: u32,
    pub verifications_received: u32,
    pub completed: bool,
}

/// Why an operation was refused. Every error is terminal for the triggering
/// call: the engine's state is left exactly as it was.
#[derive(Clone, Copy, Debug, PartialEq, Eq, Structural)]
pub enum EscrowError {
    /// The caller did not prove control of the required identity, or is not
    /// a registered verifier.
    Unauthorized,
    /// No project or milestone exists under the given id.
    NotFound,
    /// The project is inactive, the milestone is already completed, or its
    /// quorum is not met.
    InvalidState,
    /// The attestation or the payment was already recorded: it happens at
    /// most once.
    AlreadyDone,
}

/// An instruction to the fund transfer service: move `amount` of `token`
/// from `from` to `to`. The engine only issues these; the host executes them.
#[derive(Clone, Copy, Debug, PartialEq, Eq, Structural)]
pub struct Transfer {
    pub token: u64,
    pub from: u64,
    pub to: u64,
    pub amount: i128,
}

} // verus!
