//! End-to-end tests of the escrow engine: the project and milestone
//! lifecycle, verifier registration and attestation, and the release rules.
//!
//! Identities are plain ids here; the host would map real accounts onto
//! them. `CUSTODIAN` stands for the engine's own account.

use cityworks_escrow::escrow::CityWorksEscrow;
use cityworks_escrow::types::EscrowError;
use cityworks_escrow::types::Transfer;

const CUSTODIAN: u64 = 1000;
const OWNER: u64 = 1;
const ADMIN: u64 = 2;
const VERIFIER1: u64 = 3;
const VERIFIER2: u64 = 4;
const RECIPIENT: u64 = 5;
const TOKEN: u64 = 6;

#[test]
fn test_create_project() {
    let mut engine = CityWorksEscrow::new(CUSTODIAN);

    let name = "Highway Expansion".to_string();
    let project_id = engine
        .create_project(OWNER, name.clone(), OWNER, 1_000_000)
        .unwrap();

    assert_eq!(project_id, 1);

    let project = engine.get_project(project_id).unwrap();
    assert_eq!(project.name, name);
    assert_eq!(project.total_budget, 1_000_000);
    assert_eq!(project.released_funds, 0);
    assert!(project.active);
}

#[test]
fn test_milestone_verification() {
    let mut engine = CityWorksEscrow::new(CUSTODIAN);

    let project_id = engine
        .create_project(OWNER, "Bridge Repair".to_string(), OWNER, 500_000)
        .unwrap();

    let milestone_id = engine
        .create_milestone(OWNER, project_id, "Foundation Complete".to_string(), 100_000, 2)
        .unwrap();

    engine.register_verifier(ADMIN, VERIFIER1, ADMIN).unwrap();
    engine.register_verifier(ADMIN, VERIFIER2, ADMIN).unwrap();

    engine.verify_milestone(VERIFIER1, milestone_id, VERIFIER1).unwrap();
    engine.verify_milestone(VERIFIER2, milestone_id, VERIFIER2).unwrap();

    let milestone = engine.get_milestone(milestone_id).unwrap();
    assert_eq!(milestone.verifications_received, 2);
}

#[test]
fn test_new_milestone_starts_unverified() {
    let mut engine = CityWorksEscrow::new(CUSTODIAN);

    engine
        .create_project(OWNER, "Highway Expansion".to_string(), OWNER, 1_000_000)
        .unwrap();
    let milestone_id = engine
        .create_milestone(OWNER, 1, "Earthworks".to_string(), 100_000, 2)
        .unwrap();

    assert_eq!(milestone_id, 1);
    let milestone = engine.get_milestone(milestone_id).unwrap();
    assert_eq!(milestone.project_id, 1);
    assert_eq!(milestone.amount, 100_000);
    assert_eq!(milestone.verifications_required, 2);
    assert_eq!(milestone.verifications_received, 0);
    assert!(!milestone.completed);
}

#[test]
fn test_release_after_quorum() {
    let mut engine = CityWorksEscrow::new(CUSTODIAN);

    engine
        .create_project(OWNER, "Highway Expansion".to_string(), OWNER, 1_000_000)
        .unwrap();
    let milestone_id = engine
        .create_milestone(OWNER, 1, "Earthworks".to_string(), 100_000, 2)
        .unwrap();
    engine.register_verifier(ADMIN, VERIFIER1, ADMIN).unwrap();
    engine.register_verifier(ADMIN, VERIFIER2, ADMIN).unwrap();
    engine.verify_milestone(VERIFIER1, milestone_id, VERIFIER1).unwrap();
    engine.verify_milestone(VERIFIER2, milestone_id, VERIFIER2).unwrap();

    let transfer = engine.release_payment(milestone_id, TOKEN, RECIPIENT).unwrap();
    assert_eq!(
        transfer,
        Transfer { token: TOKEN, from: CUSTODIAN, to: RECIPIENT, amount: 100_000 }
    );

    let milestone = engine.get_milestone(milestone_id).unwrap();
    assert!(milestone.completed);
    let project = engine.get_project(1).unwrap();
    assert_eq!(project.released_funds, 100_000);
}

#[test]
fn test_release_below_quorum_is_invalid_state() {
    let mut engine = CityWorksEscrow::new(CUSTODIAN);

    engine
        .create_project(OWNER, "Highway Expansion".to_string(), OWNER, 1_000_000)
        .unwrap();
    let milestone_id = engine
        .create_milestone(OWNER, 1, "Earthworks".to_string(), 100_000, 2)
        .unwrap();
    engine.register_verifier(ADMIN, VERIFIER1, ADMIN).unwrap();
    engine.verify_milestone(VERIFIER1, milestone_id, VERIFIER1).unwrap();

    let err = engine.release_payment(milestone_id, TOKEN, RECIPIENT).unwrap_err();
    assert_eq!(err, EscrowError::InvalidState);
    let milestone = engine.get_milestone(milestone_id).unwrap();
    assert!(!milestone.completed);
    assert_eq!(engine.get_project(1).unwrap().released_funds, 0);
}

#[test]
fn test_release_twice_is_already_done() {
    let mut engine = CityWorksEscrow::new(CUSTODIAN);

    engine
        .create_project(OWNER, "Highway Expansion".to_string(), OWNER, 1_000_000)
        .unwrap();
    let milestone_id = engine
        .create_milestone(OWNER, 1, "Earthworks".to_string(), 100_000, 1)
        .unwrap();
    engine.register_verifier(ADMIN, VERIFIER1, ADMIN).unwrap();
    engine.verify_milestone(VERIFIER1, milestone_id, VERIFIER1).unwrap();
    engine.release_payment(milestone_id, TOKEN, RECIPIENT).unwrap();

    let err = engine.release_payment(milestone_id, TOKEN, RECIPIENT).unwrap_err();
    assert_eq!(err, EscrowError::AlreadyDone);
    // paid exactly once
    assert_eq!(engine.get_project(1).unwrap().released_funds, 100_000);
}

#[test]
fn test_duplicate_verification_is_already_done() {
    let mut engine = CityWorksEscrow::new(CUSTODIAN);

    engine
        .create_project(OWNER, "Highway Expansion".to_string(), OWNER, 1_000_000)
        .unwrap();
    let milestone_id = engine
        .create_milestone(OWNER, 1, "Earthworks".to_string(), 100_000, 2)
        .unwrap();
    engine.register_verifier(ADMIN, VERIFIER1, ADMIN).unwrap();
    engine.verify_milestone(VERIFIER1, milestone_id, VERIFIER1).unwrap();

    let err = engine
        .verify_milestone(VERIFIER1, milestone_id, VERIFIER1)
        .unwrap_err();
    assert_eq!(err, EscrowError::AlreadyDone);
    // counted exactly once
    let milestone = engine.get_milestone(milestone_id).unwrap();
    assert_eq!(milestone.verifications_received, 1);
}

#[test]
fn test_unregistered_verifier_is_unauthorized() {
    let mut engine = CityWorksEscrow::new(CUSTODIAN);

    engine
        .create_project(OWNER, "Highway Expansion".to_string(), OWNER, 1_000_000)
        .unwrap();
    let milestone_id = engine
        .create_milestone(OWNER, 1, "Earthworks".to_string(), 100_000, 2)
        .unwrap();

    let err = engine
        .verify_milestone(VERIFIER1, milestone_id, VERIFIER1)
        .unwrap_err();
    assert_eq!(err, EscrowError::Unauthorized);
    // milestone state unchanged
    let milestone = engine.get_milestone(milestone_id).unwrap();
    assert_eq!(milestone.verifications_received, 0);
    assert!(!milestone.completed);
}

#[test]
fn test_non_owner_cannot_create_milestone() {
    let mut engine = CityWorksEscrow::new(CUSTODIAN);

    engine
        .create_project(OWNER, "Highway Expansion".to_string(), OWNER, 1_000_000)
        .unwrap();

    let intruder: u64 = 77;
    let err = engine
        .create_milestone(intruder, 1, "Earthworks".to_string(), 100_000, 2)
        .unwrap_err();
    assert_eq!(err, EscrowError::Unauthorized);

    // nothing was allocated: the next milestone still gets id 1
    assert_eq!(engine.get_milestone(1).unwrap_err(), EscrowError::NotFound);
    let milestone_id = engine
        .create_milestone(OWNER, 1, "Earthworks".to_string(), 100_000, 2)
        .unwrap();
    assert_eq!(milestone_id, 1);
}

#[test]
fn test_project_ids_strictly_increase() {
    let mut engine = CityWorksEscrow::new(CUSTODIAN);

    let first = engine
        .create_project(OWNER, "Highway Expansion".to_string(), OWNER, 1_000_000)
        .unwrap();
    let second = engine
        .create_project(OWNER, "Bridge Repair".to_string(), OWNER, 500_000)
        .unwrap();
    let third = engine
        .create_project(ADMIN, "Tunnel Lighting".to_string(), ADMIN, 50_000)
        .unwrap();

    assert_eq!(first, 1);
    assert_eq!(second, 2);
    assert_eq!(third, 3);
}

#[test]
fn test_create_project_requires_owner_proof() {
    let mut engine = CityWorksEscrow::new(CUSTODIAN);

    let err = engine
        .create_project(ADMIN, "Highway Expansion".to_string(), OWNER, 1_000_000)
        .unwrap_err();
    assert_eq!(err, EscrowError::Unauthorized);
    assert_eq!(engine.get_project(1).unwrap_err(), EscrowError::NotFound);
}

#[test]
fn test_fund_project_issues_transfer_into_custody() {
    let mut engine = CityWorksEscrow::new(CUSTODIAN);

    engine
        .create_project(OWNER, "Highway Expansion".to_string(), OWNER, 1_000_000)
        .unwrap();

    let funder: u64 = 42;
    let transfer = engine.fund_project(funder, 1, funder, TOKEN, 250_000).unwrap();
    assert_eq!(
        transfer,
        Transfer { token: TOKEN, from: funder, to: CUSTODIAN, amount: 250_000 }
    );
    // funding records nothing on the project itself
    assert_eq!(engine.get_project(1).unwrap().released_funds, 0);

    let err = engine.fund_project(OWNER, 1, funder, TOKEN, 250_000).unwrap_err();
    assert_eq!(err, EscrowError::Unauthorized);
    let err = engine.fund_project(funder, 9, funder, TOKEN, 250_000).unwrap_err();
    assert_eq!(err, EscrowError::NotFound);
}

#[test]
fn test_register_verifier_is_idempotent() {
    let mut engine = CityWorksEscrow::new(CUSTODIAN);

    assert!(!engine.is_verifier(VERIFIER1));
    engine.register_verifier(ADMIN, VERIFIER1, ADMIN).unwrap();
    assert!(engine.is_verifier(VERIFIER1));
    engine.register_verifier(ADMIN, VERIFIER1, ADMIN).unwrap();
    assert!(engine.is_verifier(VERIFIER1));
    assert!(!engine.is_verifier(VERIFIER2));

    let err = engine.register_verifier(VERIFIER2, VERIFIER2, ADMIN).unwrap_err();
    assert_eq!(err, EscrowError::Unauthorized);
    assert!(!engine.is_verifier(VERIFIER2));
}

#[test]
fn test_unknown_ids_are_not_found() {
    let mut engine = CityWorksEscrow::new(CUSTODIAN);
    engine.register_verifier(ADMIN, VERIFIER1, ADMIN).unwrap();

    assert_eq!(engine.get_project(1).unwrap_err(), EscrowError::NotFound);
    assert_eq!(engine.get_milestone(1).unwrap_err(), EscrowError::NotFound);
    assert_eq!(
        engine
            .create_milestone(OWNER, 1, "Earthworks".to_string(), 100_000, 2)
            .unwrap_err(),
        EscrowError::NotFound
    );
    assert_eq!(
        engine.verify_milestone(VERIFIER1, 1, VERIFIER1).unwrap_err(),
        EscrowError::NotFound
    );
    assert_eq!(
        engine.release_payment(1, TOKEN, RECIPIENT).unwrap_err(),
        EscrowError::NotFound
    );
}

#[test]
fn test_zero_quorum_releases_without_verification() {
    let mut engine = CityWorksEscrow::new(CUSTODIAN);

    engine
        .create_project(OWNER, "Highway Expansion".to_string(), OWNER, 1_000_000)
        .unwrap();
    let milestone_id = engine
        .create_milestone(OWNER, 1, "Mobilization".to_string(), 10_000, 0)
        .unwrap();

    let transfer = engine.release_payment(milestone_id, TOKEN, RECIPIENT).unwrap();
    assert_eq!(transfer.amount, 10_000);
    assert!(engine.get_milestone(milestone_id).unwrap().completed);
}

#[test]
fn test_extra_attestations_accumulate_past_quorum() {
    let mut engine = CityWorksEscrow::new(CUSTODIAN);

    engine
        .create_project(OWNER, "Highway Expansion".to_string(), OWNER, 1_000_000)
        .unwrap();
    let milestone_id = engine
        .create_milestone(OWNER, 1, "Earthworks".to_string(), 100_000, 1)
        .unwrap();
    engine.register_verifier(ADMIN, VERIFIER1, ADMIN).unwrap();
    engine.register_verifier(ADMIN, VERIFIER2, ADMIN).unwrap();

    engine.verify_milestone(VERIFIER1, milestone_id, VERIFIER1).unwrap();
    engine.verify_milestone(VERIFIER2, milestone_id, VERIFIER2).unwrap();
    assert_eq!(
        engine.get_milestone(milestone_id).unwrap().verifications_received,
        2
    );

    // once completed, even a fresh verifier is turned away
    engine.release_payment(milestone_id, TOKEN, RECIPIENT).unwrap();
    let fresh: u64 = 9;
    engine.register_verifier(ADMIN, fresh, ADMIN).unwrap();
    assert_eq!(
        engine.verify_milestone(fresh, milestone_id, fresh).unwrap_err(),
        EscrowError::InvalidState
    );
    assert_eq!(
        engine.get_milestone(milestone_id).unwrap().verifications_received,
        2
    );
}

#[test]
fn test_released_funds_accumulate_across_milestones() {
    let mut engine = CityWorksEscrow::new(CUSTODIAN);

    engine
        .create_project(OWNER, "Highway Expansion".to_string(), OWNER, 1_000_000)
        .unwrap();
    let first = engine
        .create_milestone(OWNER, 1, "Earthworks".to_string(), 100_000, 0)
        .unwrap();
    let second = engine
        .create_milestone(OWNER, 1, "Paving".to_string(), 250_000, 0)
        .unwrap();
    assert_eq!(first, 1);
    assert_eq!(second, 2);

    engine.release_payment(first, TOKEN, RECIPIENT).unwrap();
    assert_eq!(engine.get_project(1).unwrap().released_funds, 100_000);
    engine.release_payment(second, TOKEN, RECIPIENT).unwrap();
    assert_eq!(engine.get_project(1).unwrap().released_funds, 350_000);
}
