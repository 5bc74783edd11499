use migration_claim::gate::{claim, claim_lp, evaluate_claim, ClaimError, Role};
use migration_claim::ledger::{Identity, MigrationClaimLedger, MigrationProgress};

fn partner() -> Identity {
    Identity { key: 11 }
}

fn creator() -> Identity {
    Identity { key: 22 }
}

fn stranger() -> Identity {
    Identity { key: 33 }
}

fn ledger_with(partner_amount: u64, creator_amount: u64) -> MigrationClaimLedger {
    MigrationClaimLedger::new(
        Identity { key: 1 },
        Identity { key: 2 },
        partner(),
        creator(),
        partner_amount,
        creator_amount,
    )
}

#[test]
fn new_ledger_starts_unclaimed() {
    let ledger = ledger_with(500, 300);
    assert!(!ledger.partner_claimed);
    assert!(!ledger.creator_claimed);
    assert_eq!(ledger.partner_identity, partner());
    assert_eq!(ledger.pool_creator_identity, creator());
    assert_eq!(ledger.partner_amount, 500);
    assert_eq!(ledger.creator_amount, 300);
}

#[test]
fn partner_claim_succeeds_at_checkpoint() {
    let mut ledger = ledger_with(500, 300);
    let r = claim_lp(&mut ledger, MigrationProgress::CreatedPool, partner(), true);
    let approval = r.expect("partner claim should succeed");
    assert_eq!(approval.role, Role::Partner);
    assert_eq!(approval.amount, 500);
    assert!(ledger.partner_claimed);
    assert!(!ledger.creator_claimed);
    assert_eq!(ledger.partner_amount, 500);
    assert_eq!(ledger.creator_amount, 300);
}

#[test]
fn repeat_partner_claim_rejected_then_creator_claims() {
    let mut ledger = ledger_with(500, 300);
    claim_lp(&mut ledger, MigrationProgress::CreatedPool, partner(), true)
        .expect("first partner claim should succeed");

    let again = claim_lp(&mut ledger, MigrationProgress::CreatedPool, partner(), true);
    assert_eq!(again, Err(ClaimError::AlreadyClaimed));
    assert!(ledger.partner_claimed);

    let creator_claim = claim_lp(&mut ledger, MigrationProgress::CreatedPool, creator(), true);
    let approval = creator_claim.expect("creator claim should succeed independently");
    assert_eq!(approval.role, Role::Creator);
    assert_eq!(approval.amount, 300);
    assert!(ledger.creator_claimed);
}

#[test]
fn repeated_rejection_is_stable() {
    let mut ledger = ledger_with(500, 300);
    claim(&mut ledger, MigrationProgress::CreatedPool, partner()).expect("first claim succeeds");
    let after_first = ledger;
    let second = claim(&mut ledger, MigrationProgress::CreatedPool, partner());
    assert_eq!(second, Err(ClaimError::AlreadyClaimed));
    assert_eq!(ledger, after_first);
    let third = claim(&mut ledger, MigrationProgress::CreatedPool, partner());
    assert_eq!(third, Err(ClaimError::AlreadyClaimed));
    assert_eq!(ledger, after_first);
}

#[test]
fn all_claims_rejected_before_checkpoint() {
    for progress in [
        MigrationProgress::Initialized,
        MigrationProgress::LockedVesting,
        MigrationProgress::Completed,
    ] {
        for caller in [partner(), creator(), stranger()] {
            let mut ledger = ledger_with(500, 300);
            let r = claim_lp(&mut ledger, progress, caller, true);
            assert_eq!(r, Err(ClaimError::NotEligibleYet));
            assert!(!ledger.partner_claimed);
            assert!(!ledger.creator_claimed);
        }
    }
}

#[test]
fn unknown_caller_rejected() {
    let mut ledger = ledger_with(500, 300);
    let r = claim_lp(&mut ledger, MigrationProgress::CreatedPool, stranger(), true);
    assert_eq!(r, Err(ClaimError::UnauthorizedCaller));
    assert!(!ledger.partner_claimed);
    assert!(!ledger.creator_claimed);
}

#[test]
fn zero_partner_entitlement_rejected() {
    let mut ledger = ledger_with(0, 300);
    let r = claim_lp(&mut ledger, MigrationProgress::CreatedPool, partner(), true);
    assert_eq!(r, Err(ClaimError::NothingToClaim));
    assert!(!ledger.partner_claimed);
}

#[test]
fn zero_creator_entitlement_rejected() {
    let mut ledger = ledger_with(500, 0);
    let r = claim_lp(&mut ledger, MigrationProgress::CreatedPool, creator(), true);
    assert_eq!(r, Err(ClaimError::NothingToClaim));
    assert!(!ledger.creator_claimed);
}

#[test]
fn transfer_failure_rolls_back() {
    let mut ledger = ledger_with(500, 300);
    let before = ledger;
    let r = claim_lp(&mut ledger, MigrationProgress::CreatedPool, partner(), false);
    assert_eq!(r, Err(ClaimError::TransferFailed));
    assert_eq!(ledger, before);
    assert!(!ledger.partner_claimed);
}

#[test]
fn roles_claim_independently() {
    let mut ledger = ledger_with(500, 300);
    claim_lp(&mut ledger, MigrationProgress::CreatedPool, creator(), true)
        .expect("creator claim should succeed");
    assert!(ledger.creator_claimed);
    assert!(!ledger.partner_claimed);

    let partner_claim = claim_lp(&mut ledger, MigrationProgress::CreatedPool, partner(), true);
    let approval = partner_claim.expect("partner claim still available");
    assert_eq!(approval.role, Role::Partner);
    assert!(ledger.partner_claimed);
    assert!(ledger.creator_claimed);
}

#[test]
fn partner_matched_before_creator() {
    let same = Identity { key: 44 };
    let mut ledger = MigrationClaimLedger::new(
        Identity { key: 1 },
        Identity { key: 2 },
        same,
        same,
        500,
        300,
    );
    let r = claim(&mut ledger, MigrationProgress::CreatedPool, same);
    let approval = r.expect("claim should resolve a role");
    assert_eq!(approval.role, Role::Partner);
    assert_eq!(approval.amount, 500);
    assert!(ledger.partner_claimed);
    assert!(!ledger.creator_claimed);
}

#[test]
fn evaluate_claim_reports_without_flipping() {
    let ledger = ledger_with(500, 300);
    let r = evaluate_claim(&ledger, MigrationProgress::CreatedPool, partner());
    let approval = r.expect("evaluation should approve the partner");
    assert_eq!(approval.role, Role::Partner);
    assert_eq!(approval.amount, 500);
    assert!(!ledger.partner_claimed);
    assert!(!ledger.creator_claimed);
}

#[test]
fn claim_reports_gate_errors_in_check_order() {
    let mut claimed = ledger_with(0, 300);
    claimed.partner_claimed = true;
    let r = claim(&mut claimed, MigrationProgress::CreatedPool, partner());
    assert_eq!(r, Err(ClaimError::AlreadyClaimed));

    let mut wrong_stage = ledger_with(0, 300);
    let r2 = claim(&mut wrong_stage, MigrationProgress::Initialized, partner());
    assert_eq!(r2, Err(ClaimError::NotEligibleYet));
}
