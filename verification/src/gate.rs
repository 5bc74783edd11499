//! The claim authorization gate: pure decision logic over the ledger, the
//! migration progress marker and a caller identity, and the executable claim
//! operations proved against it.

use vstd::prelude::*;

use crate::ledger::{Identity, MigrationClaimLedger, MigrationProgress};

verus! {

/// The role a successful caller claims under.
#[derive(Clone, Copy, Debug, PartialEq, Eq, Structural)]
pub enum Role {
    Partner,
    Creator,
}

/// Why a claim invocation was rejected. Exactly one terminal outcome per
/// invocation; none is retried internally.
#[derive(Clone, Copy, Debug, PartialEq, Eq, Structural)]
pub enum ClaimError {
    /// The migration has not yet reached the `CreatedPool` checkpoint.
    NotEligibleYet,
    /// The caller identity matches neither recorded beneficiary.
    UnauthorizedCaller,
    /// The resolved role has already claimed.
    AlreadyClaimed,
    /// The resolved role's entitlement is zero.
    NothingToClaim,
    /// The custodial-transfer collaborator rejected the movement; every change
    /// the invocation made is rolled back.
    TransferFailed,
}

/// What an approved claim is entitled to: the resolved role and the amount
/// the transfer executor must move for it.
#[derive(Clone, Copy, Debug, PartialEq, Eq, Structural)]
pub struct ClaimApproval {
    pub role: Role,
    pub amount: u64,
}

/// The claim authorization decision, checks in order: the migration must stand at
/// `CreatedPool`; the caller is matched against the partner identity first,
/// then the pool creator identity; the resolved role must not have claimed
/// yet; and its entitlement must be strictly positive. Only then is the claim
/// approved, for that role's full fixed entitlement.
pub open spec fn gate_decision(
    ledger: MigrationClaimLedger,
    progress: MigrationProgress,
    caller: Identity,
) -> Result<ClaimApproval, ClaimError> {
    if progress != MigrationProgress::CreatedPool {
        Err(ClaimError::NotEligibleYet)
    } else if caller == ledger.partner_identity {
        if ledger.partner_claimed {
            Err(ClaimError::AlreadyClaimed)
        } else if ledger.partner_amount == 0 {
            Err(ClaimError::NothingToClaim)
        } else {
            Ok(ClaimApproval { role: Role::Partner, amount: ledger.partner_amount })
        }
    } else if caller == ledger.pool_creator_identity {
        if ledger.creator_claimed {
            Err(ClaimError::AlreadyClaimed)
        } else if ledger.creator_amount == 0 {
            Err(ClaimError::NothingToClaim)
        } else {
            Ok(ClaimApproval { role: Role::Creator, amount: ledger.creator_amount })
        }
    } else {
        Err(ClaimError::UnauthorizedCaller)
    }
}

/// The ledger after one claim operation: on approval exactly the resolved
/// role's flag flips to true and nothing else changes; on rejection the ledger
/// is untouched.
pub open spec fn ledger_after(
    ledger: MigrationClaimLedger,
    progress: MigrationProgress,
    caller: Identity,
) -> MigrationClaimLedger {
    match gate_decision(ledger, progress, caller) {
        Ok(approval) => match approval.role {
            Role::Partner => MigrationClaimLedger { partner_claimed: true, ..ledger },
            Role::Creator => MigrationClaimLedger { creator_claimed: true, ..ledger },
        },
        Err(_) => ledger,
    }
}

/// Outcome of a whole claim invocation, the custodial transfer included:
/// a rejected claim keeps its gate error; an approved claim succeeds exactly
/// when the transfer collaborator moved the funds, and otherwise fails with
/// `TransferFailed`.
pub open spec fn invocation_result(
    ledger: MigrationClaimLedger,
    progress: MigrationProgress,
    caller: Identity,
    transfer_ok: bool,
) -> Result<ClaimApproval, ClaimError> {
    match gate_decision(ledger, progress, caller) {
        Ok(approval) => if transfer_ok {
            Ok(approval)
        } else {
            Err(ClaimError::TransferFailed)
        },
        Err(e) => Err(e),
    }
}

/// The ledger after a whole claim invocation: the flag flip is visible only
/// if the transfer also succeeded; a failed transfer rolls the invocation
/// back to the ledger it started from.
pub open spec fn ledger_after_invocation(
    ledger: MigrationClaimLedger,
    progress: MigrationProgress,
    caller: Identity,
    transfer_ok: bool,
) -> MigrationClaimLedger {
    if transfer_ok {
        ledger_after(ledger, progress, caller)
    } else {
        ledger
    }
}

/// The authorization decision alone, with no change to the ledger: what a claim by
/// `caller` at `progress` would be approved for, or why it would be rejected.
/// The host integration calls this before it attempts the transfer, to learn
/// the amount the executor must move.
pub fn evaluate_claim(
    ledger: &MigrationClaimLedger,
    progress: MigrationProgress,
    caller: Identity,
) -> (r: Result<ClaimApproval, ClaimError>)
    ensures
        r == gate_decision(*ledger, progress, caller),
{
    if progress != MigrationProgress::CreatedPool {
        Err(ClaimError::NotEligibleYet)
    } else if caller == ledger.partner_identity {
        if ledger.partner_claimed {
            Err(ClaimError::AlreadyClaimed)
        } else if ledger.partner_amount == 0 {
            Err(ClaimError::NothingToClaim)
        } else {
            Ok(ClaimApproval { role: Role::Partner, amount: ledger.partner_amount })
        }
    } else if caller == ledger.pool_creator_identity {
        if ledger.creator_claimed {
            Err(ClaimError::AlreadyClaimed)
        } else if ledger.creator_amount == 0 {
            Err(ClaimError::NothingToClaim)
        } else {
            Ok(ClaimApproval { role: Role::Creator, amount: ledger.creator_amount })
        }
    } else {
        Err(ClaimError::UnauthorizedCaller)
    }
}

/// The claim operation: runs the authorization checks and, on approval, flips the
/// resolved role's claimed flag and reports the role and amount owed. On any
/// failed check the ledger is left exactly as it was; on success nothing but
/// that one flag changes.
pub fn claim(
    ledger: &mut MigrationClaimLedger,
    progress: MigrationProgress,
    caller: Identity,
) -> (r: Result<ClaimApproval, ClaimError>)
    ensures
        r == gate_decision(*old(ledger), progress, caller),
        *final(ledger) == ledger_after(*old(ledger), progress, caller),
{
    let decision = evaluate_claim(ledger, progress, caller);
    if let Ok(approval) = decision {
        match approval.role {
            Role::Partner => {
                ledger.partner_claimed = true;
            },
            Role::Creator => {
                ledger.creator_claimed = true;
            },
        }
    }
    decision
}

/// One whole claim invocation, the custodial transfer included. The value
/// movement itself is performed by the host runtime's transfer collaborator;
/// `transfer_ok` is the outcome that collaborator reported for the approved
/// amount. A reported failure rolls the invocation back: the flag the claim
/// had flipped is restored, so the invocation either fully succeeds or leaves
/// the ledger exactly as it started.
pub fn claim_lp(
    ledger: &mut MigrationClaimLedger,
    progress: MigrationProgress,
    caller: Identity,
    transfer_ok: bool,
) -> (r: Result<ClaimApproval, ClaimError>)
    ensures
        r == invocation_result(*old(ledger), progress, caller, transfer_ok),
        *final(ledger) == ledger_after_invocation(*old(ledger), progress, caller, transfer_ok),
{
    let snapshot = *ledger;
    match claim(ledger, progress, caller) {
        Ok(approval) => {
            if transfer_ok {
                Ok(approval)
            } else {
                *ledger = snapshot;
                Err(ClaimError::TransferFailed)
            }
        },
        Err(e) => Err(e),
    }
}

} // verus!
