//! The guarantees the claim gate gives, stated and proved over its own
//! decision and transition functions.

use vstd::prelude::*;

use crate::gate::{gate_decision, invocation_result, ledger_after, ledger_after_invocation};
use crate::gate::{ClaimApproval, ClaimError};
use crate::ledger::{Identity, MigrationClaimLedger, MigrationProgress};

verus! {

/// Before the migration reaches the `CreatedPool` checkpoint, every claim is
/// rejected as not yet eligible and the ledger is left unchanged, whoever the
/// caller is.
pub proof fn law_rejected_before_checkpoint(
    ledger: MigrationClaimLedger,
    progress: MigrationProgress,
    caller: Identity,
)
    requires
        progress != MigrationProgress::CreatedPool,
    ensures
        gate_decision(ledger, progress, caller) == Err::<ClaimApproval, ClaimError>(
            ClaimError::NotEligibleYet,
        ),
        ledger_after(ledger, progress, caller) == ledger,
{
}

/// At the checkpoint, a caller who is neither the partner nor the pool creator
/// is rejected as unauthorized and the ledger is left unchanged. (Before the
/// checkpoint such a caller is rejected too, but as not yet eligible.)
pub proof fn law_unknown_caller_rejected(
    ledger: MigrationClaimLedger,
    progress: MigrationProgress,
    caller: Identity,
)
    requires
        progress == MigrationProgress::CreatedPool,
        caller != ledger.partner_identity,
        caller != ledger.pool_creator_identity,
    ensures
        gate_decision(ledger, progress, caller) == Err::<ClaimApproval, ClaimError>(
            ClaimError::UnauthorizedCaller,
        ),
        ledger_after(ledger, progress, caller) == ledger,
{
}

/// Rejection of a repeated claim is idempotent: once a caller's claim has
/// succeeded, every further claim by the same caller is rejected as already
/// claimed and moves the ledger nowhere, however often it is repeated — so no
/// second transfer ever becomes due.
pub proof fn law_repeat_claim_rejected(
    ledger: MigrationClaimLedger,
    progress: MigrationProgress,
    caller: Identity,
)
    requires
        gate_decision(ledger, progress, caller) is Ok,
    ensures
        ({
            let once = ledger_after(ledger, progress, caller);
            &&& gate_decision(once, progress, caller) == Err::<ClaimApproval, ClaimError>(
                ClaimError::AlreadyClaimed,
            )
            &&& ledger_after(once, progress, caller) == once
            &&& gate_decision(ledger_after(once, progress, caller), progress, caller) == Err::<
                ClaimApproval,
                ClaimError,
            >(ClaimError::AlreadyClaimed)
        }),
{
}

/// The two roles are independent: a claim by the partner identity never
/// touches the creator's flag, and a claim by anyone else never touches the
/// partner's flag. (The partner is matched first, so a caller equal to the
/// partner identity always claims as partner.)
pub proof fn law_roles_independent(
    ledger: MigrationClaimLedger,
    progress: MigrationProgress,
    caller: Identity,
)
    ensures
        caller == ledger.partner_identity ==> ledger_after(
            ledger,
            progress,
            caller,
        ).creator_claimed == ledger.creator_claimed,
        caller != ledger.partner_identity ==> ledger_after(
            ledger,
            progress,
            caller,
        ).partner_claimed == ledger.partner_claimed,
{
}

/// A claim only ever flips claim flags, and only from false to true: the
/// identities, the entitlements and the asset and pool references never
/// change, and a flag that is already true stays true.
pub proof fn law_only_flags_flip(
    ledger: MigrationClaimLedger,
    progress: MigrationProgress,
    caller: Identity,
)
    ensures
        ({
            let next = ledger_after(ledger, progress, caller);
            &&& next.lp_mint_reference == ledger.lp_mint_reference
            &&& next.pool_reference == ledger.pool_reference
            &&& next.partner_identity == ledger.partner_identity
            &&& next.pool_creator_identity == ledger.pool_creator_identity
            &&& next.partner_amount == ledger.partner_amount
            &&& next.creator_amount == ledger.creator_amount
            &&& (ledger.partner_claimed ==> next.partner_claimed)
            &&& (ledger.creator_claimed ==> next.creator_claimed)
        }),
{
}

/// Zero-entitlement guard: a partner whose entitlement is zero is rejected
/// with nothing to claim, even at the correct checkpoint and with the correct
/// identity, and the ledger is left unchanged. (A partner flag can only have
/// become true through a claim of a positive entitlement, so an unclaimed flag
/// is the only state a zero-entitlement ledger reaches.)
pub proof fn law_zero_entitlement_rejected(
    ledger: MigrationClaimLedger,
    progress: MigrationProgress,
    caller: Identity,
)
    requires
        progress == MigrationProgress::CreatedPool,
        caller == ledger.partner_identity,
        ledger.partner_amount == 0,
        !ledger.partner_claimed,
    ensures
        gate_decision(ledger, progress, caller) == Err::<ClaimApproval, ClaimError>(
            ClaimError::NothingToClaim,
        ),
        ledger_after(ledger, progress, caller) == ledger,
{
}

/// Atomicity under transfer failure: when the transfer collaborator reports
/// failure, the whole invocation fails and the ledger ends exactly where it
/// started — in particular the resolved role's claimed flag is still false.
pub proof fn law_transfer_failure_rolls_back(
    ledger: MigrationClaimLedger,
    progress: MigrationProgress,
    caller: Identity,
)
    ensures
        ledger_after_invocation(ledger, progress, caller, false) == ledger,
        gate_decision(ledger, progress, caller) is Ok ==> invocation_result(
            ledger,
            progress,
            caller,
            false,
        ) == Err::<ClaimApproval, ClaimError>(ClaimError::TransferFailed),
{
}

} // verus!
