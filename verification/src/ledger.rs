//! The per-pool claim ledger and the migration progress marker it is gated on.

use vstd::prelude::*;

verus! {

/// An opaque participant identity, only ever compared for equality; nothing
/// else about it matters here.
#[derive(Clone, Copy, Debug, PartialEq, Eq, Structural)]
pub struct Identity {
    pub key: u64,
}

/// Stage of the outer migration pipeline for one pool. The pipeline itself is
/// an external collaborator: this crate reads the marker and never writes it.
/// A claim is permitted only at `CreatedPool`, the stage at which the
/// destination pool exists and the liquidity-position balance is claimable.
#[derive(Clone, Copy, Debug, PartialEq, Eq, Structural)]
pub enum MigrationProgress {
    Initialized,
    LockedVesting,
    CreatedPool,
    Completed,
}

/// Persistent record of one pool migration's two beneficiaries, their fixed
/// entitlements, and whether each role has already claimed.
///
/// The identities and amounts are written once, by the upstream migration step
/// that creates the ledger; this crate only ever flips the two claim flags,
/// each of them false-to-true at most once.
#[derive(Clone, Copy, Debug, PartialEq, Eq, Structural)]
pub struct MigrationClaimLedger {
    /// Identity of the liquidity-position asset this ledger governs.
    pub lp_mint_reference: Identity,
    /// Identity of the pool this ledger is bound to.
    pub pool_reference: Identity,
    /// The beneficiary entitled to `partner_amount`.
    pub partner_identity: Identity,
    /// The beneficiary entitled to `creator_amount`.
    pub pool_creator_identity: Identity,
    /// The partner's fixed entitlement.
    pub partner_amount: u64,
    /// The pool creator's fixed entitlement.
    pub creator_amount: u64,
    /// Whether the partner has successfully claimed.
    pub partner_claimed: bool,
    /// Whether the pool creator has successfully claimed.
    pub creator_claimed: bool,
}

impl MigrationClaimLedger {
    /// A freshly populated ledger, as the upstream migration step records it:
    /// identities and entitlements fixed, both claim flags still false.
    pub fn new(
        lp_mint_reference: Identity,
        pool_reference: Identity,
        partner_identity: Identity,
        pool_creator_identity: Identity,
        partner_amount: u64,
        creator_amount: u64,
    ) -> (ledger: MigrationClaimLedger)
        ensures
            ledger.lp_mint_reference == lp_mint_reference,
            ledger.pool_reference == pool_reference,
            ledger.partner_identity == partner_identity,
            ledger.pool_creator_identity == pool_creator_identity,
            ledger.partner_amount == partner_amount,
            ledger.creator_amount == creator_amount,
            !ledger.partner_claimed,
            !ledger.creator_claimed,
    {
        MigrationClaimLedger {
            lp_mint_reference,
            pool_reference,
            partner_identity,
            pool_creator_identity,
            partner_amount,
            creator_amount,
            partner_claimed: false,
            creator_claimed: false,
        }
    }
}

} // verus!
