//! Supply cap guard: refuses emission once the issued supply has reached the
//! cap and, where the deployment asks for it, has the minting authority
//! revoked the first time the cap is seen.
//!
//! The cap is tested before anything is computed and the amount of a call is
//! not clamped to the remaining headroom: the last accepted call may carry
//! the supply above the cap.

use vstd::prelude::*;

verus! {

/// Verdict of the guard.
#[derive(Clone, Copy, Debug, PartialEq, Eq, Structural)]
pub enum SupplyGuard {
    /// Emission may proceed.
    Open,
    /// Emission is refused. `revoke` tells whether the minting authority is
    /// to be revoked now, which is the case the first time the cap is seen
    /// by a deployment that revokes at the cap.
    Capped { revoke: bool },
}

/// The verdict for a ledger that reports `issued_supply` and whether the
/// minting authority has already been revoked.
///
/// A deployment that revokes at the cap stays capped once the authority is
/// gone, whatever the supply; one that does not looks at the supply alone.
pub open spec fn supply_guard(
    issued_supply: u64,
    max_total_supply: u64,
    revoke_at_cap: bool,
    minting_revoked: bool,
) -> SupplyGuard {
    if revoke_at_cap && minting_revoked {
        SupplyGuard::Capped { revoke: false }
    } else if issued_supply >= max_total_supply {
        SupplyGuard::Capped { revoke: revoke_at_cap }
    } else {
        SupplyGuard::Open
    }
}

/// Tests the issued supply against the cap.
pub fn check_supply_cap(
    issued_supply: u64,
    max_total_supply: u64,
    revoke_at_cap: bool,
    minting_revoked: bool,
) -> (guard: SupplyGuard)
    ensures
        guard == supply_guard(issued_supply, max_total_supply, revoke_at_cap, minting_revoked),
        guard == SupplyGuard::Open <==> issued_supply < max_total_supply && !(revoke_at_cap
            && minting_revoked),
{
    if revoke_at_cap && minting_revoked {
        SupplyGuard::Capped { revoke: false }
    } else if issued_supply >= max_total_supply {
        SupplyGuard::Capped { revoke: revoke_at_cap }
    } else {
        SupplyGuard::Open
    }
}

} // verus!
