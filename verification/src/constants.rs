//! Fixed parameters of the factory: the percent base of the allocation
//! arithmetic, the deposit gate on registration, and the funding and gas
//! attached to the dispatched external calls.

use vstd::prelude::*;

verus! {

/// Allocation percentages carry two implied decimal digits: 10000 means 100.00%.
pub const MAX_SUPPLY_PERCENT: u64 = 10000;

/// Minimum value that must accompany a registration: enough to fund the two
/// downstream program deployments (4 * 10^24 yocto units).
pub const MIN_REGISTER_DEPOSIT: u128 = 4_000_000_000_000_000_000_000_000;

/// Value transferred to a freshly created program account by a saga step.
pub const CONTRACT_FUNDING: u128 = 4_000_000_000_000_000_000_000_000;

/// Value transferred by the stand-alone fungible-token deployment helper.
pub const DEPLOY_FT_FUNDING: u128 = 3_000_000_000_000_000_000_000_000;

/// Compute budget attached to every dispatched external call.
pub const DEFAULT_GAS_FEE: u64 = 20_000_000_000_000;

/// The account that must hold a strictly positive allocation in every
/// registered set.
pub open spec fn treasury_id() -> Seq<char> {
    "treasury.tokenhub.testnet"@
}

/// The treasury account as an owned string.
pub fn treasury_account() -> (r: String)
    ensures
        r@ == treasury_id(),
{
    "treasury.tokenhub.testnet".to_owned()
}

} // verus!
