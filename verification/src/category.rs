//! Wallet tiers and the owner cap of each.

use vstd::prelude::*;

verus! {

/// Tier of the account that creates a wallet.
#[derive(Clone, Copy, Debug, PartialEq, Eq, Structural)]
pub enum UserCategory {
    Free,
    Pro,
}

/// The largest owner cap of any tier; no wallet has more owners than this.
pub const MAX_OWNERS: usize = 10;

/// Owner cap of a tier.
pub open spec fn max_owners(category: UserCategory) -> nat {
    match category {
        UserCategory::Free => 3,
        UserCategory::Pro => 10,
    }
}

/// Owner cap of a tier.
pub fn get_max_owners(category: &UserCategory) -> (cap: u8)
    ensures
        cap == max_owners(*category),
        cap <= MAX_OWNERS,
{
    match category {
        UserCategory::Free => 3,
        UserCategory::Pro => 10,
    }
}

} // verus!
