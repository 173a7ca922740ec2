//! Vault balance records as the source chain reports them.

use vstd::prelude::*;

verus! {

/// One vault's balances for the duration of a single cycle: the vault
/// owner's address, the amount held in the vault, the amount available
/// for spending, and whether the owner is verified.
#[derive(Debug, Clone)]
pub struct VaultBalance {
    pub child_address: String,
    pub vault_amount: u128,
    pub spending_amount: u128,
    pub is_verified: bool,
}

/// The demo balance source: a single fixed vault holding one ether in
/// wei, half of it spendable, with an unverified owner.
pub fn mock_vault_balances() -> (r: Vec<VaultBalance>)
    ensures
        r@.len() == 1,
        r@[0].child_address@ == "0x1234567890abcdef1234567890abcdef12345678"@,
        r@[0].vault_amount == 1000000000000000000u128,
        r@[0].spending_amount == 500000000000000000u128,
        r@[0].is_verified == false,
{
    let mut r: Vec<VaultBalance> = Vec::new();
    r.push(
        VaultBalance {
            child_address: "0x1234567890abcdef1234567890abcdef12345678".to_owned(),
            vault_amount: 1000000000000000000,
            spending_amount: 500000000000000000,
            is_verified: false,
        },
    );
    r
}

} // verus!
