//! Persisted protocol records and the per-asset accounting state.
//!
//! `GlobalInfo` is the protocol-wide configuration singleton, created once at
//! initialization and immutable afterwards. `TokenInfo` is the per-asset
//! whitelist and derivative-linkage record. `AuthorizedUpdaterInfo` grants one
//! identity the capability to whitelist assets. `AssetState` bundles the
//! record of one original asset with the balances the engine accounts for:
//! the vault's escrow balance and the outstanding supply of the derivative.

use vstd::prelude::*;

use crate::address::Address;

verus! {

/// Protocol-wide configuration, one per deployment.
#[derive(Clone, Copy, PartialEq, Eq, Structural, Debug)]
pub struct GlobalInfo {
    pub is_initialized: bool,
    pub developer_wallet: Address,
    pub founder_wallet: Address,
    pub fee_percentage: u8,
    pub fee_percentage_divider: u16,
    pub min_fee_for_distribution: u8,
    pub min_fee: u8,
    pub developer_fee_share: u8,
    pub founder_fee_share: u8,
}

impl GlobalInfo {
    /// A configuration the engine will operate on: created by
    /// `initialize_program`, with live wallets, a usable fee rate and a full
    /// fee split.
    pub open spec fn wf(self) -> bool {
        &&& self.is_initialized
        &&& !self.developer_wallet.spec_is_null()
        &&& !self.founder_wallet.spec_is_null()
        &&& self.fee_percentage_divider >= 1
        &&& self.developer_fee_share + self.founder_fee_share == 100
    }
}

/// Per-original-asset whitelist and derivative-linkage record, created by the
/// whitelist operation and never deleted. `derivative_mint` is the null
/// identity until the first successful lock creates the derivative; once set
/// it never changes.
#[derive(Clone, Copy, PartialEq, Eq, Structural, Debug)]
pub struct TokenInfo {
    pub is_initialized: bool,
    pub original_mint: Address,
    pub whitelisted: bool,
    pub derivative_mint: Address,
    pub vault_authority_bump: u8,
}

impl TokenInfo {
    pub open spec fn has_derivative(self) -> bool {
        !self.derivative_mint.spec_is_null()
    }
}

/// Grants `key` the capability to whitelist original assets, created by an
/// admin-gated operation.
#[derive(Clone, Copy, PartialEq, Eq, Structural, Debug)]
pub struct AuthorizedUpdaterInfo {
    pub is_initialized: bool,
    pub key: Address,
    pub active: bool,
}

/// The accounting state of one original asset: its record, the escrow balance
/// held by the asset's vault, and the outstanding supply of its derivative.
#[derive(Clone, Copy, PartialEq, Eq, Structural, Debug)]
pub struct AssetState {
    pub token_info: TokenInfo,
    pub vault_balance: u64,
    pub derivative_supply: u64,
}

impl AssetState {
    /// Solvency: every outstanding derivative unit is backed by an escrowed
    /// unit of the original asset. Holds of a freshly whitelisted asset
    /// (both balances zero) and is preserved by lock and unlock.
    pub open spec fn wf(self) -> bool {
        self.vault_balance >= self.derivative_supply
    }

    /// The state of an asset right after whitelisting: no escrow, no
    /// derivative supply.
    pub fn fresh(token_info: TokenInfo) -> (r: AssetState)
        ensures
            r == (AssetState { token_info, vault_balance: 0u64, derivative_supply: 0u64 }),
            r.wf(),
    {
        AssetState { token_info, vault_balance: 0, derivative_supply: 0 }
    }
}

} // verus!
