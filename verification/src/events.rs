//! Events and runtime actions.
//!
//! The engine does not move balances itself: a successful operation returns
//! the exact list of `Action`s the surrounding runtime must perform — all of
//! them, atomically — and the `Event`s it must append to its log, in order.

use vstd::prelude::*;

use crate::address::Address;

verus! {

/// A balance movement or account creation the runtime must perform on
/// behalf of a committed operation. Transfers out of a vault are signed by
/// the vault authority of the token; derivative mints and burns by the
/// derivative-mint authority.
#[derive(Clone, Copy, PartialEq, Eq, Structural, Debug)]
pub enum Action {
    /// Create the derivative's fungible asset, decimals mirroring the
    /// original, mint and freeze authority the derived derivative-mint
    /// authority.
    CreateDerivativeMint { derivative: Address, decimals: u8 },
    /// Create the derivative's descriptive-metadata record, signed by the
    /// derived authority; its name, symbol and URI travel in the
    /// accompanying issuance payload.
    CreateDerivativeMetadata { derivative: Address, metadata_address: Address },
    /// Move `amount` units of `token` from the caller into the token's
    /// vault.
    TransferToVault { token: Address, from: Address, amount: u64 },
    /// Move `amount` units of `token` out of the token's vault.
    TransferFromVault { token: Address, to: Address, amount: u64 },
    /// Mint `amount` derivative units to the caller.
    MintDerivative { derivative: Address, to: Address, amount: u64 },
    /// Burn `amount` derivative units held by the caller.
    BurnDerivative { derivative: Address, from: Address, amount: u64 },
}

#[derive(Clone, Copy, PartialEq, Eq, Structural, Debug)]
pub struct DeveloperFeeShareDistributed {
    pub developer_wallet: Address,
    pub token: Address,
    pub amount: u64,
    pub timestamp: i64,
}

#[derive(Clone, Copy, PartialEq, Eq, Structural, Debug)]
pub struct FounderFeeShareDistributed {
    pub founder_wallet: Address,
    pub token: Address,
    pub amount: u64,
    pub timestamp: i64,
}

#[derive(Clone, Copy, PartialEq, Eq, Structural, Debug)]
pub struct TokenWhitelisted {
    pub token: Address,
    pub timestamp: i64,
}

#[derive(Clone, Copy, PartialEq, Eq, Structural, Debug)]
pub struct AssetsLocked {
    pub account: Address,
    pub token: Address,
    pub amount: u64,
    pub timestamp: i64,
}

#[derive(Clone, Copy, PartialEq, Eq, Structural, Debug)]
pub struct AssetsUnlocked {
    pub account: Address,
    pub token: Address,
    pub amount: u64,
    pub timestamp: i64,
}

#[derive(Clone, Copy, PartialEq, Eq, Structural, Debug)]
pub struct DerivativeTokenMinted {
    pub token: Address,
    pub derivative: Address,
    pub timestamp: i64,
}

/// One entry of the append-only event log.
#[derive(Clone, Copy, PartialEq, Eq, Structural, Debug)]
pub enum Event {
    DeveloperFeeShareDistributed(DeveloperFeeShareDistributed),
    FounderFeeShareDistributed(FounderFeeShareDistributed),
    TokenWhitelisted(TokenWhitelisted),
    AssetsLocked(AssetsLocked),
    AssetsUnlocked(AssetsUnlocked),
    DerivativeTokenMinted(DerivativeTokenMinted),
}

} // verus!
