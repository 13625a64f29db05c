//! The admin and whitelist gate.
//!
//! `initialize_program` creates the configuration singleton once per
//! deployment; the surrounding runtime guarantees the single creation, and
//! the record is immutable afterwards. `add_authorized_updater` lets the
//! founder or the developer grant an identity the capability to whitelist
//! assets, and `whitelist` lets such an identity onboard one original asset.

use vstd::prelude::*;

use crate::address::Address;
use crate::errors::TwosideErrorCodes;
use crate::records::{AuthorizedUpdaterInfo, GlobalInfo, TokenInfo};

verus! {

/// The configuration written at initialization: the two wallets and the
/// default fee parameters.
pub open spec fn initial_config(developer_wallet: Address, founder_wallet: Address) -> GlobalInfo {
    GlobalInfo {
        is_initialized: true,
        developer_wallet,
        founder_wallet,
        fee_percentage: 5,
        fee_percentage_divider: 1000,
        min_fee_for_distribution: 2,
        min_fee: 2,
        developer_fee_share: 50,
        founder_fee_share: 50,
    }
}

/// Create the protocol configuration. Fails with `InvalidPubkey` if and only
/// if either wallet is the null identity; otherwise returns the initialized
/// configuration with the default fee parameters.
pub fn initialize_program(developer_wallet: Address, founder_wallet: Address) -> (r: Result<
    GlobalInfo,
    TwosideErrorCodes,
>)
    ensures
        developer_wallet.spec_is_null() || founder_wallet.spec_is_null() ==> r == Err::<
            GlobalInfo,
            TwosideErrorCodes,
        >(TwosideErrorCodes::InvalidPubkey),
        !developer_wallet.spec_is_null() && !founder_wallet.spec_is_null() ==> r == Ok::<
            GlobalInfo,
            TwosideErrorCodes,
        >(initial_config(developer_wallet, founder_wallet)),
        r matches Ok(config) ==> config.wf(),
{
    if developer_wallet.is_null() {
        return Err(TwosideErrorCodes::InvalidPubkey);
    }
    if founder_wallet.is_null() {
        return Err(TwosideErrorCodes::InvalidPubkey);
    }
    Ok(GlobalInfo {
        is_initialized: true,
        developer_wallet,
        founder_wallet,
        fee_percentage: 5,
        fee_percentage_divider: 1000,
        min_fee_for_distribution: 2,
        min_fee: 2,
        developer_fee_share: 50,
        founder_fee_share: 50,
    })
}

/// Grant `updater` the capability to whitelist assets. Only the founder or
/// the developer wallet from the configuration may do so; any other signer
/// is rejected with `NotAuthorized`, and nothing is created.
pub fn add_authorized_updater(global_info: &GlobalInfo, signer: Address, updater: Address) -> (r:
    Result<AuthorizedUpdaterInfo, TwosideErrorCodes>)
    requires
        global_info.is_initialized,
    ensures
        signer == global_info.founder_wallet || signer == global_info.developer_wallet ==> r
            == Ok::<AuthorizedUpdaterInfo, TwosideErrorCodes>(
            AuthorizedUpdaterInfo { is_initialized: true, key: updater, active: true },
        ),
        signer != global_info.founder_wallet && signer != global_info.developer_wallet ==> r
            == Err::<AuthorizedUpdaterInfo, TwosideErrorCodes>(TwosideErrorCodes::NotAuthorized),
{
    if signer == global_info.founder_wallet || signer == global_info.developer_wallet {
        Ok(AuthorizedUpdaterInfo { is_initialized: true, key: updater, active: true })
    } else {
        Err(TwosideErrorCodes::NotAuthorized)
    }
}

/// Whether `record` authorizes `signer` to whitelist assets: the record
/// exists, is active, and was granted to the signer itself.
pub open spec fn authorizes(record: Option<AuthorizedUpdaterInfo>, signer: Address) -> bool {
    record matches Some(updater) && updater.is_initialized && updater.active && updater.key
        == signer
}

/// The record created by a successful whitelist call: whitelisted, with no
/// derivative yet, remembering the vault-authority disambiguation value.
pub open spec fn whitelisted_record(token_mint: Address, vault_authority_bump: u8) -> TokenInfo {
    TokenInfo {
        is_initialized: true,
        original_mint: token_mint,
        whitelisted: true,
        derivative_mint: Address::null(),
        vault_authority_bump,
    }
}

/// Onboard one original asset. The signer must hold an active updater
/// record granted to its own identity — `NotAuthorized` otherwise, and
/// nothing is created. `vault_authority_bump` is the disambiguation value of
/// the asset's vault authority, recorded for later signing.
pub fn whitelist(
    authorized_updater_info: Option<&AuthorizedUpdaterInfo>,
    signer: Address,
    token_mint: Address,
    vault_authority_bump: u8,
) -> (r: Result<TokenInfo, TwosideErrorCodes>)
    ensures
        authorizes(
            match authorized_updater_info {
                Some(updater) => Some(*updater),
                None => None,
            },
            signer,
        ) ==> r == Ok::<TokenInfo, TwosideErrorCodes>(
            whitelisted_record(token_mint, vault_authority_bump),
        ),
        !authorizes(
            match authorized_updater_info {
                Some(updater) => Some(*updater),
                None => None,
            },
            signer,
        ) ==> r == Err::<TokenInfo, TwosideErrorCodes>(TwosideErrorCodes::NotAuthorized),
{
    match authorized_updater_info {
        Some(updater) => {
            if updater.is_initialized && updater.active && updater.key == signer {
                Ok(TokenInfo {
                    is_initialized: true,
                    original_mint: token_mint,
                    whitelisted: true,
                    derivative_mint: Address { lo: 0, hi: 0 },
                    vault_authority_bump,
                })
            } else {
                Err(TwosideErrorCodes::NotAuthorized)
            }
        },
        None => Err(TwosideErrorCodes::NotAuthorized),
    }
}

} // verus!
