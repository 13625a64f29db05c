use twoside::address::Address;
use twoside::admin::initialize_program;
use twoside::engine::{distribute_fee, lock, unlock, LockRequest, UnlockRequest};
use twoside::errors::TwosideErrorCodes;
use twoside::events::{Action, Event};
use twoside::records::{AssetState, GlobalInfo, TokenInfo};

fn addr(n: u64) -> Address {
    Address { lo: n as u128, hi: 0 }
}

fn config() -> GlobalInfo {
    initialize_program(addr(1), addr(2)).unwrap()
}

fn record_with_derivative(mint: Address, derivative: Address) -> TokenInfo {
    TokenInfo {
        is_initialized: true,
        original_mint: mint,
        whitelisted: true,
        derivative_mint: derivative,
        vault_authority_bump: 254,
    }
}

fn unlock_request(mint: Address, derivative: Address, amount: u64) -> UnlockRequest {
    UnlockRequest { signer: addr(3), token_mint: mint, derivative_mint: derivative, amount, timestamp: 12 }
}

#[test]
fn unlock_of_zero_fails() {
    let mint = addr(7);
    let derivative = addr(8);
    let st = AssetState {
        token_info: record_with_derivative(mint, derivative),
        vault_balance: 996,
        derivative_supply: 995,
    };
    let result = unlock(&config(), &st, &unlock_request(mint, derivative, 0));
    assert_eq!(result.err(), Some(TwosideErrorCodes::ZeroAmountValue));
}

#[test]
fn unlock_before_any_lock_fails() {
    let mint = addr(7);
    let st = AssetState {
        token_info: record_with_derivative(mint, addr(0)),
        vault_balance: 0,
        derivative_supply: 0,
    };
    let result = unlock(&config(), &st, &unlock_request(mint, addr(8), 100));
    assert_eq!(result.err(), Some(TwosideErrorCodes::NoDerivativeDeployed));
}

#[test]
fn unlock_requires_whitelisting() {
    let mint = addr(7);
    let derivative = addr(8);
    let mut record = record_with_derivative(mint, derivative);
    record.whitelisted = false;
    let st = AssetState { token_info: record, vault_balance: 996, derivative_supply: 995 };
    let result = unlock(&config(), &st, &unlock_request(mint, derivative, 100));
    assert_eq!(result.err(), Some(TwosideErrorCodes::NotWhitelisted));
}

#[test]
fn unlock_with_foreign_derivative_identity_fails() {
    let mint = addr(7);
    let derivative = addr(8);
    let st = AssetState {
        token_info: record_with_derivative(mint, derivative),
        vault_balance: 996,
        derivative_supply: 995,
    };
    let result = unlock(&config(), &st, &unlock_request(mint, addr(9), 100));
    assert_eq!(result.err(), Some(TwosideErrorCodes::InvalidDerivativeAddress));
}

#[test]
fn unlock_beyond_supply_fails() {
    let mint = addr(7);
    let derivative = addr(8);
    let st = AssetState {
        token_info: record_with_derivative(mint, derivative),
        vault_balance: 996,
        derivative_supply: 995,
    };
    let result = unlock(&config(), &st, &unlock_request(mint, derivative, 996));
    assert_eq!(result.err(), Some(TwosideErrorCodes::Overflow));
}

#[test]
fn unlock_burns_fully_and_returns_the_fee_adjusted_rest() {
    let mint = addr(7);
    let derivative = addr(8);
    let global_info = config();
    let st = AssetState {
        token_info: record_with_derivative(mint, derivative),
        vault_balance: 996,
        derivative_supply: 995,
    };
    let req = unlock_request(mint, derivative, 995);
    let out = unlock(&global_info, &st, &req).unwrap();
    // Fee on 995: (995 * 5 + 500) / 1000 = 5.
    assert_eq!(out.fee, 5);
    assert_eq!(out.deducted, 990);
    assert_eq!(out.state.derivative_supply, 0);
    // 990 left for the caller, 2 for each wallet; the odd remainder stays.
    assert_eq!(out.state.vault_balance, 2);
    assert_eq!(
        out.actions,
        vec![
            Action::TransferFromVault { token: mint, to: global_info.developer_wallet, amount: 2 },
            Action::TransferFromVault { token: mint, to: global_info.founder_wallet, amount: 2 },
            Action::BurnDerivative { derivative, from: req.signer, amount: 995 },
            Action::TransferFromVault { token: mint, to: req.signer, amount: 990 },
        ]
    );
    assert_eq!(out.events.len(), 3);
    match out.events[2] {
        Event::AssetsUnlocked(e) => {
            assert_eq!(e.account, req.signer);
            assert_eq!(e.amount, 995);
        },
        _ => panic!("last event of an unlock must be AssetsUnlocked"),
    }
}

#[test]
fn round_trip_pays_the_fee_twice() {
    let mint = addr(7);
    let derivative = addr(8);
    let registry = addr(500);
    let global_info = config();
    let st = AssetState {
        token_info: record_with_derivative(mint, derivative),
        vault_balance: 0,
        derivative_supply: 0,
    };
    let lock_request = LockRequest {
        signer: addr(3),
        token_mint: mint,
        token_decimals: 6,
        derivative_mint: derivative,
        token_metadata_account: addr(100),
        token_metadata_owner: registry,
        derivative_metadata_account: addr(101),
        metadata_program: registry,
        amount: 1000,
        timestamp: 11,
    };
    let locked = lock(&global_info, &st, registry, &lock_request, &Vec::new()).unwrap();
    let redeemed = unlock(
        &global_info,
        &locked.state,
        &unlock_request(mint, derivative, locked.deducted),
    )
    .unwrap();
    // The mint and the burn cancel, but the caller got back strictly less
    // than was deposited: both legs charged a fee.
    assert_eq!(redeemed.state.derivative_supply, 0);
    assert_eq!(redeemed.deducted, 1000 - locked.fee - redeemed.fee);
    assert!(redeemed.deducted < 1000);
    assert_eq!(redeemed.deducted, 990);
    // The vault keeps what the two distributions did not pay out.
    assert_eq!(redeemed.state.vault_balance, 2);
}

#[test]
fn fee_distribution_lists_both_transfers() {
    let global_info = config();
    let token = addr(7);
    let dist = distribute_fee(token, 5, 42, &global_info);
    assert_eq!(dist.developer_share, 2);
    assert_eq!(dist.founder_share, 2);
    assert_eq!(
        dist.actions,
        vec![
            Action::TransferFromVault { token, to: global_info.developer_wallet, amount: 2 },
            Action::TransferFromVault { token, to: global_info.founder_wallet, amount: 2 },
        ]
    );
    match (&dist.events[0], &dist.events[1]) {
        (Event::DeveloperFeeShareDistributed(d), Event::FounderFeeShareDistributed(f)) => {
            assert_eq!(d.amount, 2);
            assert_eq!(d.developer_wallet, global_info.developer_wallet);
            assert_eq!(f.amount, 2);
            assert_eq!(f.founder_wallet, global_info.founder_wallet);
            assert_eq!(d.timestamp, 42);
        },
        _ => panic!("distribution must log the two share events in order"),
    }
}

#[test]
fn vault_stays_solvent_over_a_history_of_calls() {
    let mint = addr(7);
    let derivative = addr(8);
    let registry = addr(500);
    let global_info = config();
    let mut st = AssetState {
        token_info: record_with_derivative(mint, derivative),
        vault_balance: 0,
        derivative_supply: 0,
    };
    let lock_amounts = [1000u64, 57, 3, 400_000, 2, 88];
    let unlock_amounts = [995u64, 54, 7, 250_000, 1, 120_000];
    for step in 0..lock_amounts.len() {
        let lock_request = LockRequest {
            signer: addr(3),
            token_mint: mint,
            token_decimals: 6,
            derivative_mint: derivative,
            token_metadata_account: addr(100),
            token_metadata_owner: registry,
            derivative_metadata_account: addr(101),
            metadata_program: registry,
            amount: lock_amounts[step],
            timestamp: step as i64,
        };
        if let Ok(out) = lock(&global_info, &st, registry, &lock_request, &Vec::new()) {
            st = out.state;
        }
        assert!(st.vault_balance >= st.derivative_supply);
        if let Ok(out) = unlock(
            &global_info,
            &st,
            &unlock_request(mint, derivative, unlock_amounts[step]),
        ) {
            st = out.state;
        }
        assert!(st.vault_balance >= st.derivative_supply);
    }
}
