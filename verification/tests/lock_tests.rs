use twoside::address::Address;
use twoside::admin::initialize_program;
use twoside::authority::token_metadata_address;
use twoside::engine::{lock, LockRequest};
use twoside::errors::TwosideErrorCodes;
use twoside::events::{Action, Event};
use twoside::records::{AssetState, GlobalInfo, TokenInfo};

fn addr(n: u64) -> Address {
    Address { lo: n as u128, hi: 0 }
}

fn config() -> GlobalInfo {
    initialize_program(addr(1), addr(2)).unwrap()
}

fn record_with_derivative(mint: Address, derivative: Address) -> TokenInfo {
    TokenInfo {
        is_initialized: true,
        original_mint: mint,
        whitelisted: true,
        derivative_mint: derivative,
        vault_authority_bump: 254,
    }
}

fn fresh_record(mint: Address) -> TokenInfo {
    record_with_derivative(mint, addr(0))
}

fn request(mint: Address, derivative: Address, registry: Address, amount: u64) -> LockRequest {
    LockRequest {
        signer: addr(3),
        token_mint: mint,
        token_decimals: 6,
        derivative_mint: derivative,
        token_metadata_account: addr(100),
        token_metadata_owner: registry,
        derivative_metadata_account: addr(101),
        metadata_program: registry,
        amount,
        timestamp: 11,
    }
}

fn push_string(out: &mut Vec<u8>, s: &str) {
    out.extend_from_slice(&(s.len() as u32).to_le_bytes());
    out.extend_from_slice(s.as_bytes());
}

/// A metadata registry record in its serialized layout: key byte, update
/// authority, mint, name, symbol, URI, royalty, no creators, flags, no
/// edition nonce.
fn metadata_bytes(mint: &Address, name: &str, symbol: &str, uri: &str) -> Vec<u8> {
    let mut out = vec![4u8];
    out.extend_from_slice(&[9u8; 32]);
    out.extend_from_slice(&mint.to_bytes());
    push_string(&mut out, name);
    push_string(&mut out, symbol);
    push_string(&mut out, uri);
    out.extend_from_slice(&0u16.to_le_bytes());
    out.push(0);
    out.push(0);
    out.push(1);
    out.push(0);
    out
}

#[test]
fn lock_of_zero_fails_and_changes_nothing() {
    let mint = addr(7);
    let derivative = addr(8);
    let registry = addr(500);
    let st = AssetState {
        token_info: record_with_derivative(mint, derivative),
        vault_balance: 0,
        derivative_supply: 0,
    };
    let result = lock(&config(), &st, registry, &request(mint, derivative, registry, 0), &Vec::new());
    assert_eq!(result.err(), Some(TwosideErrorCodes::ZeroAmountValue));
}

#[test]
fn lock_requires_whitelisting() {
    let mint = addr(7);
    let derivative = addr(8);
    let registry = addr(500);
    let mut record = record_with_derivative(mint, derivative);
    record.whitelisted = false;
    let st = AssetState { token_info: record, vault_balance: 0, derivative_supply: 0 };
    let result =
        lock(&config(), &st, registry, &request(mint, derivative, registry, 1000), &Vec::new());
    assert_eq!(result.err(), Some(TwosideErrorCodes::NotWhitelisted));
}

#[test]
fn lock_thousand_charges_five_and_mints_the_rest() {
    let mint = addr(7);
    let derivative = addr(8);
    let registry = addr(500);
    let global_info = config();
    let st = AssetState {
        token_info: record_with_derivative(mint, derivative),
        vault_balance: 0,
        derivative_supply: 0,
    };
    let req = request(mint, derivative, registry, 1000);
    let out = lock(&global_info, &st, registry, &req, &Vec::new()).unwrap();
    assert_eq!(out.fee, 5);
    assert_eq!(out.deducted, 995);
    assert!(out.issuance.is_none());
    // 1000 came in; 2 went to each wallet; the odd remainder of the fee
    // stays escrowed.
    assert_eq!(out.state.vault_balance, 996);
    assert_eq!(out.state.derivative_supply, 995);
    assert_eq!(out.state.token_info, st.token_info);
    assert_eq!(
        out.actions,
        vec![
            Action::TransferToVault { token: mint, from: req.signer, amount: 1000 },
            Action::TransferFromVault { token: mint, to: global_info.developer_wallet, amount: 2 },
            Action::TransferFromVault { token: mint, to: global_info.founder_wallet, amount: 2 },
            Action::MintDerivative { derivative, to: req.signer, amount: 995 },
        ]
    );
    assert_eq!(out.events.len(), 3);
    match out.events[2] {
        Event::AssetsLocked(e) => {
            assert_eq!(e.account, req.signer);
            assert_eq!(e.token, mint);
            assert_eq!(e.amount, 1000);
            assert_eq!(e.timestamp, 11);
        },
        _ => panic!("last event of a lock must be AssetsLocked"),
    }
}

#[test]
fn lock_with_foreign_derivative_identity_fails() {
    let mint = addr(7);
    let derivative = addr(8);
    let registry = addr(500);
    let st = AssetState {
        token_info: record_with_derivative(mint, derivative),
        vault_balance: 0,
        derivative_supply: 0,
    };
    let result =
        lock(&config(), &st, registry, &request(mint, addr(9), registry, 1000), &Vec::new());
    assert_eq!(result.err(), Some(TwosideErrorCodes::InvalidDerivativeAddress));
}

#[test]
fn first_lock_creates_the_derivative() {
    let mint = addr(7);
    let derivative = addr(8);
    let registry = addr(500);
    let global_info = config();
    let st = AssetState { token_info: fresh_record(mint), vault_balance: 0, derivative_supply: 0 };
    let (token_meta, _) = token_metadata_address(&mint, &registry).unwrap();
    let (derivative_meta, _) = token_metadata_address(&derivative, &registry).unwrap();
    let mut req = request(mint, derivative, registry, 1000);
    req.token_metadata_account = token_meta;
    req.derivative_metadata_account = derivative_meta;
    let data = metadata_bytes(&mint, "MyToken  ", "MTK", "https://example.com/t.json");

    let out = lock(&global_info, &st, registry, &req, &data).unwrap();
    assert_eq!(out.fee, 5);
    assert_eq!(out.deducted, 995);
    assert_eq!(out.state.token_info.derivative_mint, derivative);
    assert_eq!(out.state.vault_balance, 996);
    assert_eq!(out.state.derivative_supply, 995);

    let issuance = out.issuance.unwrap();
    assert_eq!(issuance.name, b"Liquid MyToken".to_vec());
    assert_eq!(issuance.symbol, b"liMTK".to_vec());
    assert_eq!(issuance.uri, b"https://example.com/t.json".to_vec());
    assert_eq!(issuance.metadata_address, derivative_meta);
    assert_eq!(issuance.decimals, 6);

    assert_eq!(out.actions.len(), 6);
    assert_eq!(
        out.actions[0],
        Action::CreateDerivativeMint { derivative, decimals: 6 }
    );
    assert_eq!(
        out.actions[1],
        Action::CreateDerivativeMetadata { derivative, metadata_address: derivative_meta }
    );
    assert_eq!(out.events.len(), 4);
    match out.events[0] {
        Event::DerivativeTokenMinted(e) => {
            assert_eq!(e.token, mint);
            assert_eq!(e.derivative, derivative);
        },
        _ => panic!("issuance must log DerivativeTokenMinted first"),
    }
}

#[test]
fn issuance_rejects_a_wrong_registry_program() {
    let mint = addr(7);
    let registry = addr(500);
    let st = AssetState { token_info: fresh_record(mint), vault_balance: 0, derivative_supply: 0 };
    let mut req = request(mint, addr(8), registry, 1000);
    req.metadata_program = addr(501);
    let data = metadata_bytes(&mint, "MyToken", "MTK", "u");
    let result = lock(&config(), &st, registry, &req, &data);
    assert_eq!(result.err(), Some(TwosideErrorCodes::InvalidMetaplexProgram));
}

#[test]
fn issuance_rejects_a_foreign_metadata_owner() {
    let mint = addr(7);
    let registry = addr(500);
    let st = AssetState { token_info: fresh_record(mint), vault_balance: 0, derivative_supply: 0 };
    let mut req = request(mint, addr(8), registry, 1000);
    req.token_metadata_owner = addr(501);
    let data = metadata_bytes(&mint, "MyToken", "MTK", "u");
    let result = lock(&config(), &st, registry, &req, &data);
    assert_eq!(result.err(), Some(TwosideErrorCodes::UninitializedMetadata));
}

#[test]
fn issuance_rejects_malformed_metadata() {
    let mint = addr(7);
    let registry = addr(500);
    let st = AssetState { token_info: fresh_record(mint), vault_balance: 0, derivative_supply: 0 };
    let req = request(mint, addr(8), registry, 1000);
    let result = lock(&config(), &st, registry, &req, &vec![1, 2, 3]);
    assert_eq!(result.err(), Some(TwosideErrorCodes::UninitializedMetadata));
    let empty = lock(&config(), &st, registry, &req, &Vec::new());
    assert_eq!(empty.err(), Some(TwosideErrorCodes::UninitializedMetadata));
}

#[test]
fn issuance_rejects_metadata_of_another_asset() {
    let mint = addr(7);
    let registry = addr(500);
    let st = AssetState { token_info: fresh_record(mint), vault_balance: 0, derivative_supply: 0 };
    let req = request(mint, addr(8), registry, 1000);
    let data = metadata_bytes(&addr(9), "Other", "OTH", "u");
    let result = lock(&config(), &st, registry, &req, &data);
    assert_eq!(result.err(), Some(TwosideErrorCodes::MetadataMintMismatch));
}

#[test]
fn issuance_rejects_spoofed_metadata_addresses() {
    let mint = addr(7);
    let derivative = addr(8);
    let registry = addr(500);
    let st = AssetState { token_info: fresh_record(mint), vault_balance: 0, derivative_supply: 0 };
    let (token_meta, _) = token_metadata_address(&mint, &registry).unwrap();
    let data = metadata_bytes(&mint, "MyToken", "MTK", "u");

    // The token metadata address is not the derived one.
    let mut req = request(mint, derivative, registry, 1000);
    req.token_metadata_account = addr(999);
    let result = lock(&config(), &st, registry, &req, &data);
    assert_eq!(result.err(), Some(TwosideErrorCodes::InvalidTokenMetadataAddress));

    // The derivative metadata address is not the derived one.
    let mut req = request(mint, derivative, registry, 1000);
    req.token_metadata_account = token_meta;
    req.derivative_metadata_account = addr(999);
    let result = lock(&config(), &st, registry, &req, &data);
    assert_eq!(
        result.err(),
        Some(TwosideErrorCodes::InvalidDerivativeMetadataAddress)
    );
}

#[test]
fn lock_rejects_a_vault_balance_overflow() {
    let mint = addr(7);
    let derivative = addr(8);
    let registry = addr(500);
    let st = AssetState {
        token_info: record_with_derivative(mint, derivative),
        vault_balance: u64::MAX,
        derivative_supply: 0,
    };
    let result =
        lock(&config(), &st, registry, &request(mint, derivative, registry, 1000), &Vec::new());
    assert_eq!(result.err(), Some(TwosideErrorCodes::Overflow));
}

#[test]
fn lock_propagates_fee_errors() {
    let mint = addr(7);
    let derivative = addr(8);
    let registry = addr(500);
    let st = AssetState {
        token_info: record_with_derivative(mint, derivative),
        vault_balance: 0,
        derivative_supply: 0,
    };
    // Amount 2: the flat minimum fee equals the amount.
    let result =
        lock(&config(), &st, registry, &request(mint, derivative, registry, 2), &Vec::new());
    assert_eq!(result.err(), Some(TwosideErrorCodes::AmountInsufficientAfterFee));
}

#[test]
fn second_lock_skips_issuance_and_keeps_the_record() {
    let mint = addr(7);
    let derivative = addr(8);
    let registry = addr(500);
    let global_info = config();
    let st = AssetState { token_info: fresh_record(mint), vault_balance: 0, derivative_supply: 0 };
    let (token_meta, _) = token_metadata_address(&mint, &registry).unwrap();
    let (derivative_meta, _) = token_metadata_address(&derivative, &registry).unwrap();
    let mut req = request(mint, derivative, registry, 1000);
    req.token_metadata_account = token_meta;
    req.derivative_metadata_account = derivative_meta;
    let data = metadata_bytes(&mint, "MyToken", "MTK", "u");

    let first = lock(&global_info, &st, registry, &req, &data).unwrap();
    assert!(first.issuance.is_some());

    // The second lock finds the derivative recorded: no issuance, record
    // unchanged, and garbage metadata input is not even consulted.
    let second = lock(&global_info, &first.state, registry, &req, &vec![255]).unwrap();
    assert!(second.issuance.is_none());
    assert_eq!(second.state.token_info, first.state.token_info);
    assert_eq!(second.actions.len(), 4);

    // A second lock naming another derivative is rejected.
    let mut foreign = req;
    foreign.derivative_mint = addr(9);
    let rejected = lock(&global_info, &first.state, registry, &foreign, &data);
    assert_eq!(rejected.err(), Some(TwosideErrorCodes::InvalidDerivativeAddress));
}
