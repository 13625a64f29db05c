use twoside::address::Address;
use twoside::admin::{add_authorized_updater, initialize_program, whitelist};
use twoside::errors::TwosideErrorCodes;

fn addr(n: u64) -> Address {
    Address { lo: n as u128, hi: 0 }
}

#[test]
fn initialize_rejects_null_wallets() {
    let null = addr(0);
    let founder = addr(2);
    let developer = addr(1);
    assert_eq!(
        initialize_program(null, null),
        Err(TwosideErrorCodes::InvalidPubkey)
    );
    assert_eq!(
        initialize_program(null, founder),
        Err(TwosideErrorCodes::InvalidPubkey)
    );
    assert_eq!(
        initialize_program(developer, null),
        Err(TwosideErrorCodes::InvalidPubkey)
    );
}

#[test]
fn initialize_sets_default_parameters() {
    let developer = addr(1);
    let founder = addr(2);
    let config = initialize_program(developer, founder).unwrap();
    assert!(config.is_initialized);
    assert_eq!(config.developer_wallet, developer);
    assert_eq!(config.founder_wallet, founder);
    assert_eq!(config.fee_percentage, 5);
    assert_eq!(config.fee_percentage_divider, 1000);
    assert_eq!(config.min_fee_for_distribution, 2);
    assert_eq!(config.min_fee, 2);
    assert_eq!(config.developer_fee_share, 50);
    assert_eq!(config.founder_fee_share, 50);
}

#[test]
fn updater_grant_is_gated_to_founder_and_developer() {
    let developer = addr(1);
    let founder = addr(2);
    let updater = addr(3);
    let stranger = addr(4);
    let config = initialize_program(developer, founder).unwrap();

    let by_founder = add_authorized_updater(&config, founder, updater).unwrap();
    assert!(by_founder.is_initialized);
    assert!(by_founder.active);
    assert_eq!(by_founder.key, updater);

    assert!(add_authorized_updater(&config, developer, updater).is_ok());
    assert_eq!(
        add_authorized_updater(&config, stranger, updater),
        Err(TwosideErrorCodes::NotAuthorized)
    );
}

#[test]
fn whitelist_without_record_fails() {
    let asset = addr(7);
    assert_eq!(
        whitelist(None, addr(3), asset, 254),
        Err(TwosideErrorCodes::NotAuthorized)
    );
}

#[test]
fn whitelist_by_granted_updater_creates_record() {
    let developer = addr(1);
    let founder = addr(2);
    let updater = addr(3);
    let asset = addr(7);
    let config = initialize_program(developer, founder).unwrap();
    let grant = add_authorized_updater(&config, founder, updater).unwrap();

    let record = whitelist(Some(&grant), updater, asset, 254).unwrap();
    assert!(record.is_initialized);
    assert!(record.whitelisted);
    assert_eq!(record.original_mint, asset);
    assert!(record.derivative_mint.is_null());
    assert_eq!(record.vault_authority_bump, 254);
}

#[test]
fn whitelist_rejects_foreign_or_inactive_grants() {
    let developer = addr(1);
    let founder = addr(2);
    let updater = addr(3);
    let stranger = addr(4);
    let asset = addr(7);
    let config = initialize_program(developer, founder).unwrap();
    let grant = add_authorized_updater(&config, founder, updater).unwrap();

    // The grant names someone else.
    assert_eq!(
        whitelist(Some(&grant), stranger, asset, 254),
        Err(TwosideErrorCodes::NotAuthorized)
    );

    let mut inactive = grant;
    inactive.active = false;
    assert_eq!(
        whitelist(Some(&inactive), updater, asset, 254),
        Err(TwosideErrorCodes::NotAuthorized)
    );

    let mut uninitialized = grant;
    uninitialized.is_initialized = false;
    assert_eq!(
        whitelist(Some(&uninitialized), updater, asset, 254),
        Err(TwosideErrorCodes::NotAuthorized)
    );
}
