//! The lock/unlock orchestrator.
//!
//! Each operation is one atomic transaction: it validates, consults the
//! records, computes the fee, and returns the successor state together with
//! the exact actions the runtime must perform and the events it must log.
//! Any error leaves every record and balance untouched.
//!
//! `spec_lock` and `spec_unlock` are the transition functions the executable
//! orchestrator is proved against; the laws about solvency, idempotent
//! issuance and round trips are stated over them.

use vstd::prelude::*;

use crate::address::Address;
use crate::authority::{metadata_seeds, pda_of, token_metadata_address};
use crate::errors::TwosideErrorCodes;
use crate::events::{
    Action, AssetsLocked, AssetsUnlocked, DerivativeTokenMinted, DeveloperFeeShareDistributed,
    Event, FounderFeeShareDistributed,
};
use crate::fees::{calculate_fee, fee_shares, spec_calculate_fee, FeeSplitPolicy};
use crate::metadata::{
    build_derivative_name, build_derivative_symbol, derivative_name_of, derivative_symbol_of,
    metadata_of, parse_metadata,
};
use crate::records::{AssetState, GlobalInfo, TokenInfo};

verus! {

/// The caller-supplied accounts and arguments of one lock call. The
/// metadata fields matter only when the call has to create the derivative;
/// afterwards they are ignored.
#[derive(Clone, Copy, PartialEq, Eq, Structural, Debug)]
pub struct LockRequest {
    /// The depositing caller; pays in the original asset, receives the
    /// derivative.
    pub signer: Address,
    /// The original asset being locked.
    pub token_mint: Address,
    /// The original asset's decimals, mirrored onto a new derivative.
    pub token_decimals: u8,
    /// The derivative mint the caller claims belongs to this asset.
    pub derivative_mint: Address,
    /// Where the caller claims the original's metadata record lives.
    pub token_metadata_account: Address,
    /// The program that owns the original's metadata record.
    pub token_metadata_owner: Address,
    /// Where the caller claims the derivative's metadata record will live.
    pub derivative_metadata_account: Address,
    /// The program the caller presented as the metadata registry.
    pub metadata_program: Address,
    /// Units of the original asset to lock.
    pub amount: u64,
    /// The clock reading stamped onto the emitted events.
    pub timestamp: i64,
}

/// The caller-supplied accounts and arguments of one unlock call.
#[derive(Clone, Copy, PartialEq, Eq, Structural, Debug)]
pub struct UnlockRequest {
    /// The redeeming caller; burns derivative units, receives the original.
    pub signer: Address,
    /// The original asset being redeemed.
    pub token_mint: Address,
    /// The derivative mint the caller claims belongs to this asset.
    pub derivative_mint: Address,
    /// Units of the derivative asset to redeem.
    pub amount: u64,
    /// The clock reading stamped onto the emitted events.
    pub timestamp: i64,
}

/// The description of a derivative to be created: where its metadata record
/// goes and what it says.
#[derive(Clone, PartialEq, Eq, Debug)]
pub struct DerivativeIssuance {
    pub metadata_address: Address,
    pub name: Vec<u8>,
    pub symbol: Vec<u8>,
    pub uri: Vec<u8>,
    pub decimals: u8,
}

/// What a committed lock call changes and effects.
pub struct LockOutcome {
    /// The successor per-asset state.
    pub state: AssetState,
    /// The fee charged on the deposited amount.
    pub fee: u64,
    /// What was left to escrow: the amount minus the fee, minted to the
    /// caller as derivative units.
    pub deducted: u64,
    /// Set exactly when this call created the derivative.
    pub issuance: Option<DerivativeIssuance>,
    /// The balance movements the runtime must perform, in order.
    pub actions: Vec<Action>,
    /// The events the runtime must log, in order.
    pub events: Vec<Event>,
}

/// What a committed unlock call changes and effects.
pub struct UnlockOutcome {
    pub state: AssetState,
    /// The fee charged on the redeemed amount.
    pub fee: u64,
    /// What the caller receives: the amount minus the fee.
    pub deducted: u64,
    pub actions: Vec<Action>,
    pub events: Vec<Event>,
}

/// The fee split of one operation: the two shares and the transfers and
/// events that pay them out of the vault.
pub struct FeeDistribution {
    pub developer_share: u64,
    pub founder_share: u64,
    pub actions: Vec<Action>,
    pub events: Vec<Event>,
}

/// The issuance-time validation of the original asset's metadata and of the
/// caller-supplied addresses, in the order the errors are reported: the
/// presented registry program, the record's owner, the record itself, the
/// asset it references, and the two derived metadata addresses.
pub open spec fn spec_issuance_check(
    registry_id: Address,
    request: LockRequest,
    token_metadata_data: Seq<u8>,
) -> Result<(), TwosideErrorCodes> {
    if request.metadata_program != registry_id {
        Err(TwosideErrorCodes::InvalidMetaplexProgram)
    } else if request.token_metadata_owner != registry_id {
        Err(TwosideErrorCodes::UninitializedMetadata)
    } else {
        match metadata_of(token_metadata_data) {
            None => Err(TwosideErrorCodes::UninitializedMetadata),
            Some(meta) => if meta.0 != request.token_mint {
                Err(TwosideErrorCodes::MetadataMintMismatch)
            } else {
                match pda_of(metadata_seeds(registry_id, request.token_mint), registry_id) {
                    None => Err(TwosideErrorCodes::InvalidTokenMetadataAddress),
                    Some(expected_token_meta) => if request.token_metadata_account
                        != expected_token_meta.0 {
                        Err(TwosideErrorCodes::InvalidTokenMetadataAddress)
                    } else {
                        match pda_of(
                            metadata_seeds(registry_id, request.derivative_mint),
                            registry_id,
                        ) {
                            None => Err(TwosideErrorCodes::InvalidDerivativeMetadataAddress),
                            Some(expected_derivative_meta) => if request.derivative_metadata_account
                                != expected_derivative_meta.0 {
                                Err(TwosideErrorCodes::InvalidDerivativeMetadataAddress)
                            } else {
                                Ok(())
                            },
                        }
                    },
                }
            },
        }
    }
}

/// The settlement shared by every lock: charge the fee, move the amount
/// into the vault, pay the two half-fee shares out of it, and mint the
/// remainder. Rejected as `Overflow` when a balance would leave the
/// representable range.
pub open spec fn spec_lock_settle(
    global_info: GlobalInfo,
    record_after: TokenInfo,
    st: AssetState,
    amount: u64,
) -> Result<(AssetState, u64), TwosideErrorCodes> {
    match spec_calculate_fee(
        amount,
        global_info.fee_percentage as u64,
        global_info.fee_percentage_divider as u64,
        global_info.min_fee_for_distribution as u64,
        global_info.min_fee as u64,
    ) {
        Err(e) => Err(e),
        Ok(fee) => {
            let developer_share = (fee / 2) as u64;
            let founder_share = (fee / 2) as u64;
            if st.vault_balance + amount > u64::MAX {
                Err(TwosideErrorCodes::Overflow)
            } else if st.derivative_supply + (amount - fee) > u64::MAX {
                Err(TwosideErrorCodes::Overflow)
            } else {
                Ok(
                    (
                        AssetState {
                            token_info: record_after,
                            vault_balance: (st.vault_balance + amount - developer_share
                                - founder_share) as u64,
                            derivative_supply: (st.derivative_supply + (amount - fee)) as u64,
                        },
                        fee,
                    ),
                )
            }
        },
    }
}

/// The lock transition: what one lock call does to the asset's state, or
/// the error it fails with. A call that finds no derivative recorded must
/// pass the issuance checks and records the supplied derivative identity; a
/// call that finds one recorded must reference exactly that identity and
/// changes the record in no way.
pub open spec fn spec_lock(
    global_info: GlobalInfo,
    st: AssetState,
    registry_id: Address,
    request: LockRequest,
    token_metadata_data: Seq<u8>,
) -> Result<(AssetState, u64), TwosideErrorCodes> {
    if request.amount == 0 {
        Err(TwosideErrorCodes::ZeroAmountValue)
    } else if !st.token_info.whitelisted {
        Err(TwosideErrorCodes::NotWhitelisted)
    } else if !st.token_info.has_derivative() {
        match spec_issuance_check(registry_id, request, token_metadata_data) {
            Err(e) => Err(e),
            Ok(_) => spec_lock_settle(
                global_info,
                TokenInfo { derivative_mint: request.derivative_mint, ..st.token_info },
                st,
                request.amount,
            ),
        }
    } else if request.derivative_mint != st.token_info.derivative_mint {
        Err(TwosideErrorCodes::InvalidDerivativeAddress)
    } else {
        spec_lock_settle(global_info, st.token_info, st, request.amount)
    }
}

/// The unlock transition: what one unlock call does to the asset's state,
/// or the error it fails with. The full redeemed amount is burned; the
/// amount minus the fee leaves the vault for the caller, and the two
/// half-fee shares leave it for the wallets.
pub open spec fn spec_unlock(
    global_info: GlobalInfo,
    st: AssetState,
    request: UnlockRequest,
) -> Result<(AssetState, u64), TwosideErrorCodes> {
    if request.amount == 0 {
        Err(TwosideErrorCodes::ZeroAmountValue)
    } else if !st.token_info.whitelisted {
        Err(TwosideErrorCodes::NotWhitelisted)
    } else if !st.token_info.has_derivative() {
        Err(TwosideErrorCodes::NoDerivativeDeployed)
    } else if request.derivative_mint != st.token_info.derivative_mint {
        Err(TwosideErrorCodes::InvalidDerivativeAddress)
    } else {
        match spec_calculate_fee(
            request.amount,
            global_info.fee_percentage as u64,
            global_info.fee_percentage_divider as u64,
            global_info.min_fee_for_distribution as u64,
            global_info.min_fee as u64,
        ) {
            Err(e) => Err(e),
            Ok(fee) => {
                let deducted = (request.amount - fee) as u64;
                let developer_share = (fee / 2) as u64;
                let founder_share = (fee / 2) as u64;
                if request.amount > st.derivative_supply {
                    Err(TwosideErrorCodes::Overflow)
                } else if deducted + developer_share + founder_share > st.vault_balance {
                    Err(TwosideErrorCodes::Overflow)
                } else {
                    Ok(
                        (
                            AssetState {
                                token_info: st.token_info,
                                vault_balance: (st.vault_balance - deducted - developer_share
                                    - founder_share) as u64,
                                derivative_supply: (st.derivative_supply - request.amount) as u64,
                            },
                            fee,
                        ),
                    )
                }
            },
        }
    }
}

/// Split `fee` half and half between the developer and founder wallets and
/// lay out the two vault transfers and the two events that pay it. A
/// remainder of an odd fee stays in the vault: the shares together never
/// exceed the fee.
pub fn distribute_fee(token_mint: Address, fee: u64, timestamp: i64, global_info: &GlobalInfo) -> (r:
    FeeDistribution)
    ensures
        r.developer_share == fee / 2,
        r.founder_share == fee / 2,
        r.developer_share + r.founder_share <= fee,
        r.actions@ == seq![
            (Action::TransferFromVault {
                token: token_mint,
                to: global_info.developer_wallet,
                amount: (fee / 2) as u64,
            }),
            (Action::TransferFromVault {
                token: token_mint,
                to: global_info.founder_wallet,
                amount: (fee / 2) as u64,
            }),
        ],
        r.events@ == seq![
            (Event::DeveloperFeeShareDistributed(DeveloperFeeShareDistributed {
                developer_wallet: global_info.developer_wallet,
                token: token_mint,
                amount: (fee / 2) as u64,
                timestamp,
            })),
            (Event::FounderFeeShareDistributed(FounderFeeShareDistributed {
                founder_wallet: global_info.founder_wallet,
                token: token_mint,
                amount: (fee / 2) as u64,
                timestamp,
            })),
        ],
{
    let shares = fee_shares(
        FeeSplitPolicy::FixedHalf,
        fee,
        global_info.developer_fee_share as u64,
        global_info.founder_fee_share as u64,
    );
    let developer_share = shares.0;
    let founder_share = shares.1;
    let mut actions: Vec<Action> = Vec::new();
    actions.push(
        Action::TransferFromVault {
            token: token_mint,
            to: global_info.developer_wallet,
            amount: developer_share,
        },
    );
    actions.push(
        Action::TransferFromVault {
            token: token_mint,
            to: global_info.founder_wallet,
            amount: founder_share,
        },
    );
    let mut events: Vec<Event> = Vec::new();
    events.push(
        Event::DeveloperFeeShareDistributed(
            DeveloperFeeShareDistributed {
                developer_wallet: global_info.developer_wallet,
                token: token_mint,
                amount: developer_share,
                timestamp,
            },
        ),
    );
    events.push(
        Event::FounderFeeShareDistributed(
            FounderFeeShareDistributed {
                founder_wallet: global_info.founder_wallet,
                token: token_mint,
                amount: founder_share,
                timestamp,
            },
        ),
    );
    proof {
        assert(actions@ =~= seq![
            (Action::TransferFromVault {
                token: token_mint,
                to: global_info.developer_wallet,
                amount: (fee / 2) as u64,
            }),
            (Action::TransferFromVault {
                token: token_mint,
                to: global_info.founder_wallet,
                amount: (fee / 2) as u64,
            }),
        ]);
        assert(events@ =~= seq![
            (Event::DeveloperFeeShareDistributed(DeveloperFeeShareDistributed {
                developer_wallet: global_info.developer_wallet,
                token: token_mint,
                amount: (fee / 2) as u64,
                timestamp,
            })),
            (Event::FounderFeeShareDistributed(FounderFeeShareDistributed {
                founder_wallet: global_info.founder_wallet,
                token: token_mint,
                amount: (fee / 2) as u64,
                timestamp,
            })),
        ]);
    }
    FeeDistribution { developer_share, founder_share, actions, events }
}

/// Lock `request.amount` units of the original asset: validate, create the
/// derivative on first use, escrow the amount, pay the fee shares, and mint
/// the fee-adjusted remainder to the caller.
pub fn lock(
    global_info: &GlobalInfo,
    st: &AssetState,
    registry_id: Address,
    request: &LockRequest,
    token_metadata_data: &Vec<u8>,
) -> (r: Result<LockOutcome, TwosideErrorCodes>)
    requires
        global_info.is_initialized,
        global_info.fee_percentage_divider >= 1,
        st.token_info.original_mint == request.token_mint,
    ensures
        (match r {
            Ok(out) => {
                &&& spec_lock(*global_info, *st, registry_id, *request, token_metadata_data@)
                    == Ok::<(AssetState, u64), TwosideErrorCodes>((out.state, out.fee))
                &&& out.fee < request.amount
                &&& out.deducted == request.amount - out.fee
                &&& !st.token_info.has_derivative() ==> (out.issuance matches Some(issued)
                    && metadata_of(token_metadata_data@) matches Some(meta)
                    && issued.name@ == derivative_name_of(meta.1)
                    && issued.symbol@ == derivative_symbol_of(meta.2)
                    && issued.uri@ == meta.3
                    && issued.metadata_address == request.derivative_metadata_account
                    && issued.decimals == request.token_decimals)
                &&& !st.token_info.has_derivative() ==> out.actions@ =~= seq![
                (Action::CreateDerivativeMint {
                    derivative: request.derivative_mint,
                    decimals: request.token_decimals,
                }),
                (Action::CreateDerivativeMetadata {
                    derivative: request.derivative_mint,
                    metadata_address: request.derivative_metadata_account,
                }),
                (Action::TransferToVault {
                    token: request.token_mint,
                    from: request.signer,
                    amount: request.amount,
                }),
                (Action::TransferFromVault {
                    token: request.token_mint,
                    to: global_info.developer_wallet,
                    amount: (out.fee / 2) as u64,
                }),
                (Action::TransferFromVault {
                    token: request.token_mint,
                    to: global_info.founder_wallet,
                    amount: (out.fee / 2) as u64,
                }),
                (Action::MintDerivative {
                    derivative: request.derivative_mint,
                    to: request.signer,
                    amount: out.deducted,
                }),
            ]
                &&& !st.token_info.has_derivative() ==> out.events@ =~= seq![
                (Event::DerivativeTokenMinted(DerivativeTokenMinted {
                    token: request.token_mint,
                    derivative: request.derivative_mint,
                    timestamp: request.timestamp,
                })),
                (Event::DeveloperFeeShareDistributed(DeveloperFeeShareDistributed {
                    developer_wallet: global_info.developer_wallet,
                    token: request.token_mint,
                    amount: (out.fee / 2) as u64,
                    timestamp: request.timestamp,
                })),
                (Event::FounderFeeShareDistributed(FounderFeeShareDistributed {
                    founder_wallet: global_info.founder_wallet,
                    token: request.token_mint,
                    amount: (out.fee / 2) as u64,
                    timestamp: request.timestamp,
                })),
                (Event::AssetsLocked(AssetsLocked {
                    account: request.signer,
                    token: request.token_mint,
                    amount: request.amount,
                    timestamp: request.timestamp,
                })),
            ]
                &&& st.token_info.has_derivative() ==> out.issuance is None
                &&& st.token_info.has_derivative() ==> out.actions@ =~= seq![
                (Action::TransferToVault {
                    token: request.token_mint,
                    from: request.signer,
                    amount: request.amount,
                }),
                (Action::TransferFromVault {
                    token: request.token_mint,
                    to: global_info.developer_wallet,
                    amount: (out.fee / 2) as u64,
                }),
                (Action::TransferFromVault {
                    token: request.token_mint,
                    to: global_info.founder_wallet,
                    amount: (out.fee / 2) as u64,
                }),
                (Action::MintDerivative {
                    derivative: request.derivative_mint,
                    to: request.signer,
                    amount: out.deducted,
                }),
            ]
                &&& st.token_info.has_derivative() ==> out.events@ =~= seq![
                (Event::DeveloperFeeShareDistributed(DeveloperFeeShareDistributed {
                    developer_wallet: global_info.developer_wallet,
                    token: request.token_mint,
                    amount: (out.fee / 2) as u64,
                    timestamp: request.timestamp,
                })),
                (Event::FounderFeeShareDistributed(FounderFeeShareDistributed {
                    founder_wallet: global_info.founder_wallet,
                    token: request.token_mint,
                    amount: (out.fee / 2) as u64,
                    timestamp: request.timestamp,
                })),
                (Event::AssetsLocked(AssetsLocked {
                    account: request.signer,
                    token: request.token_mint,
                    amount: request.amount,
                    timestamp: request.timestamp,
                })),
            ]
            },
            Err(e) => spec_lock(*global_info, *st, registry_id, *request, token_metadata_data@)
                == Err::<(AssetState, u64), TwosideErrorCodes>(e),
        }),
{
    if request.amount == 0 {
        return Err(TwosideErrorCodes::ZeroAmountValue);
    }
    if !st.token_info.whitelisted {
        return Err(TwosideErrorCodes::NotWhitelisted);
    }
    let needs_issuance = st.token_info.derivative_mint.is_null();
    let mut record = st.token_info;
    let mut issuance: Option<DerivativeIssuance> = None;
    if needs_issuance {
        if request.metadata_program != registry_id {
            return Err(TwosideErrorCodes::InvalidMetaplexProgram);
        }
        if request.token_metadata_owner != registry_id {
            return Err(TwosideErrorCodes::UninitializedMetadata);
        }
        let meta = match parse_metadata(token_metadata_data) {
            None => {
                return Err(TwosideErrorCodes::UninitializedMetadata);
            },
            Some(meta) => meta,
        };
        if meta.0 != request.token_mint {
            return Err(TwosideErrorCodes::MetadataMintMismatch);
        }
        match token_metadata_address(&request.token_mint, &registry_id) {
            None => {
                return Err(TwosideErrorCodes::InvalidTokenMetadataAddress);
            },
            Some(expected_token_meta) => {
                if request.token_metadata_account != expected_token_meta.0 {
                    return Err(TwosideErrorCodes::InvalidTokenMetadataAddress);
                }
            },
        }
        match token_metadata_address(&request.derivative_mint, &registry_id) {
            None => {
                return Err(TwosideErrorCodes::InvalidDerivativeMetadataAddress);
            },
            Some(expected_derivative_meta) => {
                if request.derivative_metadata_account != expected_derivative_meta.0 {
                    return Err(TwosideErrorCodes::InvalidDerivativeMetadataAddress);
                }
            },
        }
        let name = build_derivative_name(&meta.1);
        let symbol = build_derivative_symbol(&meta.2);
        issuance = Some(
            DerivativeIssuance {
                metadata_address: request.derivative_metadata_account,
                name,
                symbol,
                uri: meta.3,
                decimals: request.token_decimals,
            },
        );
        record.derivative_mint = request.derivative_mint;
    } else {
        if request.derivative_mint != st.token_info.derivative_mint {
            return Err(TwosideErrorCodes::InvalidDerivativeAddress);
        }
    }
    let fee = match calculate_fee(
        request.amount,
        global_info.fee_percentage as u64,
        global_info.fee_percentage_divider as u64,
        global_info.min_fee_for_distribution as u64,
        global_info.min_fee as u64,
    ) {
        Err(e) => {
            return Err(e);
        },
        Ok(fee) => fee,
    };
    let deducted = request.amount - fee;
    if st.vault_balance > u64::MAX - request.amount {
        return Err(TwosideErrorCodes::Overflow);
    }
    if st.derivative_supply > u64::MAX - deducted {
        return Err(TwosideErrorCodes::Overflow);
    }
    let mut dist = distribute_fee(request.token_mint, fee, request.timestamp, global_info);
    let vault_balance = st.vault_balance + request.amount - dist.developer_share
        - dist.founder_share;
    let derivative_supply = st.derivative_supply + deducted;
    let mut actions: Vec<Action> = Vec::new();
    let mut events: Vec<Event> = Vec::new();
    if needs_issuance {
        actions.push(
            Action::CreateDerivativeMint {
                derivative: request.derivative_mint,
                decimals: request.token_decimals,
            },
        );
        actions.push(
            Action::CreateDerivativeMetadata {
                derivative: request.derivative_mint,
                metadata_address: request.derivative_metadata_account,
            },
        );
        events.push(
            Event::DerivativeTokenMinted(
                DerivativeTokenMinted {
                    token: request.token_mint,
                    derivative: request.derivative_mint,
                    timestamp: request.timestamp,
                },
            ),
        );
    }
    actions.push(
        Action::TransferToVault {
            token: request.token_mint,
            from: request.signer,
            amount: request.amount,
        },
    );
    actions.append(&mut dist.actions);
    actions.push(
        Action::MintDerivative {
            derivative: request.derivative_mint,
            to: request.signer,
            amount: deducted,
        },
    );
    events.append(&mut dist.events);
    events.push(
        Event::AssetsLocked(
            AssetsLocked {
                account: request.signer,
                token: request.token_mint,
                amount: request.amount,
                timestamp: request.timestamp,
            },
        ),
    );
    let state = AssetState { token_info: record, vault_balance, derivative_supply };
    Ok(LockOutcome { state, fee, deducted, issuance, actions, events })
}

/// Redeem `request.amount` derivative units: validate, pay the fee shares
/// out of the vault, burn the full amount, and return the fee-adjusted
/// remainder of the original asset to the caller.
pub fn unlock(global_info: &GlobalInfo, st: &AssetState, request: &UnlockRequest) -> (r: Result<
    UnlockOutcome,
    TwosideErrorCodes,
>)
    requires
        global_info.is_initialized,
        global_info.fee_percentage_divider >= 1,
        st.token_info.original_mint == request.token_mint,
    ensures
        (match r {
            Ok(out) => {
                &&& spec_unlock(*global_info, *st, *request) == Ok::<
                    (AssetState, u64),
                    TwosideErrorCodes,
                >((out.state, out.fee))
                &&& out.fee < request.amount
                &&& out.deducted == request.amount - out.fee
                &&& out.actions@ =~= seq![
                (Action::TransferFromVault {
                    token: request.token_mint,
                    to: global_info.developer_wallet,
                    amount: (out.fee / 2) as u64,
                }),
                (Action::TransferFromVault {
                    token: request.token_mint,
                    to: global_info.founder_wallet,
                    amount: (out.fee / 2) as u64,
                }),
                (Action::BurnDerivative {
                    derivative: request.derivative_mint,
                    from: request.signer,
                    amount: request.amount,
                }),
                (Action::TransferFromVault {
                    token: request.token_mint,
                    to: request.signer,
                    amount: out.deducted,
                }),
            ]
                &&& out.events@ =~= seq![
                (Event::DeveloperFeeShareDistributed(DeveloperFeeShareDistributed {
                    developer_wallet: global_info.developer_wallet,
                    token: request.token_mint,
                    amount: (out.fee / 2) as u64,
                    timestamp: request.timestamp,
                })),
                (Event::FounderFeeShareDistributed(FounderFeeShareDistributed {
                    founder_wallet: global_info.founder_wallet,
                    token: request.token_mint,
                    amount: (out.fee / 2) as u64,
                    timestamp: request.timestamp,
                })),
                (Event::AssetsUnlocked(AssetsUnlocked {
                    account: request.signer,
                    token: request.token_mint,
                    amount: request.amount,
                    timestamp: request.timestamp,
                })),
            ]
            },
            Err(e) => spec_unlock(*global_info, *st, *request) == Err::<
                (AssetState, u64),
                TwosideErrorCodes,
            >(e),
        }),
{
    if request.amount == 0 {
        return Err(TwosideErrorCodes::ZeroAmountValue);
    }
    if !st.token_info.whitelisted {
        return Err(TwosideErrorCodes::NotWhitelisted);
    }
    if st.token_info.derivative_mint.is_null() {
        return Err(TwosideErrorCodes::NoDerivativeDeployed);
    }
    if request.derivative_mint != st.token_info.derivative_mint {
        return Err(TwosideErrorCodes::InvalidDerivativeAddress);
    }
    let fee = match calculate_fee(
        request.amount,
        global_info.fee_percentage as u64,
        global_info.fee_percentage_divider as u64,
        global_info.min_fee_for_distribution as u64,
        global_info.min_fee as u64,
    ) {
        Err(e) => {
            return Err(e);
        },
        Ok(fee) => fee,
    };
    let deducted = request.amount - fee;
    if request.amount > st.derivative_supply {
        return Err(TwosideErrorCodes::Overflow);
    }
    let mut dist = distribute_fee(request.token_mint, fee, request.timestamp, global_info);
    let paid_out = deducted + dist.developer_share + dist.founder_share;
    if paid_out > st.vault_balance {
        return Err(TwosideErrorCodes::Overflow);
    }
    let vault_balance = st.vault_balance - deducted - dist.developer_share - dist.founder_share;
    let derivative_supply = st.derivative_supply - request.amount;
    let mut actions: Vec<Action> = Vec::new();
    actions.append(&mut dist.actions);
    actions.push(
        Action::BurnDerivative {
            derivative: request.derivative_mint,
            from: request.signer,
            amount: request.amount,
        },
    );
    actions.push(
        Action::TransferFromVault {
            token: request.token_mint,
            to: request.signer,
            amount: deducted,
        },
    );
    let mut events: Vec<Event> = Vec::new();
    events.append(&mut dist.events);
    events.push(
        Event::AssetsUnlocked(
            AssetsUnlocked {
                account: request.signer,
                token: request.token_mint,
                amount: request.amount,
                timestamp: request.timestamp,
            },
        ),
    );
    let state = AssetState { token_info: st.token_info, vault_balance, derivative_supply };
    Ok(UnlockOutcome { state, fee, deducted, actions, events })
}

} // verus!
