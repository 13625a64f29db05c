//! The laws of the accounting engine, stated over the transition functions
//! that `lock` and `unlock` are proved against.

use vstd::prelude::*;

use crate::address::Address;
use crate::engine::{spec_lock, spec_unlock, LockRequest, UnlockRequest};
use crate::errors::TwosideErrorCodes;
use crate::fees::spec_calculate_fee;
use crate::records::{AssetState, GlobalInfo};

verus! {

/// The fee computation never succeeds with a fee at or above the amount: a
/// committed operation always leaves something to escrow or redeem. On a
/// zero amount it always fails. Being a function of its five arguments, the
/// computation is deterministic and side-effect-free by construction.
pub proof fn lemma_fee_below_amount(
    amount: u64,
    fee_percentage: u64,
    fee_percentage_divider: u64,
    min_fee_for_distribution: u64,
    min_fee: u64,
)
    ensures
        spec_calculate_fee(
            amount,
            fee_percentage,
            fee_percentage_divider,
            min_fee_for_distribution,
            min_fee,
        ) matches Ok(fee) ==> fee < amount,
        amount == 0 ==> spec_calculate_fee(
            amount,
            fee_percentage,
            fee_percentage_divider,
            min_fee_for_distribution,
            min_fee,
        ) is Err,
{
}

/// Locking an asset whose derivative already exists never re-runs issuance:
/// the metadata inputs are not consulted at all, the token record comes out
/// of a committed call unchanged, and a supplied derivative identity other
/// than the recorded one is rejected as `InvalidDerivativeAddress` before
/// anything else can fail.
pub proof fn lemma_lock_idempotent_issuance(
    global_info: GlobalInfo,
    st: AssetState,
    registry_id: Address,
    request: LockRequest,
    token_metadata_data: Seq<u8>,
    other_metadata_data: Seq<u8>,
)
    requires
        st.token_info.has_derivative(),
    ensures
        spec_lock(global_info, st, registry_id, request, token_metadata_data) == spec_lock(
            global_info,
            st,
            registry_id,
            request,
            other_metadata_data,
        ),
        spec_lock(global_info, st, registry_id, request, token_metadata_data) matches Ok(outcome)
            ==> outcome.0.token_info == st.token_info,
        request.amount != 0 && st.token_info.whitelisted && request.derivative_mint
            != st.token_info.derivative_mint ==> spec_lock(
            global_info,
            st,
            registry_id,
            request,
            token_metadata_data,
        ) == Err::<(AssetState, u64), TwosideErrorCodes>(
            TwosideErrorCodes::InvalidDerivativeAddress,
        ),
{
}

/// A committed lock preserves solvency: every outstanding derivative unit
/// stays backed by an escrowed unit. The vault's surplus over the
/// outstanding supply never shrinks — the deposit enters the vault in full,
/// at most the fee leaves it, and strictly less than the deposit is minted.
pub proof fn lemma_lock_preserves_solvency(
    global_info: GlobalInfo,
    st: AssetState,
    registry_id: Address,
    request: LockRequest,
    token_metadata_data: Seq<u8>,
)
    requires
        st.wf(),
    ensures
        spec_lock(global_info, st, registry_id, request, token_metadata_data) matches Ok(outcome)
            ==> outcome.0.wf() && outcome.0.vault_balance - outcome.0.derivative_supply
            >= st.vault_balance - st.derivative_supply,
{
}

/// A committed unlock preserves solvency: the full redeemed amount leaves
/// the supply while at most that amount leaves the vault, so the vault's
/// surplus over the outstanding supply never shrinks and no transfer out of
/// the vault can exceed what transfers in have put there.
pub proof fn lemma_unlock_preserves_solvency(
    global_info: GlobalInfo,
    st: AssetState,
    request: UnlockRequest,
)
    requires
        st.wf(),
    ensures
        spec_unlock(global_info, st, request) matches Ok(outcome) ==> outcome.0.wf()
            && outcome.0.vault_balance - outcome.0.derivative_supply >= st.vault_balance
            - st.derivative_supply,
{
}

/// One call of an arbitrary lock/unlock history.
pub enum Op {
    Lock(LockRequest, Seq<u8>),
    Unlock(UnlockRequest),
}

/// One step of an arbitrary lock/unlock history on one asset: a committed
/// call moves to the successor state, a failed call leaves the state
/// untouched.
pub open spec fn apply_op(
    global_info: GlobalInfo,
    registry_id: Address,
    st: AssetState,
    op: Op,
) -> AssetState {
    match op {
        Op::Lock(request, data) => match spec_lock(global_info, st, registry_id, request, data) {
            Ok(outcome) => outcome.0,
            Err(_) => st,
        },
        Op::Unlock(request) => match spec_unlock(global_info, st, request) {
            Ok(outcome) => outcome.0,
            Err(_) => st,
        },
    }
}

/// The state after a whole history of calls.
pub open spec fn apply_ops(
    global_info: GlobalInfo,
    registry_id: Address,
    st: AssetState,
    ops: Seq<Op>,
) -> AssetState
    decreases ops.len(),
{
    if ops.len() == 0 {
        st
    } else {
        apply_ops(
            global_info,
            registry_id,
            apply_op(global_info, registry_id, st, ops[0]),
            ops.subrange(1, ops.len() as int),
        )
    }
}

/// Over every sequence of lock and unlock calls on one asset, solvency is
/// an invariant: the vault balance never falls below the outstanding
/// derivative supply, so it can never go negative and every transfer out of
/// the vault is backed by prior transfers in.
pub proof fn lemma_solvency_over_history(
    global_info: GlobalInfo,
    registry_id: Address,
    st: AssetState,
    ops: Seq<Op>,
)
    requires
        st.wf(),
    ensures
        apply_ops(global_info, registry_id, st, ops).wf(),
    decreases ops.len(),
{
    if ops.len() > 0 {
        let next = apply_op(global_info, registry_id, st, ops[0]);
        match ops[0] {
            Op::Lock(request, data) => {
                lemma_lock_preserves_solvency(global_info, st, registry_id, request, data);
            },
            Op::Unlock(request) => {
                lemma_unlock_preserves_solvency(global_info, st, request);
            },
        }
        lemma_solvency_over_history(
            global_info,
            registry_id,
            next,
            ops.subrange(1, ops.len() as int),
        );
    }
}

/// The round trip: locking an amount and immediately redeeming the
/// derivative units it minted burns the supply back to exactly its old
/// level, but the caller receives the amount less both fees — once any fee
/// was charged, strictly less than was deposited. What the two
/// distributions did not pay out (the odd remainder of each fee) stays in
/// the vault.
pub proof fn lemma_round_trip(
    global_info: GlobalInfo,
    st: AssetState,
    registry_id: Address,
    lock_request: LockRequest,
    token_metadata_data: Seq<u8>,
    st1: AssetState,
    fee1: u64,
    unlock_request: UnlockRequest,
    st2: AssetState,
    fee2: u64,
)
    requires
        spec_lock(global_info, st, registry_id, lock_request, token_metadata_data) == Ok::<
            (AssetState, u64),
            TwosideErrorCodes,
        >((st1, fee1)),
        unlock_request.amount == lock_request.amount - fee1,
        unlock_request.derivative_mint == st1.token_info.derivative_mint,
        spec_unlock(global_info, st1, unlock_request) == Ok::<(AssetState, u64), TwosideErrorCodes>(
            (st2, fee2),
        ),
    ensures
        st2.derivative_supply == st.derivative_supply,
        unlock_request.amount - fee2 == lock_request.amount - fee1 - fee2,
        fee1 > 0 || fee2 > 0 ==> lock_request.amount - fee1 - fee2 < lock_request.amount,
        st2.vault_balance == st.vault_balance + (fee1 - 2 * ((fee1 / 2) as int)) + (fee2 - 2 * ((
        fee2 / 2) as int)),
{
}

} // verus!
