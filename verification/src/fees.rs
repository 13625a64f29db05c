//! Fee computation.
//!
//! The fee rate is the fixed-point fraction `fee_percentage /
//! fee_percentage_divider`. Two policies were used across protocol revisions
//! and are kept behind an explicit policy choice. The rounded-with-floor
//! policy is the canonical one: round half up in fixed point, and fall back
//! to a flat minimum fee when the rounded fee is below the distribution
//! threshold. The simple policy, superseded, just takes the floor.
//!
//! All intermediate products are computed in 128 bits so that no supported
//! amount can overflow; a result that does not fit the 64-bit amount domain
//! is rejected as `Overflow`, and a fee that would consume the whole amount
//! is rejected as `AmountInsufficientAfterFee`. On success the fee is always
//! strictly below the amount.

use vstd::prelude::*;
use vstd::arithmetic::div_mod::{lemma_div_pos_is_pos, lemma_fundamental_div_mod};
use vstd::arithmetic::mul::{
    lemma_mul_inequality, lemma_mul_inequality_converse, lemma_mul_is_commutative,
    lemma_mul_is_distributive_add, lemma_mul_upper_bound,
};

use crate::errors::TwosideErrorCodes;

verus! {

/// Which fee formula a revision of the protocol applies.
#[derive(Clone, Copy, PartialEq, Eq, Structural, Debug)]
pub enum FeePolicy {
    /// `floor(amount * percentage / divider)`, no floor protection.
    Simple,
    /// Round half up in fixed point, with a flat minimum below the
    /// distribution threshold. The canonical policy.
    RoundedWithFloor,
}

/// The fee under the simple policy, before range checks.
pub open spec fn simple_fee(amount: int, fee_percentage: int, divider: int) -> int {
    (amount * fee_percentage) / divider
}

/// The fee under the rounded-with-floor policy before the floor and range
/// checks: fixed-point round half up.
pub open spec fn rounded_fee(amount: int, fee_percentage: int, divider: int) -> int {
    (amount * fee_percentage + divider / 2) / divider
}

/// What `calculate_fee` returns: the rounded fee, replaced by the flat
/// minimum when below the distribution threshold, rejected when it cannot be
/// represented or would consume the whole amount.
pub open spec fn spec_calculate_fee(
    amount: u64,
    fee_percentage: u64,
    fee_percentage_divider: u64,
    min_fee_for_distribution: u64,
    min_fee: u64,
) -> Result<u64, TwosideErrorCodes> {
    let rounded = rounded_fee(amount as int, fee_percentage as int, fee_percentage_divider as int);
    if rounded < min_fee_for_distribution {
        if min_fee < amount {
            Ok(min_fee)
        } else {
            Err(TwosideErrorCodes::AmountInsufficientAfterFee)
        }
    } else if rounded > u64::MAX {
        Err(TwosideErrorCodes::Overflow)
    } else if rounded < amount {
        Ok(rounded as u64)
    } else {
        Err(TwosideErrorCodes::AmountInsufficientAfterFee)
    }
}

/// What `calculate_fee_with_policy` returns under the simple policy.
pub open spec fn spec_simple_calculate_fee(
    amount: u64,
    fee_percentage: u64,
    fee_percentage_divider: u64,
) -> Result<u64, TwosideErrorCodes> {
    let fee = simple_fee(amount as int, fee_percentage as int, fee_percentage_divider as int);
    if fee > u64::MAX {
        Err(TwosideErrorCodes::Overflow)
    } else if fee < amount {
        Ok(fee as u64)
    } else {
        Err(TwosideErrorCodes::AmountInsufficientAfterFee)
    }
}

/// The canonical (rounded-with-floor) fee computation.
pub fn calculate_fee(
    amount: u64,
    fee_percentage: u64,
    fee_percentage_divider: u64,
    min_fee_for_distribution: u64,
    min_fee: u64,
) -> (r: Result<u64, TwosideErrorCodes>)
    requires
        fee_percentage_divider >= 1,
    ensures
        r == spec_calculate_fee(
            amount,
            fee_percentage,
            fee_percentage_divider,
            min_fee_for_distribution,
            min_fee,
        ),
        r matches Ok(fee) ==> fee < amount,
{
    let amount128 = amount as u128;
    let percentage128 = fee_percentage as u128;
    let divider128 = fee_percentage_divider as u128;
    proof {
        lemma_mul_upper_bound(
            amount128 as int,
            u64::MAX as int,
            percentage128 as int,
            u64::MAX as int,
        );
    }
    let numer = amount128 * percentage128;
    let half = divider128 / 2;
    let summed = numer + half;
    let rounded = summed / divider128;
    if rounded < min_fee_for_distribution as u128 {
        if min_fee < amount {
            Ok(min_fee)
        } else {
            Err(TwosideErrorCodes::AmountInsufficientAfterFee)
        }
    } else if rounded > u64::MAX as u128 {
        Err(TwosideErrorCodes::Overflow)
    } else {
        let fee = rounded as u64;
        if fee < amount {
            Ok(fee)
        } else {
            Err(TwosideErrorCodes::AmountInsufficientAfterFee)
        }
    }
}

/// The fee computation of the revision selected by `policy`. The canonical
/// policy ignores no parameter; the simple policy ignores the floor
/// parameters.
pub fn calculate_fee_with_policy(
    policy: FeePolicy,
    amount: u64,
    fee_percentage: u64,
    fee_percentage_divider: u64,
    min_fee_for_distribution: u64,
    min_fee: u64,
) -> (r: Result<u64, TwosideErrorCodes>)
    requires
        fee_percentage_divider >= 1,
    ensures
        policy is RoundedWithFloor ==> r == spec_calculate_fee(
            amount,
            fee_percentage,
            fee_percentage_divider,
            min_fee_for_distribution,
            min_fee,
        ),
        policy is Simple ==> r == spec_simple_calculate_fee(
            amount,
            fee_percentage,
            fee_percentage_divider,
        ),
        r matches Ok(fee) ==> fee < amount,
{
    match policy {
        FeePolicy::RoundedWithFloor => calculate_fee(
            amount,
            fee_percentage,
            fee_percentage_divider,
            min_fee_for_distribution,
            min_fee,
        ),
        FeePolicy::Simple => {
            let amount128 = amount as u128;
            let percentage128 = fee_percentage as u128;
            let divider128 = fee_percentage_divider as u128;
            proof {
                lemma_mul_upper_bound(
                    amount128 as int,
                    u64::MAX as int,
                    percentage128 as int,
                    u64::MAX as int,
                );
            }
            let fee128 = (amount128 * percentage128) / divider128;
            if fee128 > u64::MAX as u128 {
                Err(TwosideErrorCodes::Overflow)
            } else {
                let fee = fee128 as u64;
                if fee < amount {
                    Ok(fee)
                } else {
                    Err(TwosideErrorCodes::AmountInsufficientAfterFee)
                }
            }
        },
    }
}

/// How a collected fee is split between the developer and the founder.
#[derive(Clone, Copy, PartialEq, Eq, Structural, Debug)]
pub enum FeeSplitPolicy {
    /// Half each, remainders staying in the vault. The canonical policy.
    FixedHalf,
    /// Percentages of the fee read from the configuration.
    Configured,
}

/// The two shares under `policy`: developer share first, founder share
/// second.
pub open spec fn spec_fee_shares(
    policy: FeeSplitPolicy,
    fee: u64,
    developer_fee_share: u64,
    founder_fee_share: u64,
) -> (u64, u64) {
    match policy {
        FeeSplitPolicy::FixedHalf => ((fee / 2) as u64, (fee / 2) as u64),
        FeeSplitPolicy::Configured => (
            ((fee * developer_fee_share) / 100) as u64,
            ((fee * founder_fee_share) / 100) as u64,
        ),
    }
}

/// Split a fee between developer and founder. Whatever the policy, the two
/// shares together never exceed the fee: distribution can never move more
/// out of the vault than the fee that was charged.
pub fn fee_shares(
    policy: FeeSplitPolicy,
    fee: u64,
    developer_fee_share: u64,
    founder_fee_share: u64,
) -> (r: (u64, u64))
    requires
        policy is Configured ==> developer_fee_share + founder_fee_share <= 100,
    ensures
        r == spec_fee_shares(policy, fee, developer_fee_share, founder_fee_share),
        r.0 + r.1 <= fee,
{
    match policy {
        FeeSplitPolicy::FixedHalf => (fee / 2, fee / 2),
        FeeSplitPolicy::Configured => {
            let fee128 = fee as u128;
            let dev128 = developer_fee_share as u128;
            let fnd128 = founder_fee_share as u128;
            proof {
                lemma_mul_upper_bound(fee128 as int, u64::MAX as int, dev128 as int, 100);
                lemma_mul_upper_bound(fee128 as int, u64::MAX as int, fnd128 as int, 100);
            }
            let dev_numer = fee128 * dev128;
            let fnd_numer = fee128 * fnd128;
            proof {
                lemma_fee_share_sum_le(
                    fee as int,
                    developer_fee_share as int,
                    founder_fee_share as int,
                );
            }
            let dev_part = (dev_numer / 100) as u64;
            let fnd_part = (fnd_numer / 100) as u64;
            (dev_part, fnd_part)
        },
    }
}

/// The configured shares, each a percentage of the fee, together never
/// exceed the fee when the percentages sum to at most one hundred.
proof fn lemma_fee_share_sum_le(fee: int, dev: int, fnd: int)
    requires
        0 <= fee,
        0 <= dev,
        0 <= fnd,
        dev + fnd <= 100,
    ensures
        (fee * dev) / 100 <= fee,
        (fee * fnd) / 100 <= fee,
        (fee * dev) / 100 + (fee * fnd) / 100 <= fee,
{
    let qd = (fee * dev) / 100;
    let qf = (fee * fnd) / 100;
    lemma_fundamental_div_mod(fee * dev, 100);
    lemma_fundamental_div_mod(fee * fnd, 100);
    assert(100 * qd <= fee * dev);
    assert(100 * qf <= fee * fnd);
    lemma_mul_is_distributive_add(fee, dev, fnd);
    assert(fee * dev + fee * fnd == fee * (dev + fnd));
    lemma_mul_inequality(dev + fnd, 100, fee);
    lemma_mul_is_commutative(fee, dev + fnd);
    lemma_mul_is_commutative(fee, 100);
    assert(fee * (dev + fnd) <= fee * 100);
    lemma_mul_is_distributive_add(100, qd, qf);
    assert(100 * (qd + qf) <= fee * 100);
    lemma_mul_is_commutative(100, qd + qf);
    lemma_mul_inequality_converse(qd + qf, fee, 100);
    assert(qd + qf <= fee);
    lemma_div_pos_is_pos(fee * dev, 100);
    lemma_div_pos_is_pos(fee * fnd, 100);
}

} // verus!
