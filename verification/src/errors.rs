//! The error taxonomy of the protocol.
//!
//! Every operation is all-or-nothing: an error means the call had no effect.
//! Input-validation and authorization errors are raised before any balance
//! moves; consistency errors reject spoofed or malformed account references;
//! arithmetic errors guard the fee computation.

use vstd::prelude::*;

verus! {

#[derive(Clone, Copy, PartialEq, Eq, Structural, Debug)]
pub enum TwosideErrorCodes {
    /// Account not authorized.
    NotAuthorized,
    /// Amount value sent is zero.
    ZeroAmountValue,
    /// Provided identity cannot be the default (all-zero) key.
    InvalidPubkey,
    /// Amount value below the configured minimum.
    InvalidAmount,
    /// Derivative not minted yet.
    NoDerivativeDeployed,
    /// Derivative sent is not the one recorded for this token.
    InvalidDerivativeAddress,
    /// Token not whitelisted.
    NotWhitelisted,
    /// Metadata record is not owned by the official registry.
    InvalidMetadataProgram,
    /// Metadata record missing or not deserializable.
    UninitializedMetadata,
    /// Metadata is not for the token submitted.
    MetadataMintMismatch,
    /// Holding account submitted is invalid.
    InvalidATA,
    /// Invalid program sent as the metadata registry.
    InvalidMetaplexProgram,
    /// Invalid derivative metadata address.
    InvalidDerivativeMetadataAddress,
    /// Invalid token metadata address.
    InvalidTokenMetadataAddress,
    /// Fee would not leave anything to escrow or redeem.
    AmountInsufficientAfterFee,
    /// An arithmetic step cannot be represented.
    Overflow,
}

} // verus!
