//! Collateral-locking and synthetic-asset issuance engine.
//!
//! A user deposits units of an original asset into a program-custodied vault
//! and receives freshly minted derivative units representing a fee-adjusted
//! claim on that collateral; later the user may redeem by burning derivative
//! units and withdrawing the original, paying a second fee. An administrative
//! layer controls who may whitelist new original assets.
//!
//! The engine here is the pure decision core: every operation maps the
//! current records and the caller-supplied inputs to either an error or the
//! successor state together with the exact list of transfer, mint, burn and
//! creation actions the surrounding runtime must perform, and the events it
//! must log. The runtime executes those actions atomically: a committed call
//! has exactly the effects listed, a failed call has none.

pub mod address;
pub mod admin;
pub mod authority;
pub mod engine;
pub mod events;
pub mod errors;
pub mod fees;
pub mod laws;
pub mod metadata;
pub mod records;
