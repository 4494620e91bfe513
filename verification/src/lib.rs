//! Custodial escrow with delegated release into a streaming-payment service.
//!
//! Funds deposited by a user are held in a vault whose spending authority is
//! a deterministically derived custody account, not the user's own key. A
//! later release re-derives that authority, moves the recorded balance out of
//! the vault, deducts a protocol fee, and hands the net amount to an external
//! streaming service as a single-period payment stream.

pub mod deposit;
pub mod errors;
pub mod fees;
pub mod identity;
pub mod release;
pub mod stream;
pub mod token;
