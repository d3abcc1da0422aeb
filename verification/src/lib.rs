//! A minimal custodial vault on an account-based ledger.
//!
//! A user deposits native value into a holding account whose address is
//! derived deterministically from the user's key under a fixed program
//! identity, and later withdraws the full balance back to themselves. The
//! vault account has no private key: an outgoing transfer is authorized by
//! re-deriving the vault's address from the owner's key and matching it
//! against the account actually being debited.

pub mod account;
pub mod address;
pub mod error;
pub mod laws;
pub mod ops;
pub mod rent;

pub use account::{Account, Vault_Action, VaultState};
pub use address::derive_vault_address;
pub use error::VaultError;
pub use ops::{check_deposit, deposit, move_owner_to_vault, move_vault_to_owner, withdraw};
pub use rent::zero_payload_rent_minimum;
