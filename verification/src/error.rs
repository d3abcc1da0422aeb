use vstd::prelude::*;

verus! {

/// The distinct, stable failure kinds a vault operation can report.
///
/// The first two are precondition violations detected before any value
/// moves; the rest surface failures of the underlying ledger primitives.
/// Every failure leaves every balance exactly as it was.
#[derive(Clone, Copy, Debug, PartialEq, Eq, Structural)]
pub enum VaultError {
    /// A deposit found the vault already holding a balance.
    VaultAlreadyExists,
    /// The deposit amount does not exceed the rent-exempt minimum for a
    /// zero-payload account.
    InvalidAmmount,
    /// The paying account holds less than the amount to be moved.
    InsufficientFunds,
    /// The receiving balance cannot take the amount without exceeding the
    /// largest representable balance.
    Overflow,
    /// The supplied vault account is not the address that re-derives from
    /// the claiming owner's key under the program identity.
    VaultMismatch,
    /// No nonce in the bounded search space yields a key-less address for
    /// this owner.
    DerivationFailed,
}

} // verus!
