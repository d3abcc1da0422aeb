use vstd::prelude::*;

verus! {

/// A ledger account as the vault logic sees it: the address it lives at
/// and the native balance it holds. The vault account carries no payload
/// beyond its balance, so nothing more is modeled.
#[derive(Clone, Copy, Debug, PartialEq, Eq)]
#[verifier::ext_equal]
pub struct Account {
    /// The account's 32-byte address on the ledger.
    pub key: [u8; 32],
    /// The account's balance in native units.
    pub lamports: u64,
}

/// The pair of accounts that both vault operations act on: the owner's
/// signing account and the derived vault account that holds the deposit.
#[allow(non_camel_case_types)]
#[derive(Clone, Copy, Debug, PartialEq, Eq)]
#[verifier::ext_equal]
pub struct Vault_Action {
    /// The owner's account: the authenticated payer on deposit, the
    /// recipient on withdraw.
    pub signer: Account,
    /// The derived vault account. Holds only a balance.
    pub vault: Account,
}

/// A vault's lifecycle has exactly two states, distinguished by whether it
/// currently holds a balance. Deposits take an empty vault to funded;
/// withdrawal empties it again, so the cycle can repeat indefinitely.
#[derive(Clone, Copy, Debug, PartialEq, Eq, Structural)]
pub enum VaultState {
    Empty,
    Funded,
}

/// The lifecycle state of a vault account: empty exactly when it holds no
/// balance.
pub open spec fn vault_state(v: Account) -> VaultState {
    if v.lamports == 0 {
        VaultState::Empty
    } else {
        VaultState::Funded
    }
}

} // verus!
