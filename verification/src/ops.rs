use vstd::prelude::*;

use crate::account::{Account, Vault_Action};
use crate::address::{bytes32_eq, derive_vault_address, pda_of, vault_tag};
use crate::error::VaultError;

verus! {

/// What the deposit guard decides, in its observable order: a vault that
/// already holds a balance is reported first, then an amount that does not
/// exceed the rent-exempt minimum; only then is the deposit allowed.
pub open spec fn deposit_guard(vault_lamports: u64, amount: u64, rent_min: u64) -> Result<(), VaultError> {
    if vault_lamports != 0 {
        Err(VaultError::VaultAlreadyExists)
    } else if amount <= rent_min {
        Err(VaultError::InvalidAmmount)
    } else {
        Ok(())
    }
}

/// Validates the deposit preconditions before any value moves.
///
/// `rent_min` is the rent-exempt minimum for a zero-payload account, as
/// supplied by the ledger's economics oracle.
pub fn check_deposit(vault_lamports: u64, amount: u64, rent_min: u64) -> (r: Result<(), VaultError>)
    ensures
        r == deposit_guard(vault_lamports, amount, rent_min),
{
    if vault_lamports != 0 {
        Err(VaultError::VaultAlreadyExists)
    } else if amount <= rent_min {
        Err(VaultError::InvalidAmmount)
    } else {
        Ok(())
    }
}

/// What the ledger's atomic two-account transfer primitive reports for a
/// move of `amount` from `from` to `to`: the payer must hold the amount,
/// and the receiving balance must still be representable.
pub open spec fn transfer_outcome(from: Account, to: Account, amount: u64) -> Result<(), VaultError> {
    if from.lamports < amount {
        Err(VaultError::InsufficientFunds)
    } else if to.lamports + amount > u64::MAX {
        Err(VaultError::Overflow)
    } else {
        Ok(())
    }
}

/// The deposit path of the transfer executor: moves exactly `amount` from
/// the owner's account to the vault's account, or moves nothing at all.
pub fn move_owner_to_vault(accounts: &mut Vault_Action, amount: u64) -> (r: Result<(), VaultError>)
    ensures
        r == transfer_outcome(old(accounts).signer, old(accounts).vault, amount),
        r is Ok ==> final(accounts).signer.lamports == old(accounts).signer.lamports - amount,
        r is Ok ==> final(accounts).vault.lamports == old(accounts).vault.lamports + amount,
        r is Err ==> *final(accounts) == *old(accounts),
        final(accounts).signer.key == old(accounts).signer.key,
        final(accounts).vault.key == old(accounts).vault.key,
{
    if accounts.signer.lamports < amount {
        Err(VaultError::InsufficientFunds)
    } else if amount > u64::MAX - accounts.vault.lamports {
        Err(VaultError::Overflow)
    } else {
        accounts.signer.lamports = accounts.signer.lamports - amount;
        accounts.vault.lamports = accounts.vault.lamports + amount;
        Ok(())
    }
}

/// The withdraw path of the transfer executor: moves the vault's entire
/// current balance to the owner's account, or moves nothing at all.
pub fn move_vault_to_owner(accounts: &mut Vault_Action) -> (r: Result<(), VaultError>)
    ensures
        r == transfer_outcome(old(accounts).vault, old(accounts).signer, old(accounts).vault.lamports),
        r is Ok ==> final(accounts).signer.lamports == old(accounts).signer.lamports + old(accounts).vault.lamports,
        r is Ok ==> final(accounts).vault.lamports == 0,
        r is Err ==> *final(accounts) == *old(accounts),
        final(accounts).signer.key == old(accounts).signer.key,
        final(accounts).vault.key == old(accounts).vault.key,
{
    let amount: u64 = accounts.vault.lamports;
    if amount > u64::MAX - accounts.signer.lamports {
        Err(VaultError::Overflow)
    } else {
        accounts.vault.lamports = 0;
        accounts.signer.lamports = accounts.signer.lamports + amount;
        Ok(())
    }
}

/// What a deposit of `amount` reports, given the accounts as they stood
/// before the call: the guard's decision first, then the transfer's.
pub open spec fn deposit_outcome(pre: Vault_Action, amount: u64, rent_min: u64) -> Result<(), VaultError> {
    match deposit_guard(pre.vault.lamports, amount, rent_min) {
        Err(e) => Err(e),
        Ok(()) => transfer_outcome(pre.signer, pre.vault, amount),
    }
}

/// The accounts after a deposit: on success exactly `amount` has moved
/// from the owner to the vault; on any failure nothing has changed.
pub open spec fn deposit_state(pre: Vault_Action, amount: u64, rent_min: u64) -> Vault_Action {
    if deposit_outcome(pre, amount, rent_min) is Ok {
        Vault_Action {
            signer: Account { key: pre.signer.key, lamports: (pre.signer.lamports - amount) as u64 },
            vault: Account { key: pre.vault.key, lamports: (pre.vault.lamports + amount) as u64 },
        }
    } else {
        pre
    }
}

/// Deposits `amount` from the owner's account into the vault.
///
/// The owner is the authenticated payer; `rent_min` is the rent-exempt
/// minimum for a zero-payload account, supplied by the ledger's economics
/// oracle. The vault must be empty and the amount must strictly exceed
/// `rent_min`; the checks run in that order, and a violated one reports
/// its error before any value moves. Success moves exactly `amount`;
/// failure moves nothing.
pub fn deposit(accounts: &mut Vault_Action, amount: u64, rent_min: u64) -> (r: Result<(), VaultError>)
    ensures
        r == deposit_outcome(*old(accounts), amount, rent_min),
        *final(accounts) == deposit_state(*old(accounts), amount, rent_min),
{
    let guard = check_deposit(accounts.vault.lamports, amount, rent_min);
    if let Err(e) = guard {
        return Err(e);
    }
    let r = move_owner_to_vault(accounts, amount);
    proof {
        assert(accounts.signer =~= deposit_state(*old(accounts), amount, rent_min).signer);
        assert(accounts.vault =~= deposit_state(*old(accounts), amount, rent_min).vault);
        assert(*accounts =~= deposit_state(*old(accounts), amount, rent_min));
    }
    r
}

/// What a withdraw reports, given the accounts as they stood before the
/// call: the vault account must be exactly the address that re-derives
/// from the owner's key under the program identity; then the vault's
/// entire balance moves, which fails only when the owner's balance cannot
/// take it.
pub open spec fn withdraw_outcome(pre: Vault_Action, program_id: Seq<u8>) -> Result<(), VaultError> {
    match pda_of(vault_tag(), pre.signer.key@, program_id) {
        None => Err(VaultError::DerivationFailed),
        Some(p) => if p.0 != pre.vault.key@ {
            Err(VaultError::VaultMismatch)
        } else {
            transfer_outcome(pre.vault, pre.signer, pre.vault.lamports)
        },
    }
}

/// The accounts after a withdraw: on success the vault's entire balance
/// has moved to the owner and the vault is empty; on any failure nothing
/// has changed.
pub open spec fn withdraw_state(pre: Vault_Action, program_id: Seq<u8>) -> Vault_Action {
    if withdraw_outcome(pre, program_id) is Ok {
        Vault_Action {
            signer: Account { key: pre.signer.key, lamports: (pre.signer.lamports + pre.vault.lamports) as u64 },
            vault: Account { key: pre.vault.key, lamports: 0 },
        }
    } else {
        pre
    }
}

/// Withdraws the vault's entire balance back to the owner.
///
/// The vault has no private key, so the call is authorized by re-deriving
/// the vault address from the fixed tag, the owner's key and the program
/// identity, and accepting only if it matches the supplied vault account;
/// the check is made fresh on every call. An empty vault withdraws zero
/// value and still succeeds. Success moves the entire balance; failure
/// moves nothing.
pub fn withdraw(accounts: &mut Vault_Action, program_id: &[u8; 32]) -> (r: Result<(), VaultError>)
    ensures
        r == withdraw_outcome(*old(accounts), program_id@),
        *final(accounts) == withdraw_state(*old(accounts), program_id@),
{
    let derived = derive_vault_address(&accounts.signer.key, program_id);
    match derived {
        None => Err(VaultError::DerivationFailed),
        Some((address, _nonce)) => {
            if !bytes32_eq(&address, &accounts.vault.key) {
                Err(VaultError::VaultMismatch)
            } else {
                let r = move_vault_to_owner(accounts);
                proof {
                    assert(accounts.signer =~= withdraw_state(*old(accounts), program_id@).signer);
                    assert(accounts.vault =~= withdraw_state(*old(accounts), program_id@).vault);
                    assert(*accounts =~= withdraw_state(*old(accounts), program_id@));
                }
                r
            }
        }
    }
}

} // verus!
