use vstd::prelude::*;

use crate::account::{vault_state, Vault_Action, VaultState};
use crate::address::{pda_of, vault_tag};
use crate::error::VaultError;
use crate::ops::{deposit_outcome, deposit_state, withdraw_outcome, withdraw_state};

verus! {

/// Depositing into a vault that already holds a balance fails with
/// `VaultAlreadyExists`, whatever the owner and the amount, and changes
/// neither account.
pub proof fn deposit_into_used_vault_fails(pre: Vault_Action, amount: u64, rent_min: u64)
    requires
        pre.vault.lamports != 0,
    ensures
        deposit_outcome(pre, amount, rent_min) == Result::<(), VaultError>::Err(VaultError::VaultAlreadyExists),
        deposit_state(pre, amount, rent_min) == pre,
{
}

/// An amount that does not exceed the rent-exempt minimum is never
/// deposited: the deposit fails and changes nothing, whatever the vault
/// currently holds, and on an empty vault the reported error is
/// `InvalidAmmount`. (On a vault that already holds a balance the guard
/// reports `VaultAlreadyExists` first, as its observable order demands.)
pub proof fn small_deposit_fails(pre: Vault_Action, amount: u64, rent_min: u64)
    requires
        amount <= rent_min,
    ensures
        deposit_outcome(pre, amount, rent_min) is Err,
        deposit_state(pre, amount, rent_min) == pre,
        pre.vault.lamports == 0 ==> deposit_outcome(pre, amount, rent_min)
            == Result::<(), VaultError>::Err(VaultError::InvalidAmmount),
{
}

/// A successful deposit of amount `A` moves exactly `A`: the vault's
/// balance grows by `A`, the owner's balance shrinks by `A`, and the vault
/// passes from empty to funded.
pub proof fn successful_deposit_moves_exactly_amount(pre: Vault_Action, amount: u64, rent_min: u64)
    requires
        deposit_outcome(pre, amount, rent_min) is Ok,
    ensures
        deposit_state(pre, amount, rent_min).vault.lamports == pre.vault.lamports + amount,
        deposit_state(pre, amount, rent_min).signer.lamports == pre.signer.lamports - amount,
        vault_state(pre.vault) == VaultState::Empty,
        vault_state(deposit_state(pre, amount, rent_min).vault) == VaultState::Funded,
{
}

/// A successful withdraw moves the vault's entire balance to the owner
/// and leaves the vault empty; a funded vault passes back to empty.
pub proof fn successful_withdraw_empties_vault(pre: Vault_Action, program_id: Seq<u8>)
    requires
        withdraw_outcome(pre, program_id) is Ok,
    ensures
        withdraw_state(pre, program_id).signer.lamports == pre.signer.lamports + pre.vault.lamports,
        withdraw_state(pre, program_id).vault.lamports == 0,
        vault_state(withdraw_state(pre, program_id).vault) == VaultState::Empty,
        pre.vault.lamports != 0 ==> vault_state(pre.vault) == VaultState::Funded,
{
}

/// Immediately after a successful withdraw the vault is reusable: a fresh
/// deposit succeeds under the same rules as the first, for any amount
/// above the rent-exempt minimum that the owner can then pay.
pub proof fn vault_reusable_after_withdraw(pre: Vault_Action, program_id: Seq<u8>, amount: u64, rent_min: u64)
    requires
        withdraw_outcome(pre, program_id) is Ok,
        amount > rent_min,
        withdraw_state(pre, program_id).signer.lamports >= amount,
    ensures
        deposit_outcome(withdraw_state(pre, program_id), amount, rent_min) == Result::<(), VaultError>::Ok(()),
{
}

/// A withdraw whose supplied vault account is not the address that
/// re-derives from the claiming owner's key is rejected with
/// `VaultMismatch` and changes nothing; when no key-less address exists
/// for the owner at all, the derivation failure is reported instead.
pub proof fn mismatched_withdraw_rejected(pre: Vault_Action, program_id: Seq<u8>)
    ensures
        (match pda_of(vault_tag(), pre.signer.key@, program_id) {
            Some(p) => p.0 != pre.vault.key@ ==> {
                &&& withdraw_outcome(pre, program_id)
                    == Result::<(), VaultError>::Err(VaultError::VaultMismatch)
                &&& withdraw_state(pre, program_id) == pre
            },
            None => withdraw_outcome(pre, program_id)
                == Result::<(), VaultError>::Err(VaultError::DerivationFailed),
        }),
{
}

/// No failed deposit is partially applied: every failure leaves both
/// accounts exactly as they were.
pub proof fn failed_deposit_changes_nothing(pre: Vault_Action, amount: u64, rent_min: u64)
    requires
        deposit_outcome(pre, amount, rent_min) is Err,
    ensures
        deposit_state(pre, amount, rent_min) == pre,
{
}

/// No failed withdraw is partially applied: every failure leaves both
/// accounts exactly as they were.
pub proof fn failed_withdraw_changes_nothing(pre: Vault_Action, program_id: Seq<u8>)
    requires
        withdraw_outcome(pre, program_id) is Err,
    ensures
        withdraw_state(pre, program_id) == pre,
{
}

/// A deposit neither creates nor destroys value: the sum of the owner's
/// and the vault's balances is the same before and after, whether or not
/// it succeeds.
pub proof fn deposit_preserves_total(pre: Vault_Action, amount: u64, rent_min: u64)
    ensures
        deposit_state(pre, amount, rent_min).signer.lamports + deposit_state(pre, amount, rent_min).vault.lamports
            == pre.signer.lamports + pre.vault.lamports,
{
}

/// A withdraw neither creates nor destroys value: the sum of the owner's
/// and the vault's balances is the same before and after, whether or not
/// it succeeds.
pub proof fn withdraw_preserves_total(pre: Vault_Action, program_id: Seq<u8>)
    ensures
        withdraw_state(pre, program_id).signer.lamports + withdraw_state(pre, program_id).vault.lamports
            == pre.signer.lamports + pre.vault.lamports,
{
}

} // verus!
