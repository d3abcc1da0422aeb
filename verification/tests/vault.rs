use blueshift_anchor_vault::{
    check_deposit, deposit, derive_vault_address, withdraw, zero_payload_rent_minimum, Account,
    Vault_Action, VaultError,
};

const RENT_MIN: u64 = 890_880;

fn accounts_with(owner_key: [u8; 32], owner_lamports: u64, vault_key: [u8; 32], vault_lamports: u64) -> Vault_Action {
    Vault_Action {
        signer: Account { key: owner_key, lamports: owner_lamports },
        vault: Account { key: vault_key, lamports: vault_lamports },
    }
}

fn derived_vault_key(owner_key: &[u8; 32], program_id: &[u8; 32]) -> [u8; 32] {
    let (address, _nonce) = derive_vault_address(owner_key, program_id).expect("a key-less address exists");
    address
}

#[test]
fn rent_minimum_matches_ledger_default() {
    assert_eq!(zero_payload_rent_minimum(), RENT_MIN);
}

#[test]
fn deposit_succeeds_and_funds_vault() {
    let mut accs = accounts_with([1; 32], 2_000_000, [2; 32], 0);
    let r = deposit(&mut accs, 1_000_000, RENT_MIN);
    assert_eq!(r, Ok(()));
    assert_eq!(accs.vault.lamports, 1_000_000);
    assert_eq!(accs.signer.lamports, 1_000_000);
}

#[test]
fn deposit_into_used_vault_fails() {
    let mut accs = accounts_with([1; 32], 2_000_000, [2; 32], 1);
    let r = deposit(&mut accs, 1_000_000, RENT_MIN);
    assert_eq!(r, Err(VaultError::VaultAlreadyExists));
    assert_eq!(accs.signer.lamports, 2_000_000);
    assert_eq!(accs.vault.lamports, 1);
}

#[test]
fn deposit_at_or_below_rent_minimum_fails() {
    let mut accs = accounts_with([1; 32], 2_000_000, [2; 32], 0);
    assert_eq!(deposit(&mut accs, RENT_MIN, RENT_MIN), Err(VaultError::InvalidAmmount));
    assert_eq!(deposit(&mut accs, 500, RENT_MIN), Err(VaultError::InvalidAmmount));
    assert_eq!(accs.signer.lamports, 2_000_000);
    assert_eq!(accs.vault.lamports, 0);
}

#[test]
fn used_vault_is_reported_before_the_amount() {
    // The guard's order is observable: both preconditions are violated,
    // and the balance check surfaces first.
    assert_eq!(check_deposit(7, 500, RENT_MIN), Err(VaultError::VaultAlreadyExists));
    assert_eq!(check_deposit(0, 500, RENT_MIN), Err(VaultError::InvalidAmmount));
    assert_eq!(check_deposit(0, RENT_MIN + 1, RENT_MIN), Ok(()));
}

#[test]
fn deposit_with_insufficient_funds_fails() {
    let mut accs = accounts_with([1; 32], 900_000, [2; 32], 0);
    let r = deposit(&mut accs, 1_000_000, RENT_MIN);
    assert_eq!(r, Err(VaultError::InsufficientFunds));
    assert_eq!(accs.signer.lamports, 900_000);
    assert_eq!(accs.vault.lamports, 0);
}

#[test]
fn withdraw_moves_entire_balance() {
    let owner = [3u8; 32];
    let program = [7u8; 32];
    let vault_key = derived_vault_key(&owner, &program);
    let mut accs = accounts_with(owner, 40, vault_key, 1_000_000);
    let r = withdraw(&mut accs, &program);
    assert_eq!(r, Ok(()));
    assert_eq!(accs.vault.lamports, 0);
    assert_eq!(accs.signer.lamports, 1_000_040);
}

#[test]
fn withdraw_from_empty_vault_is_a_silent_no_op() {
    let owner = [3u8; 32];
    let program = [7u8; 32];
    let vault_key = derived_vault_key(&owner, &program);
    let mut accs = accounts_with(owner, 40, vault_key, 0);
    let r = withdraw(&mut accs, &program);
    assert_eq!(r, Ok(()));
    assert_eq!(accs.vault.lamports, 0);
    assert_eq!(accs.signer.lamports, 40);
}

#[test]
fn withdraw_with_wrong_vault_account_fails() {
    let owner = [3u8; 32];
    let program = [7u8; 32];
    let mut accs = accounts_with(owner, 40, [9u8; 32], 1_000_000);
    let r = withdraw(&mut accs, &program);
    assert_eq!(r, Err(VaultError::VaultMismatch));
    assert_eq!(accs.vault.lamports, 1_000_000);
    assert_eq!(accs.signer.lamports, 40);
}

#[test]
fn withdraw_overflowing_the_owner_fails() {
    let owner = [3u8; 32];
    let program = [7u8; 32];
    let vault_key = derived_vault_key(&owner, &program);
    let mut accs = accounts_with(owner, u64::MAX - 2, vault_key, 5);
    let r = withdraw(&mut accs, &program);
    assert_eq!(r, Err(VaultError::Overflow));
    assert_eq!(accs.vault.lamports, 5);
    assert_eq!(accs.signer.lamports, u64::MAX - 2);
}

#[test]
fn distinct_owners_get_distinct_vaults() {
    let program = [7u8; 32];
    let first = derived_vault_key(&[1u8; 32], &program);
    let second = derived_vault_key(&[2u8; 32], &program);
    assert_ne!(first, second);
    // The derived address is not the owner's own key.
    assert_ne!(first, [1u8; 32]);
    assert_ne!(second, [2u8; 32]);
}

#[test]
fn derivation_is_deterministic() {
    let owner = [5u8; 32];
    let program = [7u8; 32];
    let first = derive_vault_address(&owner, &program);
    let second = derive_vault_address(&owner, &program);
    assert_eq!(first, second);
    assert!(first.is_some());
}

#[test]
fn full_deposit_withdraw_cycle() {
    let owner = [11u8; 32];
    let program = [7u8; 32];
    let vault_key = derived_vault_key(&owner, &program);
    let rent_min = zero_payload_rent_minimum();
    assert_eq!(rent_min, RENT_MIN);

    let mut accs = accounts_with(owner, 2_000_000, vault_key, 0);

    // The owner deposits a million units into the empty vault.
    assert_eq!(deposit(&mut accs, 1_000_000, rent_min), Ok(()));
    assert_eq!(accs.vault.lamports, 1_000_000);
    assert_eq!(accs.signer.lamports, 1_000_000);

    // A second deposit finds the vault in use.
    assert_eq!(deposit(&mut accs, 1_000_000, rent_min), Err(VaultError::VaultAlreadyExists));
    assert_eq!(accs.vault.lamports, 1_000_000);

    // Withdrawing returns the entire balance to the owner.
    assert_eq!(withdraw(&mut accs, &program), Ok(()));
    assert_eq!(accs.vault.lamports, 0);
    assert_eq!(accs.signer.lamports, 2_000_000);

    // A tiny deposit into the now-empty vault is rejected by amount.
    assert_eq!(deposit(&mut accs, 500, rent_min), Err(VaultError::InvalidAmmount));
    assert_eq!(accs.vault.lamports, 0);
}
