use vstd::prelude::*;

verus! {

/// What the ledger's deterministic address-derivation primitive returns
/// for a given tag, owner key and program identity: the derived key-less
/// address together with the nonce that produced it, or nothing when no
/// nonce in the bounded search space yields an address outside the set of
/// addresses with a private key. The result is a function of the three
/// inputs alone, so identical inputs always derive the identical address.
pub uninterp spec fn pda_of(tag: Seq<u8>, owner: Seq<u8>, program_id: Seq<u8>) -> Option<(Seq<u8>, u8)>;

/// A derivation result as its mathematical value: the derived address as a
/// byte sequence, with its nonce.
pub open spec fn derivation_view(r: Option<([u8; 32], u8)>) -> Option<(Seq<u8>, u8)> {
    match r {
        Some(p) => Some((p.0@, p.1)),
        None => None,
    }
}

/// Relies on `Pubkey::try_find_program_address` of the ledger SDK: a
/// deterministic search, over a bounded space of nonce candidates, for an
/// address derived by hashing the seeds, the nonce and the program
/// identity that lies outside the set of addresses with a private key. It
/// returns `None` when no candidate qualifies, and it never panics.
#[verifier::external_body]
fn find_pda(tag: &[u8], owner: &[u8; 32], program_id: &[u8; 32]) -> (r: Option<([u8; 32], u8)>)
    ensures
        derivation_view(r) == pda_of(tag@, owner@, program_id@),
{
    let program = anchor_lang::prelude::Pubkey::new_from_array(*program_id);
    anchor_lang::prelude::Pubkey::try_find_program_address(&[tag, owner.as_ref()], &program)
        .map(|(address, nonce)| (address.to_bytes(), nonce))
}

/// The fixed tag under which every vault address is derived: the bytes of
/// `"vault"` in ASCII.
pub open spec fn vault_tag() -> Seq<u8> {
    seq![118u8, 97u8, 117u8, 108u8, 116u8]
}

/// The fixed tag as an executable value.
fn vault_tag_bytes() -> (r: Vec<u8>)
    ensures
        r@ == vault_tag(),
{
    let mut v: Vec<u8> = Vec::new();
    v.push(118);
    v.push(97);
    v.push(117);
    v.push(108);
    v.push(116);
    proof {
        assert(v@ =~= vault_tag());
    }
    v
}

/// Derives the vault address for `owner_key` under `program_id`.
///
/// The result is a pure function of the owner key and the program
/// identity: calling this twice on the same inputs yields the same address
/// and nonce. `None` is returned only when no nonce in the search space
/// yields a key-less address.
pub fn derive_vault_address(owner_key: &[u8; 32], program_id: &[u8; 32]) -> (r: Option<([u8; 32], u8)>)
    ensures
        derivation_view(r) == pda_of(vault_tag(), owner_key@, program_id@),
{
    let tag = vault_tag_bytes();
    find_pda(tag.as_slice(), owner_key, program_id)
}

/// Compares two 32-byte addresses for equality.
pub fn bytes32_eq(a: &[u8; 32], b: &[u8; 32]) -> (r: bool)
    ensures
        r == (a@ == b@),
{
    let mut i: usize = 0;
    while i < 32
        invariant
            i <= 32,
            forall|j: int| 0 <= j < i ==> a@[j] == b@[j],
        decreases 32 - i,
    {
        if a[i] != b[i] {
            return false;
        }
        i = i + 1;
    }
    proof {
        assert(a@ =~= b@);
    }
    true
}

} // verus!
