use vstd::prelude::*;

verus! {

/// Relies on `Rent::default` and `Rent::minimum_balance` of the ledger
/// SDK: under the default economics (3480 native units per byte-year, 128
/// bytes of storage overhead per account, an exemption threshold of two
/// years) the minimum sustainable balance for an account with `data_len`
/// bytes of payload is `(128 + data_len) * 3480 * 2`. The bound on
/// `data_len` keeps that product in the range where the SDK computes it
/// exactly.
#[verifier::external_body]
fn default_rent_minimum(data_len: usize) -> (r: u64)
    requires
        data_len <= 0x100000,
    ensures
        r == (128 + data_len) * 6960,
{
    anchor_lang::prelude::Rent::default().minimum_balance(data_len)
}

/// The rent-exempt minimum for a zero-payload account under the ledger's
/// default economics: the threshold a deposit must strictly exceed.
pub fn zero_payload_rent_minimum() -> (r: u64)
    ensures
        r == 890880,
{
    default_rent_minimum(0)
}

} // verus!
