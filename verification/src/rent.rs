//! The host's minimum-balance rule, read from the account that attests it.
//!
//! The rule itself belongs to the host: an account whose balance is large
//! enough for the size of its data persists indefinitely. The escrow only
//! asks whether the record storage satisfies it.

use vstd::prelude::*;
use solana_program::account_info::AccountInfo;
use solana_program::pubkey::Pubkey;
use solana_program::sysvar::rent::Rent;
use solana_program::sysvar::Sysvar;
use crate::address::{same_address, Address};
use crate::bytes::{le_value, lemma_le_value_bounds, read_u64_le};

verus! {

/// The address of the account in which the host publishes its rent
/// configuration.
pub const RENT_SYSVAR_ID: Address = [
    6, 167, 213, 23, 25, 44, 92, 81, 33, 140, 201, 76, 61, 74, 241, 127, 88, 218, 238, 8, 155,
    161, 253, 68, 227, 219, 217, 138, 0, 0, 0, 0,
];

/// The length of an encoded rent configuration: the rate as a 64-bit
/// integer, eight bytes of exemption threshold and one byte of burn
/// percentage.
pub const RENT_CONFIG_LEN: usize = 17;

/// The number of bytes that the host adds to the size of an account's data
/// when it computes the minimum balance.
pub const ACCOUNT_STORAGE_OVERHEAD: u64 = 128;

/// The rental rate that an encoded rent configuration starts with.
pub open spec fn lamports_per_byte_year(data: Seq<u8>) -> int
    recommends
        data.len() >= 8,
{
    le_value(data.subrange(0, 8))
}

/// The host multiplies the padded size of the data with the rental rate in
/// 64-bit arithmetic. This says that the product fits, for an account that
/// holds a rent configuration; of any other account it holds trivially.
pub open spec fn rent_formula_fits(key: Seq<u8>, data: Seq<u8>, data_len: usize) -> bool {
    key == RENT_SYSVAR_ID@ && data.len() >= RENT_CONFIG_LEN ==> (ACCOUNT_STORAGE_OVERHEAD
        + data_len) * lamports_per_byte_year(data) <= u64::MAX && ACCOUNT_STORAGE_OVERHEAD
        + data_len <= u64::MAX
}

/// Whether a balance of `balance` exempts an account with `data_len` bytes of
/// data from rent, according to the rent configuration stored in `data` at
/// the account `key`; `None` where the account holds no rent configuration.
pub uninterp spec fn rent_exemption(key: Seq<u8>, data: Seq<u8>, balance: u64, data_len: usize) -> Option<
    bool,
>;

/// Calls `solana_program::sysvar::Sysvar::from_account_info` for
/// `solana_program::rent::Rent` on an account with the given address and
/// data, and `Rent::is_exempt` on the configuration it reads. Trusted: the
/// result is a function of the arguments alone, named `rent_exemption`, and
/// it is `None` for an account at any address but `RENT_SYSVAR_ID`. The
/// precondition leaves out the configurations on which the host's 64-bit
/// multiplication overflows.
#[verifier::external_body]
pub(crate) fn rent_is_exempt(key: &Address, data: &[u8], balance: u64, data_len: usize) -> (r:
    Option<bool>)
    requires
        rent_formula_fits(key@, data@, data_len),
    ensures
        r == rent_exemption(key@, data@, balance, data_len),
        key@ != RENT_SYSVAR_ID@ ==> r is None,
{
    let key = Pubkey::new_from_array(*key);
    let mut lamports: u64 = 0;
    let mut data = data.to_vec();
    let info = AccountInfo::new(&key, false, false, &mut lamports, &mut data, &key, false, 0);
    match Rent::from_account_info(&info) {
        Ok(rent) => Some(rent.is_exempt(balance, data_len)),
        Err(_) => None,
    }
}

/// Tells whether the host's formula fits for the given attestation account
/// and size of data.
pub fn check_rent_formula(key: &Address, data: &[u8], data_len: usize) -> (fits: bool)
    ensures
        fits == rent_formula_fits(key@, data@, data_len),
{
    let id = RENT_SYSVAR_ID;
    if !same_address(key, &id) || data.len() < RENT_CONFIG_LEN {
        return true;
    }
    let rate: u64 = read_u64_le(data, 0);
    proof {
        lemma_le_value_bounds(data@.subrange(0, 8));
    }
    let padded: u128 = data_len as u128 + ACCOUNT_STORAGE_OVERHEAD as u128;
    if padded > 0xffff_ffff_ffff_ffff {
        return false;
    }
    assert(padded * rate <= 0xffff_ffff_ffff_ffff * 0xffff_ffff_ffff_ffff) by (nonlinear_arith)
        requires
            0 <= padded <= 0xffff_ffff_ffff_ffff,
            0 <= rate <= 0xffff_ffff_ffff_ffff,
    ;
    padded * (rate as u128) <= 0xffff_ffff_ffff_ffff
}

} // verus!
