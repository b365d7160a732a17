//! The 32-byte identifiers of accounts and programs.

use vstd::prelude::*;

verus! {

/// The length of an address in bytes.
pub const ADDRESS_LEN: usize = 32;

/// The identifier of an account or of a program.
pub type Address = [u8; 32];

/// Tells whether two addresses are the same.
pub fn same_address(a: &Address, b: &Address) -> (same: bool)
    ensures
        same == (a@ == b@),
{
    let mut i: usize = 0;
    while i < ADDRESS_LEN
        invariant
            i <= ADDRESS_LEN,
            forall|j: int| 0 <= j < i ==> a@[j] == b@[j],
        decreases ADDRESS_LEN - i,
    {
        if a[i] != b[i] {
            return false;
        }
        i = i + 1;
    }
    assert(a@ =~= b@);
    true
}

/// Reads the address stored in `src[at..at + 32]`.
pub fn read_address(src: &[u8], at: usize) -> (address: Address)
    requires
        at + ADDRESS_LEN <= src@.len(),
    ensures
        address@ == src@.subrange(at as int, at + ADDRESS_LEN),
{
    let n: usize = src.len();
    let mut address: Address = [0u8; 32];
    let mut i: usize = 0;
    while i < ADDRESS_LEN
        invariant
            i <= ADDRESS_LEN,
            n == src@.len(),
            at + ADDRESS_LEN <= n,
            forall|j: int| 0 <= j < i ==> address@[j] == src@[at + j],
        decreases ADDRESS_LEN - i,
    {
        address[i] = src[at + i];
        i = i + 1;
    }
    assert(address@ =~= src@.subrange(at as int, at + ADDRESS_LEN));
    address
}

/// Copies `bytes` into `dst[at..at + bytes.len()]` and leaves the rest of
/// `dst` as it is.
pub fn write_bytes(dst: &mut [u8], at: usize, bytes: &[u8])
    requires
        at + bytes@.len() <= old(dst)@.len(),
    ensures
        final(dst)@ == old(dst)@.subrange(0, at as int) + bytes@ + old(dst)@.subrange(
            at + bytes@.len(),
            old(dst)@.len() as int,
        ),
{
    let n: usize = dst.len();
    let m: usize = bytes.len();
    let mut i: usize = 0;
    while i < m
        invariant
            i <= m,
            m == bytes@.len(),
            n == dst@.len(),
            n == old(dst)@.len(),
            at + m <= n,
            forall|j: int| 0 <= j < i ==> dst@[at + j] == bytes@[j],
            forall|j: int| 0 <= j < n && !(at <= j < at + i) ==> dst@[j] == old(dst)@[j],
        decreases m - i,
    {
        dst[at + i] = bytes[i];
        i = i + 1;
    }
    assert(dst@ =~= old(dst)@.subrange(0, at as int) + bytes@ + old(dst)@.subrange(
        at + bytes@.len(),
        old(dst)@.len() as int,
    ));
}

} // verus!
