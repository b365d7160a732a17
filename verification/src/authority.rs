//! The keyless signing authority of the custody balance.
//!
//! The custody balance is held at an address derived from a fixed seed and
//! the program's own address. No private key exists for it: a debit is
//! authorized by presenting the seed and the derivation nonce, which the host
//! recomputes to confirm that they yield the address.

use vstd::prelude::*;
use solana_program::pubkey::Pubkey;
use crate::address::Address;

verus! {

/// The fixed domain seed of the custody address: the ASCII bytes of `chess`.
pub const CUSTODY_SEED: [u8; 5] = [0x63, 0x68, 0x65, 0x73, 0x73];

/// The fixed domain seed as a sequence of bytes.
pub open spec fn custody_seed() -> Seq<u8> {
    seq![0x63u8, 0x68u8, 0x65u8, 0x73u8, 0x73u8]
}

/// The program-derived address that the host finds for `seeds` and
/// `program_id`, with its nonce; `None` where no nonce yields an address.
pub uninterp spec fn program_address(seeds: Seq<Seq<u8>>, program_id: Seq<u8>) -> Option<
    (Seq<u8>, u8),
>;

/// Calls `solana_program::pubkey::Pubkey::try_find_program_address` with the
/// single seed `seed`. Trusted: the result is a function of the seed and the
/// program's address alone, named `program_address`.
#[verifier::external_body]
pub(crate) fn find_program_address(seed: &[u8], program_id: &Address) -> (found: Option<
    (Address, u8),
>)
    ensures
        match found {
            Some((address, nonce)) => program_address(seq![seed@], program_id@) == Some(
                (address@, nonce),
            ),
            None => program_address(seq![seed@], program_id@) is None,
        },
{
    let program_id = Pubkey::new_from_array(*program_id);
    match Pubkey::try_find_program_address(&[seed], &program_id) {
        Some((address, nonce)) => Some((address.to_bytes(), nonce)),
        None => None,
    }
}

/// The credential that authorizes debits of a program-derived address: the
/// seed and the nonce that reproduce the address.
#[derive(Debug, Clone, PartialEq, Eq)]
pub struct Authority {
    pub seed: Vec<u8>,
    pub nonce: u8,
}

/// The mathematical value of an `Authority`.
pub struct AuthorityView {
    pub seed: Seq<u8>,
    pub nonce: u8,
}

impl View for Authority {
    type V = AuthorityView;

    open spec fn view(&self) -> AuthorityView {
        AuthorityView { seed: self.seed@, nonce: self.nonce }
    }
}

impl AuthorityView {
    /// The seeds that are presented to the host: the seed, then the nonce as
    /// a seed of one byte.
    pub open spec fn signer_seeds(self) -> Seq<Seq<u8>> {
        seq![self.seed, seq![self.nonce]]
    }

    /// The authority over the address derived from `seed` and `program_id`,
    /// given what the derivation found.
    pub open spec fn from_derivation(seed: Seq<u8>, found: Option<(Seq<u8>, u8)>) -> Option<
        AuthorityView,
    > {
        match found {
            Some((_, nonce)) => Some(AuthorityView { seed, nonce }),
            None => None,
        }
    }

    /// The authority over the custody address of the program at
    /// `program_id`.
    pub open spec fn custody(program_id: Seq<u8>) -> Option<AuthorityView> {
        Self::from_derivation(
            custody_seed(),
            program_address(seq![custody_seed()], program_id),
        )
    }
}

/// The views of the seeds in a list.
pub open spec fn seeds_view(seeds: Seq<Vec<u8>>) -> Seq<Seq<u8>> {
    seeds.map_values(|seed: Vec<u8>| seed@)
}

impl Authority {
    /// Derives the address that `seed` and `program_id` yield, and the
    /// authority over it. This is the only place where an authority is made.
    pub fn derive(seed: &[u8], program_id: &Address) -> (r: Option<(Address, Authority)>)
        ensures
            match r {
                Some((address, authority)) => program_address(seq![seed@], program_id@) == Some(
                    (address@, authority.nonce),
                ) && authority.seed@ == seed@,
                None => program_address(seq![seed@], program_id@) is None,
            },
    {
        match find_program_address(seed, program_id) {
            Some((address, nonce)) => Some(
                (address, Authority { seed: vstd::slice::slice_to_vec(seed), nonce }),
            ),
            None => None,
        }
    }

    /// Derives the custody address of the program at `program_id` and the
    /// authority over it.
    pub fn custody(program_id: &Address) -> (r: Option<(Address, Authority)>)
        ensures
            match r {
                Some((address, authority)) => program_address(
                    seq![custody_seed()],
                    program_id@,
                ) == Some((address@, authority.nonce)) && AuthorityView::custody(program_id@)
                    == Some(authority@),
                None => AuthorityView::custody(program_id@) is None,
            },
    {
        let seed = CUSTODY_SEED;
        assert(seed@ =~= custody_seed());
        Authority::derive(seed.as_slice(), program_id)
    }

    /// Returns the seeds that are presented to the host.
    pub fn signer_seeds(&self) -> (seeds: Vec<Vec<u8>>)
        ensures
            seeds_view(seeds@) == self@.signer_seeds(),
    {
        let mut nonce: Vec<u8> = Vec::new();
        nonce.push(self.nonce);
        let mut seeds: Vec<Vec<u8>> = Vec::new();
        seeds.push(vstd::slice::slice_to_vec(self.seed.as_slice()));
        seeds.push(nonce);
        assert(seeds_view(seeds@) =~= self@.signer_seeds());
        seeds
    }
}

} // verus!
