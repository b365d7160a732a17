//! The escrow record and its binary layout.
//!
//! | offset | size | field                                |
//! |--------|------|--------------------------------------|
//! | 0      | 1    | initialized flag, 0 or 1             |
//! | 1      | 32   | address of the creator               |
//! | 33     | 32   | address of the competitor            |
//! | 65     | 8    | amount, little-endian                |

use vstd::prelude::*;
use crate::address::{read_address, write_bytes, Address};
use crate::bytes::{
    le_bytes, le_value, lemma_le_bytes_of_le_value, lemma_le_value_of_le_bytes, read_u64_le,
    u64_le_bytes,
};
use crate::error::ProgramError;

verus! {

/// The state of one escrow, the only persistent entity.
#[derive(Debug, Clone, Copy, PartialEq, Eq)]
pub struct Escrow {
    /// Set by the first deposit, and never cleared.
    pub is_initialized: bool,
    /// The depositor of the creator's deposit.
    pub creator_address: Address,
    /// The depositor of the competitor's deposit.
    pub competitor_address: Address,
    /// The settlement size, in native token units.
    pub amount: u64,
}

/// The mathematical value of an escrow record.
pub struct EscrowView {
    pub is_initialized: bool,
    pub creator_address: Seq<u8>,
    pub competitor_address: Seq<u8>,
    pub amount: u64,
}

impl View for Escrow {
    type V = EscrowView;

    open spec fn view(&self) -> EscrowView {
        EscrowView {
            is_initialized: self.is_initialized,
            creator_address: self.creator_address@,
            competitor_address: self.competitor_address@,
            amount: self.amount,
        }
    }
}

impl EscrowView {
    /// Both addresses have the length of an address. The view of every
    /// `Escrow` is well formed.
    pub open spec fn wf(self) -> bool {
        self.creator_address.len() == 32 && self.competitor_address.len() == 32
    }

    /// The 73 bytes that store the record.
    pub open spec fn pack(self) -> Seq<u8> {
        seq![if self.is_initialized { 1u8 } else { 0u8 }] + self.creator_address
            + self.competitor_address + le_bytes(self.amount)
    }

    /// The record that the first 73 bytes of a buffer store. The flag byte
    /// must be 0 or 1.
    pub open spec fn unpack_from_slice(src: Seq<u8>) -> Result<EscrowView, ProgramError>
        recommends
            src.len() >= Escrow::LEN,
    {
        if src[0] <= 1 {
            Ok(
                EscrowView {
                    is_initialized: src[0] == 1,
                    creator_address: src.subrange(1, 33),
                    competitor_address: src.subrange(33, 65),
                    amount: le_value(src.subrange(65, 73)) as u64,
                },
            )
        } else {
            Err(ProgramError::InvalidAccountData)
        }
    }

    /// Lenient decoding: the record that a buffer of exactly 73 bytes stores,
    /// initialized or not. A buffer of zeros is the record of a storage that
    /// no deposit has touched yet.
    pub open spec fn unpack_unchecked(input: Seq<u8>) -> Result<EscrowView, ProgramError> {
        if input.len() != Escrow::LEN {
            Err(ProgramError::InvalidAccountData)
        } else {
            Self::unpack_from_slice(input)
        }
    }

    /// Strict decoding: as the lenient one, but a record that is not
    /// initialized is rejected too.
    pub open spec fn unpack(input: Seq<u8>) -> Result<EscrowView, ProgramError> {
        match Self::unpack_unchecked(input) {
            Ok(record) => if record.is_initialized {
                Ok(record)
            } else {
                Err(ProgramError::UninitializedAccount)
            },
            Err(e) => Err(e),
        }
    }
}

/// Relates the outcome of a decoding function to what the buffer stores.
pub open spec fn decodes_as(
    r: Result<Escrow, ProgramError>,
    expected: Result<EscrowView, ProgramError>,
) -> bool {
    match r {
        Ok(record) => expected == Ok::<EscrowView, ProgramError>(record@),
        Err(e) => expected == Err::<EscrowView, ProgramError>(e),
    }
}

impl Escrow {
    /// The length of a stored record in bytes.
    pub const LEN: usize = 73;

    /// Returns the length of a stored record in bytes.
    pub fn get_packed_len() -> (len: usize)
        ensures
            len == Escrow::LEN,
    {
        Escrow::LEN
    }

    /// Tells whether a deposit has initialized the record.
    pub fn is_initialized(&self) -> (b: bool)
        ensures
            b == self.is_initialized,
    {
        self.is_initialized
    }

    /// Decodes the record stored in the first 73 bytes of `src`.
    pub fn unpack_from_slice(src: &[u8]) -> (r: Result<Escrow, ProgramError>)
        requires
            src@.len() >= Escrow::LEN,
        ensures
            decodes_as(r, EscrowView::unpack_from_slice(src@)),
    {
        let flag: u8 = src[0];
        let is_initialized = if flag == 0 {
            false
        } else if flag == 1 {
            true
        } else {
            return Err(ProgramError::InvalidAccountData);
        };
        Ok(
            Escrow {
                is_initialized,
                creator_address: read_address(src, 1),
                competitor_address: read_address(src, 33),
                amount: read_u64_le(src, 65),
            },
        )
    }

    /// Encodes the record into the first 73 bytes of `dst` and leaves any
    /// further bytes as they are.
    pub fn pack_into_slice(&self, dst: &mut [u8])
        requires
            old(dst)@.len() >= Escrow::LEN,
        ensures
            final(dst)@ == self@.pack() + old(dst)@.subrange(
                Escrow::LEN as int,
                old(dst)@.len() as int,
            ),
    {
        let flag: [u8; 1] = [if self.is_initialized { 1u8 } else { 0u8 }];
        let amount = u64_le_bytes(self.amount);
        write_bytes(dst, 0, flag.as_slice());
        write_bytes(dst, 1, self.creator_address.as_slice());
        write_bytes(dst, 33, self.competitor_address.as_slice());
        write_bytes(dst, 65, amount.as_slice());
        assert(dst@ =~= self@.pack() + old(dst)@.subrange(
            Escrow::LEN as int,
            old(dst)@.len() as int,
        ));
    }

    /// Lenient decoding: accepts a buffer of exactly 73 bytes whose flag byte
    /// is 0 or 1, whether or not the record is initialized.
    pub fn unpack_unchecked(input: &[u8]) -> (r: Result<Escrow, ProgramError>)
        ensures
            decodes_as(r, EscrowView::unpack_unchecked(input@)),
    {
        if input.len() != Escrow::LEN {
            return Err(ProgramError::InvalidAccountData);
        }
        Escrow::unpack_from_slice(input)
    }

    /// Strict decoding: accepts a buffer of exactly 73 bytes that stores an
    /// initialized record.
    pub fn unpack(input: &[u8]) -> (r: Result<Escrow, ProgramError>)
        ensures
            decodes_as(r, EscrowView::unpack(input@)),
    {
        match Escrow::unpack_unchecked(input) {
            Ok(record) => {
                if record.is_initialized() {
                    Ok(record)
                } else {
                    Err(ProgramError::UninitializedAccount)
                }
            },
            Err(e) => Err(e),
        }
    }

    /// Encodes `src` into `dst`, which must have exactly 73 bytes; a buffer
    /// of another length is refused and left untouched.
    pub fn pack(src: Escrow, dst: &mut [u8]) -> (r: Result<(), ProgramError>)
        ensures
            old(dst)@.len() == Escrow::LEN ==> r is Ok && final(dst)@ == src@.pack(),
            old(dst)@.len() != Escrow::LEN ==> r == Err::<(), ProgramError>(
                ProgramError::InvalidAccountData,
            ) && final(dst)@ == old(dst)@,
    {
        if dst.len() != Escrow::LEN {
            return Err(ProgramError::InvalidAccountData);
        }
        src.pack_into_slice(dst);
        assert(dst@ =~= src@.pack());
        Ok(())
    }
}

/// A stored record has 73 bytes.
pub proof fn lemma_pack_len(record: EscrowView)
    requires
        record.wf(),
    ensures
        record.pack().len() == Escrow::LEN,
{
}

/// Decoding a well-formed buffer of 73 bytes and encoding the record gives
/// the buffer back.
pub proof fn lemma_pack_unpack(bytes: Seq<u8>)
    requires
        bytes.len() == Escrow::LEN,
        bytes[0] <= 1,
    ensures
        EscrowView::unpack_unchecked(bytes) matches Ok(record) && record.wf() && record.pack()
            == bytes,
{
    let record = EscrowView::unpack_unchecked(bytes)->Ok_0;
    lemma_le_bytes_of_le_value(bytes.subrange(65, 73));
    assert(record.pack() =~= bytes);
}

/// Encoding a record and decoding the bytes gives the record back.
pub proof fn lemma_unpack_pack(record: EscrowView)
    requires
        record.wf(),
    ensures
        EscrowView::unpack_unchecked(record.pack()) == Ok::<EscrowView, ProgramError>(record),
{
    let bytes = record.pack();
    lemma_le_value_of_le_bytes(record.amount);
    assert(bytes.subrange(1, 33) =~= record.creator_address);
    assert(bytes.subrange(33, 65) =~= record.competitor_address);
    assert(bytes.subrange(65, 73) =~= le_bytes(record.amount));
}

/// A flag byte other than 0 and 1 fails both decodings, and a record that is
/// not initialized fails the strict one.
pub proof fn lemma_unpack_rejects(bytes: Seq<u8>)
    requires
        bytes.len() == Escrow::LEN,
    ensures
        bytes[0] > 1 ==> EscrowView::unpack(bytes) == Err::<EscrowView, ProgramError>(
            ProgramError::InvalidAccountData,
        ) && EscrowView::unpack_unchecked(bytes) == Err::<EscrowView, ProgramError>(
            ProgramError::InvalidAccountData,
        ),
        bytes[0] == 0 ==> EscrowView::unpack(bytes) == Err::<EscrowView, ProgramError>(
            ProgramError::UninitializedAccount,
        ) && EscrowView::unpack_unchecked(bytes) is Ok,
        bytes[0] == 1 ==> EscrowView::unpack(bytes) == EscrowView::unpack_unchecked(bytes)
            && EscrowView::unpack(bytes) is Ok,
{
}

} // verus!
