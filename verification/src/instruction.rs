//! The instructions of the escrow and their wire format.
//!
//! | offset | size | field                                                   |
//! |--------|------|---------------------------------------------------------|
//! | 0      | 1    | opcode: 0 = deposit, 1 = withdraw                       |
//! | 1      | 1    | flag: creator selector (deposit), result (withdraw)     |
//! | 2      | 8    | amount, little-endian                                   |

use vstd::prelude::*;
use crate::bytes::{le_bytes, le_value, lemma_le_value_of_le_bytes, read_u64_le, u64_le_bytes};
use crate::error::{EscrowError, ProgramError};

verus! {

/// The length of an encoded instruction; longer buffers are accepted and the
/// bytes beyond this length ignored.
pub const INSTRUCTION_LEN: usize = 10;

/// A decoded instruction.
#[derive(Debug, Clone, Copy, PartialEq, Eq, Structural)]
pub enum EscrowInstruction {
    /// A deposit into the escrow. `is_creator` is 1 when the depositor is the
    /// creator of the escrow; any other value marks the competitor.
    InitEscrow { is_creator: u8, amount: u64 },
    /// The release of the custody balance. `result` is 1 when the competitor
    /// account takes part in the settlement.
    WithdrawEscrow { result: u8, amount: u64 },
}

impl EscrowInstruction {
    /// The opcode of the instruction.
    pub open spec fn tag(self) -> u8 {
        match self {
            EscrowInstruction::InitEscrow { .. } => 0,
            EscrowInstruction::WithdrawEscrow { .. } => 1,
        }
    }

    /// The flag byte of the instruction.
    pub open spec fn flag(self) -> u8 {
        match self {
            EscrowInstruction::InitEscrow { is_creator, .. } => is_creator,
            EscrowInstruction::WithdrawEscrow { result, .. } => result,
        }
    }

    /// The amount of the instruction.
    pub open spec fn amount(self) -> u64 {
        match self {
            EscrowInstruction::InitEscrow { amount, .. } => amount,
            EscrowInstruction::WithdrawEscrow { amount, .. } => amount,
        }
    }

    /// The instruction with the given opcode, flag and amount.
    pub open spec fn from_parts(tag: u8, flag: u8, amount: u64) -> EscrowInstruction
        recommends
            tag <= 1,
    {
        if tag == 0 {
            EscrowInstruction::InitEscrow { is_creator: flag, amount }
        } else {
            EscrowInstruction::WithdrawEscrow { result: flag, amount }
        }
    }

    /// The amount that a buffer holds in its first eight bytes, if it has as
    /// many.
    pub open spec fn spec_unpack_amount(input: Seq<u8>) -> Result<u64, ProgramError> {
        if input.len() >= 8 {
            Ok(le_value(input.subrange(0, 8)) as u64)
        } else {
            Err(ProgramError::Custom(EscrowError::InvalidInstruction.spec_code()))
        }
    }

    /// What a buffer decodes to. A buffer without an opcode, with an opcode
    /// other than 0 and 1, or without a flag and eight bytes of amount behind
    /// the opcode is no instruction.
    pub open spec fn spec_unpack(input: Seq<u8>) -> Result<EscrowInstruction, ProgramError> {
        if input.len() >= INSTRUCTION_LEN && input[0] <= 1 {
            Ok(
                Self::from_parts(input[0], input[1], le_value(input.subrange(2, 10)) as u64),
            )
        } else {
            Err(ProgramError::Custom(EscrowError::InvalidInstruction.spec_code()))
        }
    }

    /// The encoding of the instruction.
    pub open spec fn spec_pack(self) -> Seq<u8> {
        seq![self.tag(), self.flag()] + le_bytes(self.amount())
    }

    /// Unpacks a byte buffer into an instruction.
    pub fn unpack(input: &[u8]) -> (r: Result<EscrowInstruction, ProgramError>)
        ensures
            r == Self::spec_unpack(input@),
    {
        if input.len() < 1 {
            return Err(ProgramError::from(EscrowError::InvalidInstruction));
        }
        let tag: u8 = input[0];
        if tag > 1 {
            return Err(ProgramError::from(EscrowError::InvalidInstruction));
        }
        if input.len() < 2 {
            return Err(ProgramError::from(EscrowError::InvalidInstruction));
        }
        let flag: u8 = input[1];
        let rest = vstd::slice::slice_subrange(input, 2, input.len());
        let amount = match Self::unpack_amount(rest) {
            Ok(amount) => amount,
            Err(e) => {
                return Err(e);
            },
        };
        assert(rest@.subrange(0, 8) =~= input@.subrange(2, 10));
        if tag == 0 {
            Ok(EscrowInstruction::InitEscrow { is_creator: flag, amount })
        } else {
            Ok(EscrowInstruction::WithdrawEscrow { result: flag, amount })
        }
    }

    /// Reads the amount from the first eight bytes of a buffer.
    pub fn unpack_amount(input: &[u8]) -> (r: Result<u64, ProgramError>)
        ensures
            r == Self::spec_unpack_amount(input@),
    {
        if input.len() < 8 {
            return Err(ProgramError::from(EscrowError::InvalidInstruction));
        }
        Ok(read_u64_le(input, 0))
    }

    /// Packs the instruction into its ten bytes.
    pub fn pack(&self) -> (out: Vec<u8>)
        ensures
            out@ == self.spec_pack(),
    {
        let (tag, flag, amount): (u8, u8, u64) = match self {
            EscrowInstruction::InitEscrow { is_creator, amount } => (0, *is_creator, *amount),
            EscrowInstruction::WithdrawEscrow { result, amount } => (1, *result, *amount),
        };
        let amount_bytes = u64_le_bytes(amount);
        let mut out: Vec<u8> = Vec::with_capacity(INSTRUCTION_LEN);
        out.push(tag);
        out.push(flag);
        let mut i: usize = 0;
        while i < 8
            invariant
                i <= 8,
                amount_bytes@ == le_bytes(amount),
                out@ == seq![tag, flag] + le_bytes(amount).subrange(0, i as int),
            decreases 8 - i,
        {
            out.push(amount_bytes[i]);
            i = i + 1;
            assert(out@ =~= seq![tag, flag] + le_bytes(amount).subrange(0, i as int));
        }
        assert(out@ =~= self.spec_pack());
        out
    }
}

/// Packing an instruction and unpacking the result gives the instruction
/// back: its opcode, its flag byte and its amount.
pub proof fn lemma_unpack_pack(instruction: EscrowInstruction)
    ensures
        instruction.spec_pack().len() == INSTRUCTION_LEN,
        EscrowInstruction::spec_unpack(instruction.spec_pack()) == Ok::<
            EscrowInstruction,
            ProgramError,
        >(instruction),
{
    let packed = instruction.spec_pack();
    lemma_le_value_of_le_bytes(instruction.amount());
    assert(packed.subrange(2, 10) =~= le_bytes(instruction.amount()));
}

/// For any opcode among 0 and 1, any flag byte and any amount, the ten bytes
/// that encode them decode to the same three values.
pub proof fn lemma_unpack_encoded_parts(tag: u8, flag: u8, amount: u64)
    requires
        tag <= 1,
    ensures
        EscrowInstruction::spec_unpack(seq![tag, flag] + le_bytes(amount)) matches Ok(i)
            && i.tag() == tag && i.flag() == flag && i.amount() == amount,
{
    let i = EscrowInstruction::from_parts(tag, flag, amount);
    lemma_unpack_pack(i);
}

/// A buffer of fewer than ten bytes, or one whose opcode is neither 0 nor 1,
/// is rejected as an invalid instruction.
pub proof fn lemma_unpack_rejects(input: Seq<u8>)
    requires
        input.len() < INSTRUCTION_LEN || input[0] > 1,
    ensures
        EscrowInstruction::spec_unpack(input) == Err::<EscrowInstruction, ProgramError>(
            ProgramError::Custom(0),
        ),
{
}

} // verus!
