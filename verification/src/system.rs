//! Instructions to the host's system program, which moves native tokens
//! between accounts.

use vstd::prelude::*;
use solana_program::pubkey::Pubkey;
use solana_program::system_instruction;
use crate::address::Address;
use crate::bytes::le_bytes;

verus! {

/// How an instruction uses one account.
#[derive(Debug, Clone, Copy, PartialEq, Eq)]
pub struct AccountMeta {
    /// The address of the account.
    pub pubkey: Address,
    /// Whether the account must authorize the instruction.
    pub is_signer: bool,
    /// Whether the instruction may change the account.
    pub is_writable: bool,
}

/// The mathematical value of an `AccountMeta`.
pub struct AccountMetaView {
    pub pubkey: Seq<u8>,
    pub is_signer: bool,
    pub is_writable: bool,
}

impl View for AccountMeta {
    type V = AccountMetaView;

    open spec fn view(&self) -> AccountMetaView {
        AccountMetaView {
            pubkey: self.pubkey@,
            is_signer: self.is_signer,
            is_writable: self.is_writable,
        }
    }
}

impl AccountMeta {
    /// Describes the use of the account at `pubkey`.
    pub fn new(pubkey: Address, is_signer: bool, is_writable: bool) -> (meta: AccountMeta)
        ensures
            meta@ == (AccountMetaView { pubkey: pubkey@, is_signer, is_writable }),
    {
        AccountMeta { pubkey, is_signer, is_writable }
    }
}

/// An instruction that the host is asked to execute.
#[derive(Debug, Clone, PartialEq, Eq)]
pub struct Instruction {
    /// The program that executes the instruction.
    pub program_id: Address,
    /// The accounts that the instruction uses, in the order the program
    /// expects.
    pub accounts: Vec<AccountMeta>,
    /// The encoded operation.
    pub data: Vec<u8>,
}

/// The mathematical value of an `Instruction`.
pub struct InstructionView {
    pub program_id: Seq<u8>,
    pub accounts: Seq<AccountMetaView>,
    pub data: Seq<u8>,
}

impl View for Instruction {
    type V = InstructionView;

    open spec fn view(&self) -> InstructionView {
        InstructionView {
            program_id: self.program_id@,
            accounts: self.accounts@.map_values(|meta: AccountMeta| meta@),
            data: self.data@,
        }
    }
}

/// The address of the system program: 32 zero bytes.
pub open spec fn system_program_id() -> Seq<u8> {
    Seq::new(32, |i: int| 0u8)
}

/// The opcode of a transfer among the operations of the system program.
pub const TRANSFER_OPCODE: u8 = 2;

/// The instruction that moves `lamports` native token units from `from` to
/// `to`. Both accounts are written; `from` must authorize the transfer. The
/// data are the opcode as a 32-bit and the amount as a 64-bit little-endian
/// integer.
pub open spec fn transfer_instruction(from: Seq<u8>, to: Seq<u8>, lamports: u64) -> InstructionView {
    InstructionView {
        program_id: system_program_id(),
        accounts: seq![
            AccountMetaView { pubkey: from, is_signer: true, is_writable: true },
            AccountMetaView { pubkey: to, is_signer: false, is_writable: true },
        ],
        data: seq![TRANSFER_OPCODE, 0u8, 0u8, 0u8] + le_bytes(lamports),
    }
}

/// Calls `solana_program::system_instruction::transfer`. Trusted: the result
/// is addressed to the system program, names `from` as writable signer and
/// `to` as writable, and carries the data that `transfer_instruction`
/// describes.
#[verifier::external_body]
pub(crate) fn transfer(from: &Address, to: &Address, lamports: u64) -> (instruction: Instruction)
    ensures
        instruction@ == transfer_instruction(from@, to@, lamports),
{
    let from = Pubkey::new_from_array(*from);
    let to = Pubkey::new_from_array(*to);
    let ix = system_instruction::transfer(&from, &to, lamports);
    Instruction {
        program_id: ix.program_id.to_bytes(),
        accounts: ix.accounts.iter().map(
            |m| AccountMeta::new(m.pubkey.to_bytes(), m.is_signer, m.is_writable),
        ).collect(),
        data: ix.data,
    }
}

} // verus!
