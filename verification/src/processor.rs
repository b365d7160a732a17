//! The handlers of the escrow's instructions.
//!
//! A handler validates the accounts it is given, computes the new escrow
//! record and plans the transfers. It changes nothing itself: what it
//! returns tells the host what to store and which instructions to execute.
//! The host commits the effects of an invocation together, or none of them.

use vstd::prelude::*;
use crate::account::{
    views, yields, Account, AccountView, Invocation, InvocationView, Outcome, OutcomeView, Store,
    StoreView,
};
use crate::address::{same_address, Address};
use crate::authority::{Authority, AuthorityView};
use crate::error::{EscrowError, ProgramError};
use crate::instruction::EscrowInstruction;
use crate::rent::{check_rent_formula, rent_exemption, rent_formula_fits, rent_is_exempt};
use crate::state::{Escrow, EscrowView};
use crate::system::{transfer, transfer_instruction};

verus! {

/// Position of the depositor among the accounts of a deposit.
pub const DEPOSITOR: usize = 0;

/// Position of the fee recipient among the accounts of a deposit.
pub const FEE_RECIPIENT: usize = 1;

/// Position of the admin recipient among the accounts of a deposit.
pub const ADMIN_RECIPIENT: usize = 2;

/// Position of the record storage among the accounts of a deposit.
pub const DEPOSIT_RECORD: usize = 3;

/// Position of the custody address among the accounts of a deposit.
pub const DEPOSIT_CUSTODY: usize = 4;

/// Position of the minimum-balance attestation among the accounts of a
/// deposit.
pub const RENT_ATTESTATION: usize = 5;

/// Position of the system program among the accounts of a deposit.
pub const DEPOSIT_SYSTEM_PROGRAM: usize = 6;

/// Position of the admin among the accounts of a withdrawal.
pub const ADMIN: usize = 0;

/// Position of the record storage among the accounts of a withdrawal.
pub const WITHDRAW_RECORD: usize = 1;

/// Position of the custody address among the accounts of a withdrawal.
pub const WITHDRAW_CUSTODY: usize = 2;

/// Position of the system program among the accounts of a withdrawal.
pub const WITHDRAW_SYSTEM_PROGRAM: usize = 3;

/// Position of the creator among the accounts of a withdrawal.
pub const CREATOR: usize = 4;

/// Position of the competitor among the accounts of a withdrawal whose
/// result is 1. The destination follows the last of the parties given.
pub const COMPETITOR: usize = 5;

/// The share of a deposit that goes to the fee recipient: 19 thousandths,
/// rounded down.
pub open spec fn fee_share(amount: u64) -> u64 {
    (amount * 19 / 1000) as u64
}

/// The share of a deposit that goes to the admin recipient: one thousandth,
/// rounded down.
pub open spec fn admin_share(amount: u64) -> u64 {
    (amount * 1 / 1000) as u64
}

/// The share of a deposit that goes to the custody address, and the share of
/// the settled amount that a withdrawal releases: 98 hundredths, rounded
/// down.
pub open spec fn custody_share(amount: u64) -> u64 {
    (amount * 98 / 100) as u64
}

/// The record after a deposit of `amount` by `depositor`. The creator's
/// deposit sets the amount; the competitor's is added to it, modulo 2^64.
pub open spec fn deposit_record(
    record: EscrowView,
    depositor: Seq<u8>,
    is_creator: u8,
    amount: u64,
) -> EscrowView {
    if is_creator == 1 {
        EscrowView {
            is_initialized: true,
            creator_address: depositor,
            competitor_address: record.competitor_address,
            amount,
        }
    } else {
        EscrowView {
            is_initialized: true,
            creator_address: record.creator_address,
            competitor_address: depositor,
            amount: ((record.amount + amount) % 0x1_0000_0000_0000_0000) as u64,
        }
    }
}

/// The request to move `lamports` from the account at position `source` to
/// the one at `destination`.
pub open spec fn transfer_request(
    accounts: Seq<AccountView>,
    source: usize,
    destination: usize,
    system_program: usize,
    lamports: u64,
    authority: Option<AuthorityView>,
) -> InvocationView {
    InvocationView {
        instruction: transfer_instruction(
            accounts[source as int].key,
            accounts[destination as int].key,
            lamports,
        ),
        accounts: seq![source, destination, system_program],
        authority,
        abort_on_failure: authority is None,
    }
}

/// The plain result of a handler that fails with an error of the escrow.
pub open spec fn escrow_failure(e: EscrowError) -> Result<OutcomeView, ProgramError> {
    Err(ProgramError::Custom(e.spec_code()))
}

/// The handlers of the escrow, one for each instruction, and their dispatch.
pub struct Processor;

impl Processor {
    /// Whether a deposit gets as far as to ask the minimum-balance rule: the
    /// depositor has signed and the accounts reach as far as the
    /// attestation.
    pub open spec fn asks_rent(accounts: Seq<AccountView>) -> bool {
        accounts.len() > RENT_ATTESTATION && accounts[DEPOSITOR as int].is_signer
    }

    /// What the host's minimum-balance rule says of the record storage of a
    /// deposit that asks it.
    pub open spec fn spec_exemption(accounts: Seq<AccountView>) -> Option<bool> {
        if Self::asks_rent(accounts) {
            rent_exemption(
                accounts[RENT_ATTESTATION as int].key,
                accounts[RENT_ATTESTATION as int].data,
                accounts[DEPOSIT_RECORD as int].lamports,
                accounts[DEPOSIT_RECORD as int].data.len() as usize,
            )
        } else {
            None
        }
    }

    /// The host's minimum-balance formula fits its 64-bit arithmetic on the
    /// accounts of a deposit that asks the rule.
    pub open spec fn rent_guard(accounts: Seq<AccountView>) -> bool {
        Self::asks_rent(accounts) ==> rent_formula_fits(
            accounts[RENT_ATTESTATION as int].key,
            accounts[RENT_ATTESTATION as int].data,
            accounts[DEPOSIT_RECORD as int].data.len() as usize,
        )
    }

    /// What a deposit returns, `exemption` being what the minimum-balance rule
    /// says of the record storage.
    pub open spec fn spec_deposit(
        accounts: Seq<AccountView>,
        is_creator: u8,
        amount: u64,
        exemption: Option<bool>,
    ) -> Result<OutcomeView, ProgramError> {
        if accounts.len() <= DEPOSITOR {
            Err(ProgramError::NotEnoughAccountKeys)
        } else if !accounts[DEPOSITOR as int].is_signer {
            Err(ProgramError::MissingRequiredSignature)
        } else if accounts.len() <= RENT_ATTESTATION {
            Err(ProgramError::NotEnoughAccountKeys)
        } else if exemption is None {
            Err(ProgramError::InvalidArgument)
        } else if exemption != Some(true) {
            escrow_failure(EscrowError::NotRentExempt)
        } else if accounts.len() <= DEPOSIT_SYSTEM_PROGRAM {
            Err(ProgramError::NotEnoughAccountKeys)
        } else {
            match EscrowView::unpack_unchecked(accounts[DEPOSIT_RECORD as int].data) {
                Err(e) => Err(e),
                Ok(record) => Ok(
                    OutcomeView {
                        store: Some(
                            StoreView {
                                account: DEPOSIT_RECORD,
                                data: deposit_record(
                                    record,
                                    accounts[DEPOSITOR as int].key,
                                    is_creator,
                                    amount,
                                ).pack(),
                            },
                        ),
                        invocations: seq![
                            transfer_request(
                                accounts,
                                DEPOSITOR,
                                FEE_RECIPIENT,
                                DEPOSIT_SYSTEM_PROGRAM,
                                fee_share(amount),
                                None,
                            ),
                            transfer_request(
                                accounts,
                                DEPOSITOR,
                                ADMIN_RECIPIENT,
                                DEPOSIT_SYSTEM_PROGRAM,
                                admin_share(amount),
                                None,
                            ),
                            transfer_request(
                                accounts,
                                DEPOSITOR,
                                DEPOSIT_CUSTODY,
                                DEPOSIT_SYSTEM_PROGRAM,
                                custody_share(amount),
                                None,
                            ),
                        ],
                    },
                ),
            }
        }
    }

    /// The position of the destination of a withdrawal.
    pub open spec fn destination(result: u8) -> usize {
        if result == 1 {
            (COMPETITOR + 1) as usize
        } else {
            (CREATOR + 1) as usize
        }
    }

    /// What a withdrawal returns, `authority` being the authority over the
    /// custody address, if the derivation found one.
    pub open spec fn spec_withdraw(
        accounts: Seq<AccountView>,
        result: u8,
        amount: u64,
        authority: Option<AuthorityView>,
    ) -> Result<OutcomeView, ProgramError> {
        if accounts.len() <= ADMIN {
            Err(ProgramError::NotEnoughAccountKeys)
        } else if !accounts[ADMIN as int].is_signer {
            Err(ProgramError::MissingRequiredSignature)
        } else if accounts.len() <= WITHDRAW_RECORD {
            Err(ProgramError::NotEnoughAccountKeys)
        } else {
            match EscrowView::unpack_unchecked(accounts[WITHDRAW_RECORD as int].data) {
                Err(e) => Err(e),
                Ok(record) => if accounts.len() <= CREATOR {
                    Err(ProgramError::NotEnoughAccountKeys)
                } else if accounts[CREATOR as int].key != record.creator_address {
                    escrow_failure(EscrowError::InvalidAccount)
                } else if result == 1 && accounts.len() <= COMPETITOR {
                    Err(ProgramError::NotEnoughAccountKeys)
                } else if result == 1 && accounts[COMPETITOR as int].key
                    != record.competitor_address {
                    escrow_failure(EscrowError::InvalidAccount)
                } else if authority is None {
                    Err(ProgramError::InvalidSeeds)
                } else if accounts.len() <= Self::destination(result) {
                    Err(ProgramError::NotEnoughAccountKeys)
                } else if amount != record.amount {
                    escrow_failure(EscrowError::InvalidAmount)
                } else {
                    Ok(
                        OutcomeView {
                            store: None,
                            invocations: seq![
                                transfer_request(
                                    accounts,
                                    WITHDRAW_CUSTODY,
                                    Self::destination(result),
                                    WITHDRAW_SYSTEM_PROGRAM,
                                    custody_share(amount),
                                    authority,
                                ),
                            ],
                        },
                    )
                },
            }
        }
    }

    /// What an invocation with the given accounts and instruction data
    /// returns for the program at `program_id`.
    pub open spec fn spec_process(
        accounts: Seq<AccountView>,
        instruction_data: Seq<u8>,
        program_id: Seq<u8>,
    ) -> Result<OutcomeView, ProgramError> {
        match EscrowInstruction::spec_unpack(instruction_data) {
            Err(e) => Err(e),
            Ok(EscrowInstruction::InitEscrow { is_creator, amount }) => Self::spec_deposit(
                accounts,
                is_creator,
                amount,
                Self::spec_exemption(accounts),
            ),
            Ok(EscrowInstruction::WithdrawEscrow { result, amount }) => Self::spec_withdraw(
                accounts,
                result,
                amount,
                AuthorityView::custody(program_id),
            ),
        }
    }

    /// Whether the accounts meet what `process` requires for the given
    /// instruction data.
    pub open spec fn admits(accounts: Seq<AccountView>, instruction_data: Seq<u8>) -> bool {
        EscrowInstruction::spec_unpack(instruction_data) matches Ok(
            EscrowInstruction::InitEscrow { .. },
        ) ==> Self::rent_guard(accounts)
    }
}

impl Processor {
    /// Plans the transfer of `lamports` from the account at position `source`
    /// to the one at `destination`. Without an authority the source must have
    /// signed the transaction itself, and a failure of the transfer aborts
    /// the invocation; with one, the host countersigns for the source, and
    /// the outcome of the transfer is passed over.
    pub fn transfer_sol(
        accounts: &[Account],
        source: usize,
        destination: usize,
        system_program: usize,
        lamports: u64,
        authority: Option<Authority>,
    ) -> (r: Result<Invocation, ProgramError>)
        ensures
            match r {
                Ok(invocation) => source < accounts@.len() && destination < accounts@.len()
                    && system_program < accounts@.len() && invocation@ == transfer_request(
                    views(accounts@),
                    source,
                    destination,
                    system_program,
                    lamports,
                    match authority {
                        Some(authority) => Some(authority@),
                        None => None,
                    },
                ),
                Err(e) => e == ProgramError::NotEnoughAccountKeys && !(source < accounts@.len()
                    && destination < accounts@.len() && system_program < accounts@.len()),
            },
    {
        let n: usize = accounts.len();
        if source >= n || destination >= n || system_program >= n {
            return Err(ProgramError::NotEnoughAccountKeys);
        }
        let instruction = transfer(&accounts[source].key, &accounts[destination].key, lamports);
        let mut positions: Vec<usize> = Vec::new();
        positions.push(source);
        positions.push(destination);
        positions.push(system_program);
        let abort_on_failure = authority.is_none();
        let invocation = Invocation {
            instruction,
            accounts: positions,
            authority,
            abort_on_failure,
        };
        assert(invocation@.accounts =~= seq![source, destination, system_program]);
        Ok(invocation)
    }

    /// Computes the three shares of a deposit: for the fee recipient, for the
    /// admin recipient and for the custody address.
    pub fn shares(amount: u64) -> (r: (u64, u64, u64))
        ensures
            r.0 == fee_share(amount),
            r.1 == admin_share(amount),
            r.2 == custody_share(amount),
    {
        let wide: u128 = amount as u128;
        ((wide * 19 / 1000) as u64, (wide * 1 / 1000) as u64, (wide * 98 / 100) as u64)
    }

    /// Handles a deposit, given what the minimum-balance rule says of the
    /// record storage.
    pub fn deposit(accounts: &[Account], is_creator: u8, amount: u64, exemption: Option<bool>) -> (r:
        Result<Outcome, ProgramError>)
        ensures
            yields(r, Self::spec_deposit(views(accounts@), is_creator, amount, exemption)),
    {
        if accounts.len() <= DEPOSITOR {
            return Err(ProgramError::NotEnoughAccountKeys);
        }
        if !accounts[DEPOSITOR].is_signer {
            return Err(ProgramError::MissingRequiredSignature);
        }
        if accounts.len() <= RENT_ATTESTATION {
            return Err(ProgramError::NotEnoughAccountKeys);
        }
        match exemption {
            None => {
                return Err(ProgramError::InvalidArgument);
            },
            Some(exempt) => {
                if !exempt {
                    return Err(ProgramError::from(EscrowError::NotRentExempt));
                }
            },
        }
        if accounts.len() <= DEPOSIT_SYSTEM_PROGRAM {
            return Err(ProgramError::NotEnoughAccountKeys);
        }
        let mut record = match Escrow::unpack_unchecked(accounts[DEPOSIT_RECORD].data.as_slice()) {
            Ok(record) => record,
            Err(e) => {
                return Err(e);
            },
        };
        let ghost before = record@;
        record.is_initialized = true;
        if is_creator == 1 {
            record.creator_address = accounts[DEPOSITOR].key;
            record.amount = amount;
        } else {
            record.competitor_address = accounts[DEPOSITOR].key;
            record.amount = record.amount.wrapping_add(amount);
        }
        assert(record@ == deposit_record(before, accounts[DEPOSITOR as int].key@, is_creator, amount));
        let mut data: Vec<u8> = vec![0u8; 73];
        match Escrow::pack(record, data.as_mut_slice()) {
            Ok(()) => {},
            Err(e) => {
                return Err(e);
            },
        }
        let (fee, admin, custody) = Self::shares(amount);
        let to_fee = match Self::transfer_sol(
            accounts,
            DEPOSITOR,
            FEE_RECIPIENT,
            DEPOSIT_SYSTEM_PROGRAM,
            fee,
            None,
        ) {
            Ok(invocation) => invocation,
            Err(e) => {
                return Err(e);
            },
        };
        let to_admin = match Self::transfer_sol(
            accounts,
            DEPOSITOR,
            ADMIN_RECIPIENT,
            DEPOSIT_SYSTEM_PROGRAM,
            admin,
            None,
        ) {
            Ok(invocation) => invocation,
            Err(e) => {
                return Err(e);
            },
        };
        let to_custody = match Self::transfer_sol(
            accounts,
            DEPOSITOR,
            DEPOSIT_CUSTODY,
            DEPOSIT_SYSTEM_PROGRAM,
            custody,
            None,
        ) {
            Ok(invocation) => invocation,
            Err(e) => {
                return Err(e);
            },
        };
        let mut invocations: Vec<Invocation> = Vec::new();
        invocations.push(to_fee);
        invocations.push(to_admin);
        invocations.push(to_custody);
        let outcome = Outcome { store: Some(Store { account: DEPOSIT_RECORD, data }), invocations };
        assert(outcome@.invocations =~= seq![to_fee@, to_admin@, to_custody@]);
        Ok(outcome)
    }

    /// Handles a withdrawal, given the authority over the custody address,
    /// if the derivation found one.
    pub fn withdraw(accounts: &[Account], result: u8, amount: u64, authority: Option<Authority>) -> (r:
        Result<Outcome, ProgramError>)
        ensures
            yields(
                r,
                Self::spec_withdraw(
                    views(accounts@),
                    result,
                    amount,
                    match authority {
                        Some(authority) => Some(authority@),
                        None => None,
                    },
                ),
            ),
    {
        if accounts.len() <= ADMIN {
            return Err(ProgramError::NotEnoughAccountKeys);
        }
        if !accounts[ADMIN].is_signer {
            return Err(ProgramError::MissingRequiredSignature);
        }
        if accounts.len() <= WITHDRAW_RECORD {
            return Err(ProgramError::NotEnoughAccountKeys);
        }
        let record = match Escrow::unpack_unchecked(accounts[WITHDRAW_RECORD].data.as_slice()) {
            Ok(record) => record,
            Err(e) => {
                return Err(e);
            },
        };
        if accounts.len() <= CREATOR {
            return Err(ProgramError::NotEnoughAccountKeys);
        }
        if !same_address(&record.creator_address, &accounts[CREATOR].key) {
            return Err(ProgramError::from(EscrowError::InvalidAccount));
        }
        if result == 1 {
            if accounts.len() <= COMPETITOR {
                return Err(ProgramError::NotEnoughAccountKeys);
            }
            if !same_address(&record.competitor_address, &accounts[COMPETITOR].key) {
                return Err(ProgramError::from(EscrowError::InvalidAccount));
            }
        }
        let authority = match authority {
            Some(authority) => authority,
            None => {
                return Err(ProgramError::InvalidSeeds);
            },
        };
        let destination: usize = if result == 1 {
            COMPETITOR + 1
        } else {
            CREATOR + 1
        };
        if accounts.len() <= destination {
            return Err(ProgramError::NotEnoughAccountKeys);
        }
        if amount != record.amount {
            return Err(ProgramError::from(EscrowError::InvalidAmount));
        }
        let (_, _, released) = Self::shares(amount);
        let release = match Self::transfer_sol(
            accounts,
            WITHDRAW_CUSTODY,
            destination,
            WITHDRAW_SYSTEM_PROGRAM,
            released,
            Some(authority),
        ) {
            Ok(invocation) => invocation,
            Err(e) => {
                return Err(e);
            },
        };
        let mut invocations: Vec<Invocation> = Vec::new();
        invocations.push(release);
        let outcome = Outcome { store: None, invocations };
        assert(outcome@.invocations =~= seq![release@]);
        Ok(outcome)
    }
}

impl Processor {
    /// Tells whether the accounts meet what `process` requires for the given
    /// instruction data.
    pub fn check(accounts: &[Account], instruction_data: &[u8]) -> (admitted: bool)
        ensures
            admitted == Self::admits(views(accounts@), instruction_data@),
    {
        match EscrowInstruction::unpack(instruction_data) {
            Ok(EscrowInstruction::InitEscrow { .. }) => Self::check_rent_guard(accounts),
            _ => true,
        }
    }

    /// Tells whether the host's minimum-balance formula fits its 64-bit
    /// arithmetic on the accounts of a deposit.
    pub fn check_rent_guard(accounts: &[Account]) -> (fits: bool)
        ensures
            fits == Self::rent_guard(views(accounts@)),
    {
        if accounts.len() <= RENT_ATTESTATION || !accounts[DEPOSITOR].is_signer {
            return true;
        }
        check_rent_formula(
            &accounts[RENT_ATTESTATION].key,
            accounts[RENT_ATTESTATION].data.as_slice(),
            accounts[DEPOSIT_RECORD].data.len(),
        )
    }

    /// Handles a deposit: asks the minimum-balance rule about the record
    /// storage, then goes on as `deposit` does.
    pub fn process_init_escrow(accounts: &[Account], is_creator: u8, amount: u64) -> (r: Result<
        Outcome,
        ProgramError,
    >)
        requires
            Self::rent_guard(views(accounts@)),
        ensures
            yields(
                r,
                Self::spec_deposit(
                    views(accounts@),
                    is_creator,
                    amount,
                    Self::spec_exemption(views(accounts@)),
                ),
            ),
    {
        let exemption = if accounts.len() > RENT_ATTESTATION && accounts[DEPOSITOR].is_signer {
            rent_is_exempt(
                &accounts[RENT_ATTESTATION].key,
                accounts[RENT_ATTESTATION].data.as_slice(),
                accounts[DEPOSIT_RECORD].lamports,
                accounts[DEPOSIT_RECORD].data.len(),
            )
        } else {
            None
        };
        Self::deposit(accounts, is_creator, amount, exemption)
    }

    /// Handles a withdrawal: derives the authority over the custody address
    /// of the program at `program_id`, then goes on as `withdraw` does.
    pub fn process_withdraw(accounts: &[Account], result: u8, amount: u64, program_id: &Address) -> (r:
        Result<Outcome, ProgramError>)
        ensures
            yields(
                r,
                Self::spec_withdraw(
                    views(accounts@),
                    result,
                    amount,
                    AuthorityView::custody(program_id@),
                ),
            ),
    {
        let authority = match Authority::custody(program_id) {
            Some((_, authority)) => Some(authority),
            None => None,
        };
        Self::withdraw(accounts, result, amount, authority)
    }

    /// Handles an invocation as `process` does where the accounts meet what
    /// `process` requires, and returns `None` where they do not.
    pub fn try_process(accounts: &[Account], instruction_data: &[u8], program_id: &Address) -> (r:
        Option<Result<Outcome, ProgramError>>)
        ensures
            match r {
                Some(r) => Self::admits(views(accounts@), instruction_data@) && yields(
                    r,
                    Self::spec_process(views(accounts@), instruction_data@, program_id@),
                ),
                None => !Self::admits(views(accounts@), instruction_data@),
            },
    {
        if Self::check(accounts, instruction_data) {
            Some(Self::process(accounts, instruction_data, program_id))
        } else {
            None
        }
    }

    /// Decodes the instruction and hands it to its handler.
    pub fn process(accounts: &[Account], instruction_data: &[u8], program_id: &Address) -> (r:
        Result<Outcome, ProgramError>)
        requires
            Self::admits(views(accounts@), instruction_data@),
        ensures
            yields(r, Self::spec_process(views(accounts@), instruction_data@, program_id@)),
    {
        match EscrowInstruction::unpack(instruction_data) {
            Err(e) => Err(e),
            Ok(EscrowInstruction::InitEscrow { is_creator, amount }) => Self::process_init_escrow(
                accounts,
                is_creator,
                amount,
            ),
            Ok(EscrowInstruction::WithdrawEscrow { result, amount }) => Self::process_withdraw(
                accounts,
                result,
                amount,
                program_id,
            ),
        }
    }
}

} // verus!
