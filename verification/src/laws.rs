//! Properties of the handlers, proved from their specifications.

use vstd::prelude::*;
use crate::account::{AccountView, OutcomeView};
use crate::authority::{custody_seed, program_address, AuthorityView};
use crate::error::{EscrowError, ProgramError};
use crate::processor::{
    admin_share, custody_share, deposit_record, escrow_failure, fee_share, Processor, ADMIN,
    ADMIN_RECIPIENT, COMPETITOR, CREATOR, DEPOSITOR, DEPOSIT_CUSTODY, DEPOSIT_RECORD,
    DEPOSIT_SYSTEM_PROGRAM, FEE_RECIPIENT, WITHDRAW_CUSTODY, WITHDRAW_RECORD,
};
use crate::state::{lemma_unpack_pack, EscrowView};
use crate::system::transfer_instruction;

verus! {

/// The three shares of a deposit never exceed the deposit: what truncation
/// and the missing thousandth leave over stays with the depositor.
pub proof fn lemma_shares_within_amount(amount: u64)
    ensures
        fee_share(amount) == amount as int * 19 / 1000,
        admin_share(amount) == amount as int / 1000,
        custody_share(amount) == amount as int * 98 / 100,
        fee_share(amount) + admin_share(amount) + custody_share(amount) <= amount,
{
}

/// A deposit leaves the record initialized, whatever it was before. The
/// creator's deposit sets the creator and the amount and keeps the
/// competitor; the competitor's sets the competitor, keeps the creator and
/// adds to the amount.
pub proof fn lemma_deposit_record(record: EscrowView, depositor: Seq<u8>, is_creator: u8, amount: u64)
    ensures
        deposit_record(record, depositor, is_creator, amount).is_initialized,
        is_creator == 1 ==> deposit_record(record, depositor, is_creator, amount) == (EscrowView {
            is_initialized: true,
            creator_address: depositor,
            amount,
            ..record
        }),
        is_creator != 1 ==> deposit_record(record, depositor, is_creator, amount).creator_address
            == record.creator_address && deposit_record(
            record,
            depositor,
            is_creator,
            amount,
        ).competitor_address == depositor,
        is_creator != 1 && record.amount + amount <= u64::MAX ==> deposit_record(
            record,
            depositor,
            is_creator,
            amount,
        ).amount == record.amount + amount,
{
}

/// After the creator has deposited `first` and the competitor `second`, the
/// record holds both parties and the sum of the deposits, where the sum fits
/// in 64 bits.
pub proof fn lemma_deposits_accumulate(
    record: EscrowView,
    creator: Seq<u8>,
    competitor: Seq<u8>,
    first: u64,
    second: u64,
)
    requires
        first + second <= u64::MAX,
    ensures
        deposit_record(deposit_record(record, creator, 1, first), competitor, 0, second) == (
        EscrowView {
            is_initialized: true,
            creator_address: creator,
            competitor_address: competitor,
            amount: (first + second) as u64,
        }),
{
}

/// A successful deposit stores a record that decodes, leniently and
/// strictly, to the record that `deposit_record` describes, and asks for
/// three transfers out of the depositor's account, none of them under an
/// authority: the depositor has signed.
pub proof fn lemma_deposit_outcome(
    accounts: Seq<AccountView>,
    is_creator: u8,
    amount: u64,
    exemption: Option<bool>,
)
    requires
        Processor::spec_deposit(accounts, is_creator, amount, exemption) is Ok,
        forall|i: int| 0 <= i < accounts.len() ==> (#[trigger] accounts[i]).key.len() == 32,
    ensures
        ({
            let outcome = Processor::spec_deposit(accounts, is_creator, amount, exemption)->Ok_0;
            let before = EscrowView::unpack_unchecked(accounts[DEPOSIT_RECORD as int].data)->Ok_0;
            let after = deposit_record(before, accounts[DEPOSITOR as int].key, is_creator, amount);
            &&& accounts[DEPOSITOR as int].is_signer
            &&& exemption == Some(true)
            &&& outcome.store matches Some(store)
            &&& store.account == DEPOSIT_RECORD
            &&& EscrowView::unpack_unchecked(store.data) == Ok::<EscrowView, ProgramError>(after)
            &&& EscrowView::unpack(store.data) == Ok::<EscrowView, ProgramError>(after)
            &&& outcome.invocations.len() == 3
            &&& outcome.invocations[0].instruction == transfer_instruction(
                accounts[DEPOSITOR as int].key,
                accounts[FEE_RECIPIENT as int].key,
                fee_share(amount),
            )
            &&& outcome.invocations[1].instruction == transfer_instruction(
                accounts[DEPOSITOR as int].key,
                accounts[ADMIN_RECIPIENT as int].key,
                admin_share(amount),
            )
            &&& outcome.invocations[2].instruction == transfer_instruction(
                accounts[DEPOSITOR as int].key,
                accounts[DEPOSIT_CUSTODY as int].key,
                custody_share(amount),
            )
            &&& forall|i: int|
                0 <= i < 3 ==> {
                    let invocation = #[trigger] outcome.invocations[i];
                    &&& invocation.authority is None
                    &&& invocation.abort_on_failure
                    &&& invocation.accounts[0] == DEPOSITOR
                    &&& invocation.accounts[2] == DEPOSIT_SYSTEM_PROGRAM
                }
        }),
{
    let before = EscrowView::unpack_unchecked(accounts[DEPOSIT_RECORD as int].data)->Ok_0;
    let after = deposit_record(before, accounts[DEPOSITOR as int].key, is_creator, amount);
    lemma_unpack_pack(after);
}

/// A withdrawal that names another creator than the record does is
/// rejected as an invalid account, whatever the amount, the result and the
/// further accounts are, once the admin has signed.
pub proof fn lemma_withdraw_rejects_other_creator(
    accounts: Seq<AccountView>,
    result: u8,
    amount: u64,
    authority: Option<AuthorityView>,
    record: EscrowView,
)
    requires
        accounts.len() > CREATOR,
        accounts[ADMIN as int].is_signer,
        EscrowView::unpack_unchecked(accounts[WITHDRAW_RECORD as int].data) == Ok::<
            EscrowView,
            ProgramError,
        >(record),
        accounts[CREATOR as int].key != record.creator_address,
    ensures
        Processor::spec_withdraw(accounts, result, amount, authority) == escrow_failure(
            EscrowError::InvalidAccount,
        ),
        Processor::spec_withdraw(accounts, result, amount, authority) == Err::<
            OutcomeView,
            ProgramError,
        >(ProgramError::Custom(4)),
{
}

/// A withdrawal with result 1 that names another competitor than the record
/// does is rejected as an invalid account.
pub proof fn lemma_withdraw_rejects_other_competitor(
    accounts: Seq<AccountView>,
    amount: u64,
    authority: Option<AuthorityView>,
    record: EscrowView,
)
    requires
        accounts.len() > COMPETITOR,
        accounts[ADMIN as int].is_signer,
        EscrowView::unpack_unchecked(accounts[WITHDRAW_RECORD as int].data) == Ok::<
            EscrowView,
            ProgramError,
        >(record),
        accounts[COMPETITOR as int].key != record.competitor_address,
    ensures
        Processor::spec_withdraw(accounts, 1, amount, authority) == escrow_failure(
            EscrowError::InvalidAccount,
        ),
{
}

/// A withdrawal whose accounts are in order, but whose amount differs from
/// the record's, is rejected as an invalid amount.
pub proof fn lemma_withdraw_rejects_other_amount(
    accounts: Seq<AccountView>,
    result: u8,
    amount: u64,
    authority: AuthorityView,
    record: EscrowView,
)
    requires
        accounts.len() > Processor::destination(result),
        accounts[ADMIN as int].is_signer,
        EscrowView::unpack_unchecked(accounts[WITHDRAW_RECORD as int].data) == Ok::<
            EscrowView,
            ProgramError,
        >(record),
        accounts[CREATOR as int].key == record.creator_address,
        result == 1 ==> accounts[COMPETITOR as int].key == record.competitor_address,
        amount != record.amount,
    ensures
        Processor::spec_withdraw(accounts, result, amount, Some(authority)) == escrow_failure(
            EscrowError::InvalidAmount,
        ),
        Processor::spec_withdraw(accounts, result, amount, Some(authority)) == Err::<
            OutcomeView,
            ProgramError,
        >(ProgramError::Custom(5)),
{
}

/// Every withdrawal that an invocation grants asks for exactly one
/// transfer: of 98 hundredths of the record's amount, out of the account
/// given as custody, under the authority that the fixed seed and the
/// program's address yield. The seeds presented to the host are the fixed
/// seed and the nonce of that derivation, and nothing is stored.
pub proof fn lemma_withdraw_authority(
    accounts: Seq<AccountView>,
    instruction_data: Seq<u8>,
    program_id: Seq<u8>,
)
    requires
        Processor::spec_process(accounts, instruction_data, program_id) is Ok,
        instruction_data[0] == 1,
    ensures
        ({
            let outcome = Processor::spec_process(accounts, instruction_data, program_id)->Ok_0;
            let record = EscrowView::unpack_unchecked(accounts[WITHDRAW_RECORD as int].data)->Ok_0;
            &&& outcome.store is None
            &&& outcome.invocations.len() == 1
            &&& program_address(seq![custody_seed()], program_id) matches Some((_, nonce))
            &&& outcome.invocations[0].authority matches Some(authority)
            &&& authority == (AuthorityView { seed: custody_seed(), nonce })
            &&& authority.signer_seeds() == seq![custody_seed(), seq![nonce]]
            &&& !outcome.invocations[0].abort_on_failure
            &&& outcome.invocations[0].accounts[0] == WITHDRAW_CUSTODY
            &&& accounts[ADMIN as int].is_signer
            &&& accounts[CREATOR as int].key == record.creator_address
            &&& exists|destination: Seq<u8>|
                outcome.invocations[0].instruction == transfer_instruction(
                    accounts[WITHDRAW_CUSTODY as int].key,
                    destination,
                    custody_share(record.amount),
                )
        }),
{
    let outcome = Processor::spec_process(accounts, instruction_data, program_id)->Ok_0;
    let instruction = crate::instruction::EscrowInstruction::spec_unpack(instruction_data)->Ok_0;
    let result = instruction.flag();
    let destination = accounts[Processor::destination(result) as int].key;
    let record = EscrowView::unpack_unchecked(accounts[WITHDRAW_RECORD as int].data)->Ok_0;
    assert(outcome.invocations[0].instruction == transfer_instruction(
        accounts[WITHDRAW_CUSTODY as int].key,
        destination,
        custody_share(record.amount),
    ));
}

/// No deposit is ever granted an authority: each of its transfers is
/// signed by the depositor alone.
pub proof fn lemma_deposit_is_direct(
    accounts: Seq<AccountView>,
    instruction_data: Seq<u8>,
    program_id: Seq<u8>,
)
    requires
        Processor::spec_process(accounts, instruction_data, program_id) is Ok,
        instruction_data[0] == 0,
    ensures
        ({
            let outcome = Processor::spec_process(accounts, instruction_data, program_id)->Ok_0;
            forall|i: int|
                0 <= i < outcome.invocations.len() ==> (
                #[trigger] outcome.invocations[i]).authority is None
        }),
{
}

} // verus!
