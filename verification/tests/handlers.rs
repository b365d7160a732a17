use escrow::account::{Account, Invocation, Outcome};
use escrow::authority::Authority;
use escrow::error::ProgramError;
use escrow::processor::Processor;
use escrow::state::Escrow;

const DEPOSITOR: [u8; 32] = [0xd0; 32];
const OTHER_DEPOSITOR: [u8; 32] = [0xd1; 32];
const FEE: [u8; 32] = [0xfe; 32];
const ADMIN: [u8; 32] = [0xad; 32];
const RECORD: [u8; 32] = [0x7e; 32];
const CUSTODY: [u8; 32] = [0xc0; 32];
const ATTESTATION: [u8; 32] = [0xa7; 32];
const SYSTEM: [u8; 32] = [0; 32];
const WINNER: [u8; 32] = [0x33; 32];

fn account(key: [u8; 32], is_signer: bool, data: Vec<u8>) -> Account {
    Account { key, is_signer, lamports: 5_000_000, data }
}

fn deposit_accounts(depositor: [u8; 32], record: Vec<u8>) -> Vec<Account> {
    vec![
        account(depositor, true, vec![]),
        account(FEE, false, vec![]),
        account(ADMIN, false, vec![]),
        account(RECORD, false, record),
        account(CUSTODY, false, vec![]),
        account(ATTESTATION, false, vec![]),
        account(SYSTEM, false, vec![]),
    ]
}

fn stored(record: Escrow) -> Vec<u8> {
    let mut bytes = vec![0u8; 73];
    Escrow::pack(record, &mut bytes).unwrap();
    bytes
}

fn settled_record() -> Escrow {
    Escrow {
        is_initialized: true,
        creator_address: DEPOSITOR,
        competitor_address: OTHER_DEPOSITOR,
        amount: 1500,
    }
}

fn withdraw_accounts(result: u8, record: Vec<u8>) -> Vec<Account> {
    let mut accounts = vec![
        account(ADMIN, true, vec![]),
        account(RECORD, false, record),
        account(CUSTODY, false, vec![]),
        account(SYSTEM, false, vec![]),
        account(DEPOSITOR, false, vec![]),
    ];
    if result == 1 {
        accounts.push(account(OTHER_DEPOSITOR, false, vec![]));
    }
    accounts.push(account(WINNER, false, vec![]));
    accounts
}

fn authority() -> Option<Authority> {
    Some(Authority { seed: b"chess".to_vec(), nonce: 254 })
}

fn transfer_data(lamports: u64) -> Vec<u8> {
    let mut data = vec![2u8, 0, 0, 0];
    data.extend_from_slice(&lamports.to_le_bytes());
    data
}

fn check_direct_transfer(invocation: &Invocation, to: [u8; 32], position: usize, lamports: u64) {
    assert_eq!(invocation.accounts, vec![0, position, 6]);
    assert_eq!(invocation.authority, None);
    assert!(invocation.abort_on_failure);
    assert_eq!(invocation.instruction.program_id, SYSTEM);
    assert_eq!(invocation.instruction.data, transfer_data(lamports));
    assert_eq!(invocation.instruction.accounts.len(), 2);
    assert_eq!(invocation.instruction.accounts[0].pubkey, DEPOSITOR);
    assert!(invocation.instruction.accounts[0].is_signer);
    assert!(invocation.instruction.accounts[0].is_writable);
    assert_eq!(invocation.instruction.accounts[1].pubkey, to);
    assert!(!invocation.instruction.accounts[1].is_signer);
    assert!(invocation.instruction.accounts[1].is_writable);
}

fn record_of(outcome: &Outcome) -> Escrow {
    let store = outcome.store.as_ref().unwrap();
    assert_eq!(store.account, 3);
    Escrow::unpack(&store.data).unwrap()
}

#[test]
fn creator_deposit_sets_the_amount() {
    let accounts = deposit_accounts(DEPOSITOR, vec![0; 73]);
    let outcome = Processor::deposit(&accounts, 1, 1000, Some(true)).unwrap();
    assert_eq!(
        record_of(&outcome),
        Escrow {
            is_initialized: true,
            creator_address: DEPOSITOR,
            competitor_address: [0; 32],
            amount: 1000,
        }
    );
}

#[test]
fn competitor_deposit_adds_to_the_amount() {
    let accounts = deposit_accounts(DEPOSITOR, vec![0; 73]);
    let first = Processor::deposit(&accounts, 1, 1000, Some(true)).unwrap();
    assert_eq!(record_of(&first).amount, 1000);
    let accounts = deposit_accounts(OTHER_DEPOSITOR, first.store.unwrap().data);
    let second = Processor::deposit(&accounts, 0, 500, Some(true)).unwrap();
    assert_eq!(
        record_of(&second),
        Escrow {
            is_initialized: true,
            creator_address: DEPOSITOR,
            competitor_address: OTHER_DEPOSITOR,
            amount: 1500,
        }
    );
}

#[test]
fn deposits_in_the_other_order_lose_the_first() {
    let accounts = deposit_accounts(OTHER_DEPOSITOR, vec![0; 73]);
    let first = Processor::deposit(&accounts, 0, 500, Some(true)).unwrap();
    assert_eq!(record_of(&first).amount, 500);
    let accounts = deposit_accounts(DEPOSITOR, first.store.unwrap().data);
    let second = Processor::deposit(&accounts, 1, 1000, Some(true)).unwrap();
    assert_eq!(record_of(&second).amount, 1000);
    assert_eq!(record_of(&second).competitor_address, OTHER_DEPOSITOR);
}

#[test]
fn second_creator_deposit_overwrites_the_amount() {
    let accounts = deposit_accounts(DEPOSITOR, stored(settled_record()));
    let outcome = Processor::deposit(&accounts, 1, 40, Some(true)).unwrap();
    assert_eq!(record_of(&outcome).amount, 40);
}

#[test]
fn any_flag_but_one_marks_the_competitor() {
    let accounts = deposit_accounts(WINNER, stored(settled_record()));
    let outcome = Processor::deposit(&accounts, 2, 1, Some(true)).unwrap();
    let record = record_of(&outcome);
    assert_eq!(record.competitor_address, WINNER);
    assert_eq!(record.creator_address, DEPOSITOR);
    assert_eq!(record.amount, 1501);
}

#[test]
fn competitor_deposit_wraps_around() {
    let full = Escrow { amount: u64::MAX, ..settled_record() };
    let accounts = deposit_accounts(OTHER_DEPOSITOR, stored(full));
    let outcome = Processor::deposit(&accounts, 0, 2, Some(true)).unwrap();
    assert_eq!(record_of(&outcome).amount, 1);
}

#[test]
fn deposit_splits_1000() {
    assert_eq!(Processor::shares(1000), (19, 1, 980));
    let accounts = deposit_accounts(DEPOSITOR, vec![0; 73]);
    let outcome = Processor::deposit(&accounts, 1, 1000, Some(true)).unwrap();
    assert_eq!(outcome.invocations.len(), 3);
    check_direct_transfer(&outcome.invocations[0], FEE, 1, 19);
    check_direct_transfer(&outcome.invocations[1], ADMIN, 2, 1);
    check_direct_transfer(&outcome.invocations[2], CUSTODY, 4, 980);
}

#[test]
fn deposit_splits_1001_by_truncation() {
    assert_eq!(Processor::shares(1001), (19, 1, 980));
    let accounts = deposit_accounts(DEPOSITOR, vec![0; 73]);
    let outcome = Processor::deposit(&accounts, 1, 1001, Some(true)).unwrap();
    check_direct_transfer(&outcome.invocations[0], FEE, 1, 19);
    check_direct_transfer(&outcome.invocations[1], ADMIN, 2, 1);
    check_direct_transfer(&outcome.invocations[2], CUSTODY, 4, 980);
    assert_eq!(record_of(&outcome).amount, 1001);
}

#[test]
fn shares_of_small_and_large_amounts() {
    assert_eq!(Processor::shares(0), (0, 0, 0));
    assert_eq!(Processor::shares(52), (0, 0, 50));
    assert_eq!(Processor::shares(53), (1, 0, 51));
    assert_eq!(Processor::shares(999), (18, 0, 979));
    assert_eq!(Processor::shares(1_000_000_007), (19_000_000, 1_000_000, 980_000_006));
    assert_eq!(
        Processor::shares(u64::MAX),
        (350_488_137_400_481_480, 18_446_744_073_709_551, 18_077_809_192_235_360_582)
    );
}

#[test]
fn shares_use_the_share_of_the_call_not_of_the_record() {
    let accounts = deposit_accounts(OTHER_DEPOSITOR, stored(settled_record()));
    let outcome = Processor::deposit(&accounts, 0, 500, Some(true)).unwrap();
    assert_eq!(record_of(&outcome).amount, 2000);
    assert_eq!(outcome.invocations[0].instruction.data, transfer_data(9));
    assert_eq!(outcome.invocations[1].instruction.data, transfer_data(0));
    assert_eq!(outcome.invocations[2].instruction.data, transfer_data(490));
}

#[test]
fn deposit_needs_the_depositor_to_sign() {
    let mut accounts = deposit_accounts(DEPOSITOR, vec![0; 73]);
    accounts[0].is_signer = false;
    assert_eq!(
        Processor::deposit(&accounts, 1, 1000, Some(true)),
        Err(ProgramError::MissingRequiredSignature)
    );
    assert_eq!(
        Processor::deposit(&accounts[..1], 1, 1000, None),
        Err(ProgramError::MissingRequiredSignature)
    );
}

#[test]
fn deposit_needs_its_accounts() {
    let accounts = deposit_accounts(DEPOSITOR, vec![0; 73]);
    for len in 0..6 {
        assert_eq!(
            Processor::deposit(&accounts[..len], 1, 1000, Some(true)),
            Err(ProgramError::NotEnoughAccountKeys),
            "{} accounts",
            len
        );
    }
    assert_eq!(
        Processor::deposit(&accounts[..6], 1, 1000, Some(true)),
        Err(ProgramError::NotEnoughAccountKeys)
    );
    assert_eq!(
        Processor::deposit(&accounts[..6], 1, 1000, Some(false)),
        Err(ProgramError::Custom(1))
    );
    assert_eq!(
        Processor::deposit(&accounts[..6], 1, 1000, None),
        Err(ProgramError::InvalidArgument)
    );
}

#[test]
fn deposit_needs_rent_exemption() {
    let accounts = deposit_accounts(DEPOSITOR, vec![0; 73]);
    assert_eq!(Processor::deposit(&accounts, 1, 1000, Some(false)), Err(ProgramError::Custom(1)));
    assert_eq!(Processor::deposit(&accounts, 1, 1000, None), Err(ProgramError::InvalidArgument));
}

#[test]
fn deposit_needs_a_well_formed_record() {
    let accounts = deposit_accounts(DEPOSITOR, vec![0; 72]);
    assert_eq!(
        Processor::deposit(&accounts, 1, 1000, Some(true)),
        Err(ProgramError::InvalidAccountData)
    );
    let mut bytes = vec![0u8; 73];
    bytes[0] = 2;
    let accounts = deposit_accounts(DEPOSITOR, bytes);
    assert_eq!(
        Processor::deposit(&accounts, 1, 1000, Some(true)),
        Err(ProgramError::InvalidAccountData)
    );
}

#[test]
fn withdraw_releases_98_hundredths() {
    let accounts = withdraw_accounts(0, stored(settled_record()));
    let outcome = Processor::withdraw(&accounts, 0, 1500, authority()).unwrap();
    assert_eq!(outcome.store, None);
    assert_eq!(outcome.invocations.len(), 1);
    let release = &outcome.invocations[0];
    assert_eq!(release.accounts, vec![2, 5, 3]);
    assert_eq!(release.authority, authority());
    assert!(!release.abort_on_failure);
    assert_eq!(release.instruction.data, transfer_data(1470));
    assert_eq!(release.instruction.accounts[0].pubkey, CUSTODY);
    assert_eq!(release.instruction.accounts[1].pubkey, WINNER);
}

#[test]
fn withdraw_with_result_one_checks_the_competitor() {
    let accounts = withdraw_accounts(1, stored(settled_record()));
    let outcome = Processor::withdraw(&accounts, 1, 1500, authority()).unwrap();
    let release = &outcome.invocations[0];
    assert_eq!(release.accounts, vec![2, 6, 3]);
    assert_eq!(release.instruction.accounts[1].pubkey, WINNER);
    let mut accounts = withdraw_accounts(1, stored(settled_record()));
    accounts[5].key = WINNER;
    assert_eq!(
        Processor::withdraw(&accounts, 1, 1500, authority()),
        Err(ProgramError::Custom(4))
    );
}

#[test]
fn withdraw_without_result_one_ignores_the_competitor() {
    let mut accounts = withdraw_accounts(1, stored(settled_record()));
    accounts[5].key = WINNER;
    for result in [0u8, 2, 255] {
        let outcome = Processor::withdraw(&accounts, result, 1500, authority()).unwrap();
        assert_eq!(outcome.invocations[0].accounts, vec![2, 5, 3]);
    }
}

#[test]
fn withdraw_rejects_mismatched_creator() {
    let mut accounts = withdraw_accounts(0, stored(settled_record()));
    accounts[4].key = WINNER;
    for amount in [1500u64, 1499, 0] {
        for result in [0u8, 1] {
            assert_eq!(
                Processor::withdraw(&accounts, result, amount, authority()),
                Err(ProgramError::Custom(4))
            );
        }
    }
    assert_eq!(Processor::withdraw(&accounts, 0, 1500, None), Err(ProgramError::Custom(4)));
}

#[test]
fn withdraw_rejects_amount_mismatch() {
    let accounts = withdraw_accounts(0, stored(settled_record()));
    assert_eq!(
        Processor::withdraw(&accounts, 0, 1499, authority()),
        Err(ProgramError::Custom(5))
    );
    let accounts = withdraw_accounts(1, stored(settled_record()));
    assert_eq!(
        Processor::withdraw(&accounts, 1, 1501, authority()),
        Err(ProgramError::Custom(5))
    );
}

#[test]
fn withdraw_needs_the_admin_to_sign() {
    let mut accounts = withdraw_accounts(0, stored(settled_record()));
    accounts[0].is_signer = false;
    assert_eq!(
        Processor::withdraw(&accounts, 0, 1500, authority()),
        Err(ProgramError::MissingRequiredSignature)
    );
}

#[test]
fn withdraw_needs_its_accounts() {
    let accounts = withdraw_accounts(1, stored(settled_record()));
    for len in [0usize, 1, 2, 3, 4] {
        assert_eq!(
            Processor::withdraw(&accounts[..len], 0, 1500, authority()),
            Err(ProgramError::NotEnoughAccountKeys),
            "{} accounts",
            len
        );
    }
    assert_eq!(
        Processor::withdraw(&accounts[..5], 0, 1500, authority()),
        Err(ProgramError::NotEnoughAccountKeys)
    );
    assert_eq!(
        Processor::withdraw(&accounts[..5], 1, 1500, authority()),
        Err(ProgramError::NotEnoughAccountKeys)
    );
    assert_eq!(
        Processor::withdraw(&accounts[..6], 1, 1500, authority()),
        Err(ProgramError::NotEnoughAccountKeys)
    );
    assert!(Processor::withdraw(&accounts[..6], 0, 1500, authority()).is_ok());
}

#[test]
fn withdraw_decodes_the_record_before_it_counts_the_parties() {
    let accounts = withdraw_accounts(0, vec![0; 10]);
    assert_eq!(
        Processor::withdraw(&accounts[..2], 0, 1500, authority()),
        Err(ProgramError::InvalidAccountData)
    );
}

#[test]
fn withdraw_accepts_a_record_that_no_deposit_touched() {
    let mut accounts = withdraw_accounts(0, vec![0; 73]);
    accounts[4].key = [0; 32];
    let outcome = Processor::withdraw(&accounts, 0, 0, authority()).unwrap();
    assert_eq!(outcome.invocations[0].instruction.data, transfer_data(0));
}

#[test]
fn withdraw_without_an_authority_fails() {
    let accounts = withdraw_accounts(0, stored(settled_record()));
    assert_eq!(Processor::withdraw(&accounts, 0, 1500, None), Err(ProgramError::InvalidSeeds));
    assert_eq!(Processor::withdraw(&accounts, 0, 1499, None), Err(ProgramError::InvalidSeeds));
}

#[test]
fn transfer_needs_its_accounts() {
    let accounts = deposit_accounts(DEPOSITOR, vec![]);
    assert_eq!(
        Processor::transfer_sol(&accounts, 0, 7, 6, 5, None),
        Err(ProgramError::NotEnoughAccountKeys)
    );
    assert_eq!(
        Processor::transfer_sol(&accounts, 7, 1, 6, 5, None),
        Err(ProgramError::NotEnoughAccountKeys)
    );
    assert_eq!(
        Processor::transfer_sol(&accounts[..3], 0, 1, 3, 5, None),
        Err(ProgramError::NotEnoughAccountKeys)
    );
    let invocation = Processor::transfer_sol(&accounts[..3], 0, 1, 2, 5, None).unwrap();
    assert_eq!(invocation.accounts, vec![0, 1, 2]);
}

#[test]
fn failure_aborts_a_direct_transfer_only() {
    let accounts = deposit_accounts(DEPOSITOR, vec![]);
    let direct = Processor::transfer_sol(&accounts, 0, 1, 6, 5, None).unwrap();
    assert_eq!(direct.settle(Err::<(), u32>(9)), Err(9));
    assert_eq!(direct.settle(Ok::<(), u32>(())), Ok(()));
    let signed = Processor::transfer_sol(&accounts, 4, 1, 6, 5, authority()).unwrap();
    assert_eq!(signed.settle(Err::<(), u32>(9)), Ok(()));
    assert_eq!(signed.settle(Ok::<(), u32>(())), Ok(()));
}
