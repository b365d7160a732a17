use escrow::bytes::{read_u64_le, u64_le_bytes};
use escrow::error::{EscrowError, ProgramError};
use escrow::instruction::EscrowInstruction;

#[test]
fn read_u64_le_agrees_with_std() {
    let buffer = [0xaa, 1, 2, 3, 4, 5, 6, 7, 8, 0xbb];
    assert_eq!(read_u64_le(&buffer, 1), u64::from_le_bytes([1, 2, 3, 4, 5, 6, 7, 8]));
    assert_eq!(read_u64_le(&buffer, 1), 0x0807_0605_0403_0201);
    assert_eq!(read_u64_le(&[0xff; 8], 0), u64::MAX);
    assert_eq!(read_u64_le(&[0; 8], 0), 0);
}

#[test]
fn u64_le_bytes_agrees_with_std() {
    for x in [0u64, 1, 255, 256, 1000, 0x0807_0605_0403_0201, u64::MAX - 1, u64::MAX] {
        assert_eq!(u64_le_bytes(x), x.to_le_bytes());
        assert_eq!(read_u64_le(&u64_le_bytes(x), 0), x);
    }
    assert_eq!(u64_le_bytes(1000), [0xe8, 3, 0, 0, 0, 0, 0, 0]);
}

#[test]
fn unpack_deposit() {
    let data = [0, 1, 0xe8, 3, 0, 0, 0, 0, 0, 0];
    assert_eq!(
        EscrowInstruction::unpack(&data),
        Ok(EscrowInstruction::InitEscrow { is_creator: 1, amount: 1000 })
    );
}

#[test]
fn unpack_withdraw() {
    let data = [1, 0, 0xdc, 5, 0, 0, 0, 0, 0, 0];
    assert_eq!(
        EscrowInstruction::unpack(&data),
        Ok(EscrowInstruction::WithdrawEscrow { result: 0, amount: 1500 })
    );
}

#[test]
fn unpack_keeps_any_flag_byte() {
    let data = [0, 0xfe, 1, 0, 0, 0, 0, 0, 0, 0x80];
    assert_eq!(
        EscrowInstruction::unpack(&data),
        Ok(EscrowInstruction::InitEscrow { is_creator: 0xfe, amount: 0x8000_0000_0000_0001 })
    );
}

#[test]
fn unpack_ignores_bytes_behind_the_amount() {
    let data = [1, 1, 7, 0, 0, 0, 0, 0, 0, 0, 9, 9, 9];
    assert_eq!(
        EscrowInstruction::unpack(&data),
        Ok(EscrowInstruction::WithdrawEscrow { result: 1, amount: 7 })
    );
}

#[test]
fn unpack_rejects_short_buffers() {
    let full = [0u8, 1, 0xe8, 3, 0, 0, 0, 0, 0, 0];
    for len in 0..10 {
        assert_eq!(
            EscrowInstruction::unpack(&full[..len]),
            Err(ProgramError::Custom(0)),
            "length {}",
            len
        );
    }
}

#[test]
fn unpack_rejects_unknown_opcodes() {
    for tag in 2..=255u8 {
        let data = [tag, 1, 0xe8, 3, 0, 0, 0, 0, 0, 0];
        assert_eq!(EscrowInstruction::unpack(&data), Err(ProgramError::Custom(0)));
    }
}

#[test]
fn unpack_amount_reads_eight_bytes() {
    assert_eq!(EscrowInstruction::unpack_amount(&[0xe8, 3, 0, 0, 0, 0, 0, 0]), Ok(1000));
    assert_eq!(EscrowInstruction::unpack_amount(&[1, 0, 0, 0, 0, 0, 0, 0, 0xff]), Ok(1));
    assert_eq!(
        EscrowInstruction::unpack_amount(&[0xe8, 3, 0, 0, 0, 0, 0]),
        Err(ProgramError::Custom(0))
    );
    assert_eq!(EscrowInstruction::unpack_amount(&[]), Err(ProgramError::Custom(0)));
}

#[test]
fn pack_writes_the_wire_format() {
    let deposit = EscrowInstruction::InitEscrow { is_creator: 1, amount: 1000 };
    assert_eq!(deposit.pack(), vec![0, 1, 0xe8, 3, 0, 0, 0, 0, 0, 0]);
    let withdraw = EscrowInstruction::WithdrawEscrow { result: 1, amount: u64::MAX };
    assert_eq!(withdraw.pack(), vec![1, 1, 255, 255, 255, 255, 255, 255, 255, 255]);
}

#[test]
fn pack_then_unpack_gives_the_instruction_back() {
    for flag in [0u8, 1, 2, 77, 255] {
        for amount in [0u64, 1, 999, 1000, 1 << 32, u64::MAX] {
            let deposit = EscrowInstruction::InitEscrow { is_creator: flag, amount };
            assert_eq!(EscrowInstruction::unpack(&deposit.pack()), Ok(deposit));
            let withdraw = EscrowInstruction::WithdrawEscrow { result: flag, amount };
            assert_eq!(EscrowInstruction::unpack(&withdraw.pack()), Ok(withdraw));
        }
    }
}

#[test]
fn escrow_errors_have_their_codes() {
    let all = [
        EscrowError::InvalidInstruction,
        EscrowError::NotRentExempt,
        EscrowError::ExpectedAmountMismatch,
        EscrowError::AmountOverflow,
        EscrowError::InvalidAccount,
        EscrowError::InvalidAmount,
        EscrowError::InvalidOwner,
        EscrowError::InvalidPdaSeeds,
    ];
    for (position, error) in all.iter().enumerate() {
        assert_eq!(error.code() as usize, position);
        assert_eq!(ProgramError::from(*error), ProgramError::Custom(position as u32));
    }
}

#[test]
fn escrow_errors_have_their_messages() {
    assert_eq!(EscrowError::InvalidInstruction.message(), "Invalid Instruction");
    assert_eq!(EscrowError::NotRentExempt.message(), "Not Rent Exempt");
    assert_eq!(EscrowError::ExpectedAmountMismatch.message(), "Expected Amount Mismatch");
    assert_eq!(EscrowError::AmountOverflow.message(), "Amount Overflow");
    assert_eq!(EscrowError::InvalidAccount.message(), "Invalid Account");
    assert_eq!(EscrowError::InvalidAmount.message(), "Invalid Amount");
    assert_eq!(EscrowError::InvalidOwner.message(), "Invalid Owner");
    assert_eq!(EscrowError::InvalidPdaSeeds.message(), "Invalid PDA Seeds");
}
