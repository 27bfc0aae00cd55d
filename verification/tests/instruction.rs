use bet_program::error::{BetError, ProgramFault};
use bet_program::instruction::{BetInstruction, AMOUNT_WIDTH, TAG_CLAIM_REWARD, TAG_STAKE};

const INVALID: ProgramFault = ProgramFault::Custom(0);

#[test]
fn unpack_stake_of_ten() {
    let data = [0x00, 0x0A, 0, 0, 0, 0, 0, 0, 0];
    assert_eq!(BetInstruction::unpack(&data), Ok(BetInstruction::Stake { amount: 10 }));
}

#[test]
fn unpack_claim_of_thousand() {
    let data = [0x01, 0xE8, 0x03, 0, 0, 0, 0, 0, 0];
    assert_eq!(BetInstruction::unpack(&data), Ok(BetInstruction::ClaimReward { amount: 1000 }));
}

#[test]
fn unpack_empty_is_invalid() {
    assert_eq!(BetInstruction::unpack(&[]), Err(INVALID));
}

#[test]
fn unpack_unknown_tag_is_invalid() {
    let data = [0x02, 0, 0, 0, 0, 0, 0, 0, 0];
    assert_eq!(BetInstruction::unpack(&data), Err(INVALID));
}

#[test]
fn unpack_short_amount_is_invalid() {
    let data = [0x00, 0, 0, 0];
    assert_eq!(BetInstruction::unpack(&data), Err(INVALID));
}

#[test]
fn unpack_every_unknown_tag_is_invalid() {
    for tag in 2..=255u8 {
        let mut data = vec![tag];
        data.extend_from_slice(&7u64.to_le_bytes());
        assert_eq!(BetInstruction::unpack(&data), Err(INVALID));
    }
}

#[test]
fn unpack_every_short_length_is_invalid() {
    for tag in [TAG_STAKE, TAG_CLAIM_REWARD] {
        for len in 0..AMOUNT_WIDTH {
            let mut data = vec![tag];
            data.extend_from_slice(&vec![0xFF; len]);
            assert_eq!(BetInstruction::unpack(&data), Err(INVALID));
        }
    }
}

#[test]
fn unpack_tag_alone_is_invalid() {
    assert_eq!(BetInstruction::unpack(&[0]), Err(INVALID));
    assert_eq!(BetInstruction::unpack(&[1]), Err(INVALID));
}

#[test]
fn unpack_reads_least_significant_byte_first() {
    let data = [0x00, 0x01, 0x02, 0x03, 0x04, 0x05, 0x06, 0x07, 0x08];
    assert_eq!(
        BetInstruction::unpack(&data),
        Ok(BetInstruction::Stake { amount: 0x0807_0605_0403_0201 })
    );
    let data = [0x01, 0, 0, 0, 0, 0, 0, 0, 0x80];
    assert_eq!(
        BetInstruction::unpack(&data),
        Ok(BetInstruction::ClaimReward { amount: 0x8000_0000_0000_0000 })
    );
}

#[test]
fn unpack_takes_the_extremes() {
    let mut data = vec![TAG_STAKE];
    data.extend_from_slice(&[0xFF; 8]);
    assert_eq!(BetInstruction::unpack(&data), Ok(BetInstruction::Stake { amount: u64::MAX }));
    let mut data = vec![TAG_CLAIM_REWARD];
    data.extend_from_slice(&[0; 8]);
    assert_eq!(BetInstruction::unpack(&data), Ok(BetInstruction::ClaimReward { amount: 0 }));
}

#[test]
fn unpack_agrees_with_the_standard_encoding() {
    let amounts = [0u64, 1, 255, 256, 65_535, 65_536, 1 << 32, (1 << 56) + 3, u64::MAX - 1, u64::MAX];
    for amount in amounts {
        let mut data = vec![TAG_STAKE];
        data.extend_from_slice(&amount.to_le_bytes());
        assert_eq!(BetInstruction::unpack(&data), Ok(BetInstruction::Stake { amount }));
        data[0] = TAG_CLAIM_REWARD;
        assert_eq!(BetInstruction::unpack(&data), Ok(BetInstruction::ClaimReward { amount }));
    }
}

#[test]
fn unpack_ignores_what_follows_the_amount() {
    let data = [0x00, 0x0A, 0, 0, 0, 0, 0, 0, 0, 0xDE, 0xAD, 0xBE, 0xEF];
    assert_eq!(BetInstruction::unpack(&data), Ok(BetInstruction::Stake { amount: 10 }));
    let data = [0x01, 0xE8, 0x03, 0, 0, 0, 0, 0, 0, 0xFF];
    assert_eq!(BetInstruction::unpack(&data), Ok(BetInstruction::ClaimReward { amount: 1000 }));
}

#[test]
fn unpack_is_repeatable() {
    let data = [0x01, 9, 8, 7, 6, 5, 4, 3, 2];
    assert_eq!(BetInstruction::unpack(&data), BetInstruction::unpack(&data));
}

#[test]
fn unpack_amount_needs_eight_bytes() {
    for len in 0..8 {
        assert_eq!(BetInstruction::unpack_amount(&vec![1u8; len]), Err(INVALID));
    }
    assert_eq!(BetInstruction::unpack_amount(&[1u8; 8]), Ok(0x0101_0101_0101_0101));
}

#[test]
fn unpack_amount_reads_the_first_eight_bytes() {
    assert_eq!(BetInstruction::unpack_amount(&[0x0A, 0, 0, 0, 0, 0, 0, 0]), Ok(10));
    assert_eq!(BetInstruction::unpack_amount(&[0xE8, 0x03, 0, 0, 0, 0, 0, 0, 0x55]), Ok(1000));
    assert_eq!(
        BetInstruction::unpack_amount(&[0xEF, 0xCD, 0xAB, 0x89, 0x67, 0x45, 0x23, 0x01]),
        Ok(0x0123_4567_89AB_CDEF)
    );
}

#[test]
fn bet_error_codes_follow_the_declaration() {
    assert_eq!(BetError::InvalidInstruction.code(), 0);
    assert_eq!(BetError::NotRentExempt.code(), 1);
}

#[test]
fn bet_error_becomes_a_custom_fault() {
    assert_eq!(ProgramFault::from(BetError::InvalidInstruction), ProgramFault::Custom(0));
    assert_eq!(ProgramFault::from(BetError::NotRentExempt), ProgramFault::Custom(1));
    let fault: ProgramFault = BetError::NotRentExempt.into();
    assert_eq!(fault, ProgramFault::Custom(1));
}

#[test]
fn bet_error_messages() {
    assert_eq!(BetError::InvalidInstruction.message(), "Invalid Instruction");
    assert_eq!(BetError::NotRentExempt.message(), "Not Rent Exempt");
}
