use stake_deposit_interceptor::instruction::{
    InitStakePoolDepositStakeAuthorityArgs, StakeDepositInterceptorInstruction,
    UpdateStakePoolDepositStakeAuthorityArgs,
};
use stake_deposit_interceptor::state::{
    DepositReceipt, StakePoolDepositStakeAuthority, AUTHORITY_RECORD_LEN, DEPOSIT_RECEIPT_LEN,
};

fn sample_record() -> StakePoolDepositStakeAuthority {
    StakePoolDepositStakeAuthority {
        stake_pool: [1u8; 32],
        pool_mint: [2u8; 32],
        vault: [3u8; 32],
        stake_pool_program_id: [4u8; 32],
        authority: [5u8; 32],
        fee_wallet: [6u8; 32],
        cool_down_period: 100,
        inital_fee_rate: 20,
        bump_seed: 255,
    }
}

#[test]
fn authority_record_round_trips_through_codec() {
    let record = sample_record();
    let bytes = record.to_bytes();
    assert_eq!(bytes.len(), AUTHORITY_RECORD_LEN);
    let decoded = StakePoolDepositStakeAuthority::from_bytes(&bytes).unwrap();
    assert_eq!(decoded.stake_pool, record.stake_pool);
    assert_eq!(decoded.pool_mint, record.pool_mint);
    assert_eq!(decoded.vault, record.vault);
    assert_eq!(decoded.stake_pool_program_id, record.stake_pool_program_id);
    assert_eq!(decoded.authority, record.authority);
    assert_eq!(decoded.fee_wallet, record.fee_wallet);
    assert_eq!(decoded.cool_down_period, 100);
    assert_eq!(decoded.inital_fee_rate, 20);
    assert_eq!(decoded.bump_seed, 255);
}

#[test]
fn authority_record_layout_is_fixed() {
    let record = sample_record();
    let bytes = record.to_bytes();
    assert_eq!(&bytes[0..32], &[1u8; 32]);
    assert_eq!(&bytes[32..64], &[2u8; 32]);
    assert_eq!(&bytes[64..96], &[3u8; 32]);
    assert_eq!(&bytes[96..128], &[4u8; 32]);
    assert_eq!(&bytes[128..160], &[5u8; 32]);
    assert_eq!(&bytes[160..192], &[6u8; 32]);
    assert_eq!(&bytes[192..200], &100u64.to_le_bytes());
    assert_eq!(&bytes[200..204], &20u32.to_le_bytes());
    assert_eq!(bytes[204], 255);
}

#[test]
fn authority_record_decode_tolerates_trailing_bytes_only() {
    let record = sample_record();
    let mut bytes = record.to_bytes();
    bytes.push(9);
    bytes.push(9);
    let decoded = StakePoolDepositStakeAuthority::from_bytes(&bytes).unwrap();
    assert_eq!(decoded.cool_down_period, 100);

    let short = bytes[..AUTHORITY_RECORD_LEN - 1].to_vec();
    assert!(StakePoolDepositStakeAuthority::from_bytes(&short).is_err());
}

#[test]
fn uninitialized_record_is_detected() {
    let mut record = sample_record();
    assert!(record.is_initialized());
    record.stake_pool = [0u8; 32];
    assert!(!record.is_initialized());
}

#[test]
fn deposit_receipt_round_trips_through_codec() {
    let record = sample_record();
    let receipt = DepositReceipt::new(
        &[7u8; 32],
        &[8u8; 32],
        &[9u8; 32],
        &record,
        254,
        123_456,
        987_654,
    );
    assert_eq!(receipt.stake_pool, record.stake_pool);
    assert_eq!(receipt.cool_down_period, record.cool_down_period);
    assert_eq!(receipt.initial_fee_rate, record.inital_fee_rate);
    let bytes = receipt.to_bytes();
    assert_eq!(bytes.len(), DEPOSIT_RECEIPT_LEN);
    // fixed layout: back-references, then the bump, then the amounts
    assert_eq!(&bytes[0..32], &[7u8; 32]);
    assert_eq!(&bytes[32..64], &[8u8; 32]);
    assert_eq!(&bytes[64..96], &[1u8; 32]);
    assert_eq!(&bytes[96..128], &[9u8; 32]);
    assert_eq!(bytes[128], 254);
    assert_eq!(&bytes[129..137], &123_456u64.to_le_bytes());
    assert_eq!(&bytes[137..145], &100u64.to_le_bytes());
    assert_eq!(&bytes[145..149], &20u32.to_le_bytes());
    assert_eq!(&bytes[149..157], &987_654u64.to_le_bytes());
    let decoded = DepositReceipt::from_bytes(&bytes).unwrap();
    assert_eq!(decoded.owner, [7u8; 32]);
    assert_eq!(decoded.base, [8u8; 32]);
    assert_eq!(decoded.stake_pool, [1u8; 32]);
    assert_eq!(decoded.stake_pool_deposit_stake_authority, [9u8; 32]);
    assert_eq!(decoded.lst_amount, 123_456);
    assert_eq!(decoded.cool_down_period, 100);
    assert_eq!(decoded.initial_fee_rate, 20);
    assert_eq!(decoded.deposit_time, 987_654);
    assert_eq!(decoded.bump_seed, 254);
}

#[test]
fn init_instruction_round_trips_and_matches_layout() {
    let args = InitStakePoolDepositStakeAuthorityArgs {
        fee_wallet: [6u8; 32],
        cool_down_period: 100,
        initial_fee_rate: 20,
        bump_seed: 251,
    };
    let ix = StakeDepositInterceptorInstruction::InitStakePoolDepositStakeAuthority(args);
    let bytes = ix.pack();
    let mut expected = vec![0u8];
    expected.extend_from_slice(&[6u8; 32]);
    expected.extend_from_slice(&100u64.to_le_bytes());
    expected.extend_from_slice(&20u32.to_le_bytes());
    expected.push(251);
    assert_eq!(bytes, expected);
    match StakeDepositInterceptorInstruction::unpack(&bytes).unwrap() {
        StakeDepositInterceptorInstruction::InitStakePoolDepositStakeAuthority(decoded) => {
            assert_eq!(decoded.fee_wallet, [6u8; 32]);
            assert_eq!(decoded.cool_down_period, 100);
            assert_eq!(decoded.initial_fee_rate, 20);
            assert_eq!(decoded.bump_seed, 251);
        }
        _ => panic!("wrong variant"),
    }
}

#[test]
fn update_instruction_round_trips_all_option_shapes() {
    let shapes = [
        (None, None, None),
        (Some([6u8; 32]), None, None),
        (None, Some(78u64), None),
        (None, None, Some(20u32)),
        (Some([6u8; 32]), Some(78u64), Some(20u32)),
    ];
    for (fee_wallet, cool_down_period, initial_fee_rate) in shapes {
        let args = UpdateStakePoolDepositStakeAuthorityArgs {
            fee_wallet,
            cool_down_period,
            initial_fee_rate,
        };
        let ix = StakeDepositInterceptorInstruction::UpdateStakePoolDepositStakeAuthority(args);
        let bytes = ix.pack();
        assert_eq!(bytes[0], 1);
        match StakeDepositInterceptorInstruction::unpack(&bytes).unwrap() {
            StakeDepositInterceptorInstruction::UpdateStakePoolDepositStakeAuthority(d) => {
                assert_eq!(d.fee_wallet, fee_wallet);
                assert_eq!(d.cool_down_period, cool_down_period);
                assert_eq!(d.initial_fee_rate, initial_fee_rate);
            }
            _ => panic!("wrong variant"),
        }
    }
}

#[test]
fn update_instruction_sparse_layout_is_exact() {
    let args = UpdateStakePoolDepositStakeAuthorityArgs {
        fee_wallet: None,
        cool_down_period: Some(78),
        initial_fee_rate: None,
    };
    let ix = StakeDepositInterceptorInstruction::UpdateStakePoolDepositStakeAuthority(args);
    let bytes = ix.pack();
    let mut expected = vec![1u8, 0u8, 1u8];
    expected.extend_from_slice(&78u64.to_le_bytes());
    expected.push(0u8);
    assert_eq!(bytes, expected);
}

#[test]
fn deposit_instructions_round_trip() {
    let ix = StakeDepositInterceptorInstruction::DepositStake;
    let bytes = ix.pack();
    assert_eq!(bytes, vec![2u8]);
    assert!(matches!(
        StakeDepositInterceptorInstruction::unpack(&bytes).unwrap(),
        StakeDepositInterceptorInstruction::DepositStake
    ));

    let ix = StakeDepositInterceptorInstruction::DepositStakeWithSlippage {
        minimum_pool_tokens_out: 777,
    };
    let bytes = ix.pack();
    let mut expected = vec![3u8];
    expected.extend_from_slice(&777u64.to_le_bytes());
    assert_eq!(bytes, expected);
    match StakeDepositInterceptorInstruction::unpack(&bytes).unwrap() {
        StakeDepositInterceptorInstruction::DepositStakeWithSlippage {
            minimum_pool_tokens_out,
        } => assert_eq!(minimum_pool_tokens_out, 777),
        _ => panic!("wrong variant"),
    }
}

#[test]
fn unpack_rejects_malformed_payloads() {
    // empty
    assert!(StakeDepositInterceptorInstruction::unpack(&vec![]).is_err());
    // unknown tag
    assert!(StakeDepositInterceptorInstruction::unpack(&vec![4u8]).is_err());
    // create-authority payload too short and too long
    assert!(StakeDepositInterceptorInstruction::unpack(&vec![0u8; 45]).is_err());
    assert!(StakeDepositInterceptorInstruction::unpack(&vec![0u8; 47]).is_err());
    // update with a presence flag that is neither zero nor one
    assert!(StakeDepositInterceptorInstruction::unpack(&vec![1u8, 2u8, 0u8, 0u8]).is_err());
    // update with trailing bytes
    assert!(StakeDepositInterceptorInstruction::unpack(&vec![1u8, 0, 0, 0, 0]).is_err());
    // deposit with trailing bytes
    assert!(StakeDepositInterceptorInstruction::unpack(&vec![2u8, 0]).is_err());
    // slippage payload with a truncated minimum
    assert!(StakeDepositInterceptorInstruction::unpack(&vec![3u8, 1, 2, 3]).is_err());
}
