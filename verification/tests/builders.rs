use solana_program::pubkey::Pubkey;
use stake_deposit_interceptor::instruction::{
    create_deposit_stake_instruction, create_init_deposit_stake_authority_instruction,
    create_update_deposit_stake_authority_instruction,
};
use stake_deposit_interceptor::pda::derive_stake_pool_deposit_stake_authority;

fn key() -> [u8; 32] {
    Pubkey::new_unique().to_bytes()
}

#[test]
fn init_builder_assembles_the_eleven_account_list() {
    let program_id = key();
    let payer = key();
    let stake_pool = key();
    let mint = key();
    let manager = key();
    let stake_pool_program = key();
    let token_program = spl_token::id().to_bytes();
    let fee_wallet = key();
    let authority = key();

    let ix = create_init_deposit_stake_authority_instruction(
        &program_id,
        &payer,
        &stake_pool,
        &mint,
        &manager,
        &stake_pool_program,
        &token_program,
        &fee_wallet,
        100,
        20,
        &authority,
    )
    .unwrap();

    let (pda, bump) = derive_stake_pool_deposit_stake_authority(&program_id, &stake_pool)
        .unwrap();
    let vault =
        stake_deposit_interceptor::pda::get_associated_token_address(&pda, &mint).unwrap();

    assert_eq!(ix.program_id, program_id);
    assert_eq!(ix.accounts.len(), 11);
    let expected_keys = [
        payer,
        pda,
        vault,
        authority,
        stake_pool,
        mint,
        manager,
        stake_pool_program,
        token_program,
        stake_deposit_interceptor::address::ASSOCIATED_TOKEN_PROGRAM_ID,
        stake_deposit_interceptor::address::SYSTEM_PROGRAM_ID,
    ];
    for (i, expected) in expected_keys.iter().enumerate() {
        assert_eq!(&ix.accounts[i].pubkey, expected, "account {}", i);
    }
    let signers = [true, false, false, true, false, false, true, false, false, false, false];
    let writable = [true, true, true, false, false, false, false, false, false, false, false];
    for i in 0..11 {
        assert_eq!(ix.accounts[i].is_signer, signers[i], "signer {}", i);
        assert_eq!(ix.accounts[i].is_writable, writable[i], "writable {}", i);
    }
    // the payload carries the derived bump
    let mut expected_data = vec![0u8];
    expected_data.extend_from_slice(&fee_wallet);
    expected_data.extend_from_slice(&100u64.to_le_bytes());
    expected_data.extend_from_slice(&20u32.to_le_bytes());
    expected_data.push(bump);
    assert_eq!(ix.data, expected_data);
}

#[test]
fn update_builder_appends_the_new_authority_only_when_asked() {
    let program_id = key();
    let stake_pool = key();
    let authority = key();
    let new_authority = key();
    let fee_wallet = key();
    let (pda, _bump) = derive_stake_pool_deposit_stake_authority(&program_id, &stake_pool)
        .unwrap();

    let ix = create_update_deposit_stake_authority_instruction(
        &program_id,
        &stake_pool,
        &authority,
        None,
        Some(fee_wallet),
        Some(78),
        None,
    )
    .unwrap();
    assert_eq!(ix.accounts.len(), 2);
    assert_eq!(ix.accounts[0].pubkey, pda);
    assert!(ix.accounts[0].is_writable && !ix.accounts[0].is_signer);
    assert_eq!(ix.accounts[1].pubkey, authority);
    assert!(ix.accounts[1].is_signer && !ix.accounts[1].is_writable);

    let mut expected_data = vec![1u8, 1u8];
    expected_data.extend_from_slice(&fee_wallet);
    expected_data.push(1u8);
    expected_data.extend_from_slice(&78u64.to_le_bytes());
    expected_data.push(0u8);
    assert_eq!(ix.data, expected_data);

    let ix = create_update_deposit_stake_authority_instruction(
        &program_id,
        &stake_pool,
        &authority,
        Some(new_authority),
        None,
        None,
        None,
    )
    .unwrap();
    assert_eq!(ix.accounts.len(), 3);
    assert_eq!(ix.accounts[2].pubkey, new_authority);
    assert!(ix.accounts[2].is_signer && ix.accounts[2].is_writable);
    assert_eq!(ix.data, vec![1u8, 0u8, 0u8, 0u8]);
}

#[test]
fn deposit_builder_prepends_the_two_authorize_instructions() {
    let program_id = key();
    let stake_pool_program = key();
    let stake_pool = key();
    let validator_list = key();
    let withdraw_authority = key();
    let stake_account = key();
    let stake_withdrawer = key();
    let validator_stake = key();
    let reserve = key();
    let pool_tokens_to = key();
    let manager_fee = key();
    let referrer = key();
    let mint = key();
    let token_program = spl_token::id().to_bytes();

    let instructions = create_deposit_stake_instruction(
        &program_id,
        &stake_pool_program,
        &stake_pool,
        &validator_list,
        &withdraw_authority,
        &stake_account,
        &stake_withdrawer,
        &validator_stake,
        &reserve,
        &pool_tokens_to,
        &manager_fee,
        &referrer,
        &mint,
        &token_program,
    )
    .unwrap();
    assert_eq!(instructions.len(), 3);

    let (pda, _bump) = derive_stake_pool_deposit_stake_authority(&program_id, &stake_pool)
        .unwrap();

    // the two authorize instructions match the stake program's own builder
    let roles = [
        solana_stake_interface::state::StakeAuthorize::Staker,
        solana_stake_interface::state::StakeAuthorize::Withdrawer,
    ];
    for (i, role) in roles.into_iter().enumerate() {
        let expected = solana_stake_interface::instruction::authorize(
            &Pubkey::new_from_array(stake_account),
            &Pubkey::new_from_array(stake_withdrawer),
            &Pubkey::new_from_array(pda),
            role,
            None,
        );
        let got = &instructions[i];
        assert_eq!(got.program_id, expected.program_id.to_bytes());
        assert_eq!(got.accounts.len(), expected.accounts.len());
        assert_eq!(got.accounts.len(), 2);
        for (m, em) in got.accounts.iter().zip(expected.accounts.iter()) {
            assert_eq!(m.pubkey, em.pubkey.to_bytes());
            assert_eq!(m.is_signer, em.is_signer);
            assert_eq!(m.is_writable, em.is_writable);
        }
        assert_eq!(got.accounts[0].pubkey, stake_account);
        assert!(got.accounts[0].is_writable && !got.accounts[0].is_signer);
        assert_eq!(got.accounts[1].pubkey, stake_withdrawer);
        assert!(got.accounts[1].is_signer && !got.accounts[1].is_writable);
        assert_eq!(got.data, expected.data);
        // the payload is the authorize tag, the new authority, and the
        // role, with four-byte little-endian tags
        let mut payload = vec![1u8, 0, 0, 0];
        payload.extend_from_slice(&pda);
        payload.extend_from_slice(&(i as u32).to_le_bytes());
        assert_eq!(got.data, payload);
    }

    // the deposit instruction itself
    let deposit = &instructions[2];
    assert_eq!(deposit.program_id, program_id);
    assert_eq!(deposit.accounts.len(), 16);
    let expected_keys = [
        stake_pool_program,
        stake_pool,
        validator_list,
        pda,
        withdraw_authority,
        stake_account,
        validator_stake,
        reserve,
        pool_tokens_to,
        manager_fee,
        referrer,
        mint,
        stake_deposit_interceptor::address::CLOCK_SYSVAR_ID,
        stake_deposit_interceptor::address::STAKE_HISTORY_SYSVAR_ID,
        token_program,
        stake_deposit_interceptor::address::STAKE_PROGRAM_ID,
    ];
    for (i, expected) in expected_keys.iter().enumerate() {
        assert_eq!(&deposit.accounts[i].pubkey, expected, "account {}", i);
    }
    assert!(deposit.accounts[3].is_signer);
    assert_eq!(deposit.data, vec![2u8]);
}
