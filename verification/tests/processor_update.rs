use solana_program::pubkey::Pubkey;
use stake_deposit_interceptor::error::{ProcessError, StakeDepositInterceptorError};
use stake_deposit_interceptor::instruction::{
    StakeDepositInterceptorInstruction, UpdateStakePoolDepositStakeAuthorityArgs,
};
use stake_deposit_interceptor::pda::derive_stake_pool_deposit_stake_authority;
use stake_deposit_interceptor::processor::{AccountView, ProcessEffects, Processor};
use stake_deposit_interceptor::state::StakePoolDepositStakeAuthority;

struct UpdateFixture {
    program_id: [u8; 32],
    record: StakePoolDepositStakeAuthority,
    accounts: Vec<AccountView>,
}

fn update_fixture(with_new_authority: bool) -> UpdateFixture {
    let program_id = Pubkey::new_unique().to_bytes();
    let stake_pool = Pubkey::new_unique().to_bytes();
    let authority = Pubkey::new_unique().to_bytes();
    let (pda, bump) =
        derive_stake_pool_deposit_stake_authority(&program_id, &stake_pool).unwrap();
    let record = StakePoolDepositStakeAuthority {
        stake_pool,
        pool_mint: Pubkey::new_unique().to_bytes(),
        vault: Pubkey::new_unique().to_bytes(),
        stake_pool_program_id: Pubkey::new_unique().to_bytes(),
        authority,
        fee_wallet: Pubkey::new_unique().to_bytes(),
        cool_down_period: 100,
        inital_fee_rate: 20,
        bump_seed: bump,
    };
    let mut accounts = vec![
        AccountView {
            key: pda,
            owner: program_id,
            lamports: 1,
            is_signer: false,
            data: record.to_bytes(),
        },
        AccountView {
            key: authority,
            owner: [0u8; 32],
            lamports: 1,
            is_signer: true,
            data: vec![],
        },
    ];
    if with_new_authority {
        accounts.push(AccountView {
            key: Pubkey::new_unique().to_bytes(),
            owner: [0u8; 32],
            lamports: 1,
            is_signer: true,
            data: vec![],
        });
    }
    UpdateFixture {
        program_id,
        record,
        accounts,
    }
}

#[test]
fn test_update_deposit_stake_authority() {
    let f = update_fixture(true);
    let fee_wallet = Pubkey::new_unique().to_bytes();
    let args = UpdateStakePoolDepositStakeAuthorityArgs {
        fee_wallet: Some(fee_wallet),
        cool_down_period: Some(78),
        initial_fee_rate: Some(20),
    };
    let (updated, bytes) =
        Processor::process_update_deposit_stake_authority(&f.program_id, &f.accounts, &args)
            .unwrap();
    assert_eq!(updated.cool_down_period, 78);
    assert_eq!(updated.inital_fee_rate, 20);
    assert_eq!(updated.fee_wallet, fee_wallet);
    assert_eq!(updated.authority, f.accounts[2].key);
    // immutable fields are untouched
    assert_eq!(updated.stake_pool, f.record.stake_pool);
    assert_eq!(updated.pool_mint, f.record.pool_mint);
    assert_eq!(updated.vault, f.record.vault);
    assert_eq!(updated.stake_pool_program_id, f.record.stake_pool_program_id);
    assert_eq!(updated.bump_seed, f.record.bump_seed);
    let decoded = StakePoolDepositStakeAuthority::from_bytes(&bytes).unwrap();
    assert_eq!(decoded.cool_down_period, 78);
}

#[test]
fn update_with_only_cool_down_leaves_other_fields_alone() {
    let f = update_fixture(false);
    let args = UpdateStakePoolDepositStakeAuthorityArgs {
        fee_wallet: None,
        cool_down_period: Some(78),
        initial_fee_rate: None,
    };
    let old_bytes = f.accounts[0].data.clone();
    let (updated, bytes) =
        Processor::process_update_deposit_stake_authority(&f.program_id, &f.accounts, &args)
            .unwrap();
    assert_eq!(updated.cool_down_period, 78);
    assert_eq!(updated.fee_wallet, f.record.fee_wallet);
    assert_eq!(updated.inital_fee_rate, f.record.inital_fee_rate);
    assert_eq!(updated.authority, f.record.authority);
    // omitted fields stay byte-identical; the cool-down bytes change
    assert_eq!(&bytes[..192], &old_bytes[..192]);
    assert_eq!(&bytes[200..], &old_bytes[200..]);
    assert_eq!(&bytes[192..200], &78u64.to_le_bytes());
}

#[test]
fn update_through_process_dispatch() {
    let f = update_fixture(false);
    let args = UpdateStakePoolDepositStakeAuthorityArgs {
        fee_wallet: None,
        cool_down_period: Some(78),
        initial_fee_rate: None,
    };
    let input =
        StakeDepositInterceptorInstruction::UpdateStakePoolDepositStakeAuthority(args).pack();
    match Processor::process(&f.program_id, &f.accounts, &input, 0).unwrap() {
        ProcessEffects::UpdateAuthority {
            record,
            record_bytes,
        } => {
            assert_eq!(record.cool_down_period, 78);
            assert_eq!(record_bytes.len(), stake_deposit_interceptor::state::AUTHORITY_RECORD_LEN);
        }
        _ => panic!("wrong effects"),
    }
}

#[test]
fn process_rejects_malformed_input() {
    let f = update_fixture(false);
    assert_eq!(
        Processor::process(&f.program_id, &f.accounts, &vec![9u8, 9u8], 0).err(),
        Some(ProcessError::InvalidInstructionData)
    );
}

fn run_update(f: &UpdateFixture) -> Result<(), ProcessError> {
    let args = UpdateStakePoolDepositStakeAuthorityArgs {
        fee_wallet: None,
        cool_down_period: Some(78),
        initial_fee_rate: None,
    };
    Processor::process_update_deposit_stake_authority(&f.program_id, &f.accounts, &args)
        .map(|_| ())
}

#[test]
fn test_fail_program_does_not_own_pda_account() {
    let mut f = update_fixture(false);
    f.accounts[0].owner = Pubkey::new_unique().to_bytes();
    assert_eq!(run_update(&f), Err(ProcessError::IncorrectProgramId));
}

#[test]
fn test_fail_authority_not_signer() {
    let mut f = update_fixture(false);
    f.accounts[1].is_signer = false;
    assert_eq!(
        run_update(&f),
        Err(ProcessError::Interceptor(
            StakeDepositInterceptorError::SignatureMissing
        ))
    );
}

#[test]
fn test_fail_authority_incorrect() {
    let mut f = update_fixture(false);
    f.accounts[1].key = Pubkey::new_unique().to_bytes();
    assert_eq!(
        run_update(&f),
        Err(ProcessError::Interceptor(
            StakeDepositInterceptorError::InvalidAuthority
        ))
    );
}

#[test]
fn test_fail_invalid_stake_deposit_authority_address() {
    let mut f = update_fixture(false);
    // a bit-identical record copied to a different address
    f.accounts[0].key = Pubkey::new_unique().to_bytes();
    assert_eq!(
        run_update(&f),
        Err(ProcessError::Interceptor(
            StakeDepositInterceptorError::InvalidStakePoolDepositStakeAuthority
        ))
    );
}

#[test]
fn test_fail_new_authority_not_signer() {
    let mut f = update_fixture(true);
    f.accounts[2].is_signer = false;
    assert_eq!(
        run_update(&f),
        Err(ProcessError::Interceptor(
            StakeDepositInterceptorError::SignatureMissing
        ))
    );
}

#[test]
fn test_fail_record_data_too_short() {
    let mut f = update_fixture(false);
    f.accounts[0].data.truncate(10);
    assert_eq!(run_update(&f), Err(ProcessError::InvalidAccountData));
}
