use solana_program::pubkey::Pubkey;
use stake_deposit_interceptor::error::{ProcessError, StakeDepositInterceptorError};
use stake_deposit_interceptor::instruction::InitStakePoolDepositStakeAuthorityArgs;
use stake_deposit_interceptor::pda::derive_stake_pool_deposit_stake_authority;
use stake_deposit_interceptor::processor::{AccountView, PdaCreatePlan, Processor};
use stake_deposit_interceptor::state::AUTHORITY_RECORD_LEN;

const RENT_MINIMUM: u64 = 3_000_000;

fn account(key: [u8; 32], owner: [u8; 32], is_signer: bool, data: Vec<u8>) -> AccountView {
    AccountView {
        key,
        owner,
        lamports: 0,
        is_signer,
        data,
    }
}

struct InitFixture {
    program_id: [u8; 32],
    accounts: Vec<AccountView>,
    args: InitStakePoolDepositStakeAuthorityArgs,
}

fn init_fixture() -> InitFixture {
    let program_id = Pubkey::new_unique().to_bytes();
    let payer = Pubkey::new_unique().to_bytes();
    let authority = Pubkey::new_unique().to_bytes();
    let stake_pool_program = Pubkey::new_unique().to_bytes();
    let stake_pool_key = Pubkey::new_unique().to_bytes();
    let manager = Pubkey::new_unique();
    let mint = Pubkey::new_unique();
    let fee_wallet = Pubkey::new_unique().to_bytes();
    let token_program = spl_token::id().to_bytes();

    let pool = spl_stake_pool::state::StakePool {
        account_type: spl_stake_pool::state::AccountType::StakePool,
        manager,
        pool_mint: mint,
        ..Default::default()
    };
    let pool_data = borsh::to_vec(&pool).unwrap();

    let (pda, bump) = derive_stake_pool_deposit_stake_authority(&program_id, &stake_pool_key)
        .unwrap();
    let vault = stake_deposit_interceptor::pda::get_associated_token_address(
        &pda,
        &mint.to_bytes(),
    )
    .unwrap();

    let accounts = vec![
        account(payer, [0u8; 32], true, vec![]),
        account(pda, [0u8; 32], false, vec![]),
        account(vault, [0u8; 32], false, vec![]),
        account(authority, [0u8; 32], true, vec![]),
        account(stake_pool_key, stake_pool_program, false, pool_data),
        account(mint.to_bytes(), token_program, false, vec![]),
        account(manager.to_bytes(), [0u8; 32], true, vec![]),
        account(stake_pool_program, [0u8; 32], false, vec![]),
        account(token_program, [0u8; 32], false, vec![]),
        account(
            stake_deposit_interceptor::address::ASSOCIATED_TOKEN_PROGRAM_ID,
            [0u8; 32],
            false,
            vec![],
        ),
        account(
            stake_deposit_interceptor::address::SYSTEM_PROGRAM_ID,
            [0u8; 32],
            false,
            vec![],
        ),
    ];
    let args = InitStakePoolDepositStakeAuthorityArgs {
        fee_wallet,
        cool_down_period: 100,
        initial_fee_rate: 20,
        bump_seed: bump,
    };
    InitFixture {
        program_id,
        accounts,
        args,
    }
}

#[test]
fn test_init_deposit_stake_authority() {
    let f = init_fixture();
    let plan = Processor::process_init_stake_pool_deposit_stake_authority(
        &f.program_id,
        &f.accounts,
        &f.args,
        RENT_MINIMUM,
    )
    .unwrap();
    assert_eq!(plan.deposit_stake_authority, f.accounts[1].key);
    assert_eq!(plan.vault, f.accounts[2].key);
    assert_eq!(plan.stake_pool, f.accounts[4].key);
    assert_eq!(plan.pool_mint, f.accounts[5].key);
    assert_eq!(plan.payer, f.accounts[0].key);
    assert_eq!(plan.token_program, f.accounts[8].key);
    assert_eq!(plan.signer_bump, f.args.bump_seed);
    assert_eq!(
        plan.pda_creation,
        PdaCreatePlan::CreateAccount {
            lamports: RENT_MINIMUM
        }
    );

    // Complete the creation against a freshly allocated, funded account.
    let (record, bytes) = Processor::finish_init_stake_pool_deposit_stake_authority(
        &vec![0u8; AUTHORITY_RECORD_LEN],
        RENT_MINIMUM,
        RENT_MINIMUM,
        &f.accounts[4].key,
        &f.accounts[5].key,
        &plan.vault,
        &f.accounts[7].key,
        &f.accounts[3].key,
        &f.args,
    )
    .unwrap();
    assert_eq!(record.stake_pool, f.accounts[4].key);
    assert_eq!(record.pool_mint, f.accounts[5].key);
    assert_eq!(record.vault, plan.vault);
    assert_eq!(record.stake_pool_program_id, f.accounts[7].key);
    assert_eq!(record.authority, f.accounts[3].key);
    assert_eq!(record.fee_wallet, f.args.fee_wallet);
    assert_eq!(record.cool_down_period, 100);
    assert_eq!(record.inital_fee_rate, 20);
    assert_eq!(record.bump_seed, f.args.bump_seed);
    assert_eq!(bytes.len(), AUTHORITY_RECORD_LEN);

    // A second creation attempt at the same account is rejected.
    let again = Processor::finish_init_stake_pool_deposit_stake_authority(
        &bytes,
        RENT_MINIMUM,
        RENT_MINIMUM,
        &f.accounts[4].key,
        &f.accounts[5].key,
        &plan.vault,
        &f.accounts[7].key,
        &f.accounts[3].key,
        &f.args,
    );
    assert_eq!(
        again.err(),
        Some(ProcessError::Interceptor(
            StakeDepositInterceptorError::AlreadyInUse
        ))
    );
}

#[test]
fn test_fail_below_rent_exempt_minimum() {
    let f = init_fixture();
    let r = Processor::finish_init_stake_pool_deposit_stake_authority(
        &vec![0u8; AUTHORITY_RECORD_LEN],
        RENT_MINIMUM - 1,
        RENT_MINIMUM,
        &f.accounts[4].key,
        &f.accounts[5].key,
        &f.accounts[2].key,
        &f.accounts[7].key,
        &f.accounts[3].key,
        &f.args,
    );
    assert_eq!(r.err(), Some(ProcessError::AccountNotRentExempt));
}

fn run_init(f: &InitFixture) -> Result<(), ProcessError> {
    Processor::process_init_stake_pool_deposit_stake_authority(
        &f.program_id,
        &f.accounts,
        &f.args,
        RENT_MINIMUM,
    )
    .map(|_| ())
}

#[test]
fn test_fail_authority_non_signer() {
    let mut f = init_fixture();
    f.accounts[3].is_signer = false;
    assert_eq!(
        run_init(&f),
        Err(ProcessError::Interceptor(
            StakeDepositInterceptorError::SignatureMissing
        ))
    );
}

#[test]
fn test_fail_stakepool_manager_non_signer() {
    let mut f = init_fixture();
    f.accounts[6].is_signer = false;
    assert_eq!(
        run_init(&f),
        Err(ProcessError::Interceptor(
            StakeDepositInterceptorError::SignatureMissing
        ))
    );
}

#[test]
fn test_fail_incorrect_stakepool_program() {
    let mut f = init_fixture();
    f.accounts[7].key = Pubkey::new_unique().to_bytes();
    assert_eq!(
        run_init(&f),
        Err(ProcessError::Interceptor(
            StakeDepositInterceptorError::InvalidStakePool
        ))
    );
}

#[test]
fn test_fail_incorrect_stakepool_manager() {
    let mut f = init_fixture();
    f.accounts[6].key = Pubkey::new_unique().to_bytes();
    assert_eq!(
        run_init(&f),
        Err(ProcessError::Interceptor(
            StakeDepositInterceptorError::InvalidStakePoolManager
        ))
    );
}

#[test]
fn test_fail_incorrect_stakepool_mint() {
    let mut f = init_fixture();
    f.accounts[5].key = Pubkey::new_unique().to_bytes();
    assert_eq!(
        run_init(&f),
        Err(ProcessError::Interceptor(
            StakeDepositInterceptorError::InvalidStakePool
        ))
    );
}

#[test]
fn test_fail_incorrect_token_program() {
    let mut f = init_fixture();
    f.accounts[5].owner = Pubkey::new_unique().to_bytes();
    assert_eq!(
        run_init(&f),
        Err(ProcessError::Interceptor(
            StakeDepositInterceptorError::InvalidTokenProgram
        ))
    );
}

#[test]
fn test_fail_incorrect_deposit_stake_authority() {
    let mut f = init_fixture();
    f.accounts[1].key = Pubkey::new_unique().to_bytes();
    assert_eq!(
        run_init(&f),
        Err(ProcessError::Interceptor(
            StakeDepositInterceptorError::InvalidSeeds
        ))
    );
}

#[test]
fn test_fail_incorrect_vault() {
    let mut f = init_fixture();
    f.accounts[2].key = Pubkey::new_unique().to_bytes();
    assert_eq!(
        run_init(&f),
        Err(ProcessError::Interceptor(
            StakeDepositInterceptorError::InvalidVault
        ))
    );
}

#[test]
fn test_fail_unparsable_stake_pool_account() {
    let mut f = init_fixture();
    f.accounts[4].data = vec![7u8; 3];
    assert_eq!(run_init(&f), Err(ProcessError::InvalidAccountData));
}

#[test]
fn test_fail_not_enough_accounts() {
    let mut f = init_fixture();
    f.accounts.truncate(10);
    assert_eq!(run_init(&f), Err(ProcessError::NotEnoughAccountKeys));
}
