//! The instruction-assembly core of the off-chain query service: given
//! the decoded authority record and stake pool, the depositor's stake
//! account and its delegated vote account, it re-derives every address
//! the on-chain validation will check and builds the deposit
//! instructions. The service's own fetching and transport stay outside
//! the library.

use vstd::prelude::*;

use crate::address::Address;
use crate::instruction::{deposit_instructions_ok, Instruction};
use crate::pda::{
    authority_seeds, try_find_pda, validator_stake_seeds, withdraw_authority_seeds,
};
use crate::processor::StakePoolInfo;
use crate::state::StakePoolDepositStakeAuthority;

verus! {

/// The error body the query service returns to its clients.
pub struct Error {
    /// A human-readable description of the failure.
    pub error: String,
}

/// Assemble the deposit instructions for a depositor's stake account:
/// the validator's pool stake account and the pool's withdraw authority
/// are re-derived from the record's stake pool, the referrer defaults to
/// the record's vault, and the result is exactly what the deposit
/// operation's on-chain validation expects. Returns nothing only when
/// one of the derivations finds no viable bump nonce.
pub fn build_deposit_stake_instructions(
    program_id: &Address,
    stake_pool_program_id: &Address,
    token_program_id: &Address,
    stake: &Address,
    withdraw_authority: &Address,
    referrer_token_account: Option<Address>,
    record: &StakePoolDepositStakeAuthority,
    pool: &StakePoolInfo,
    vote_account: &Address,
    validator_seed_suffix: u32,
) -> (r: Option<Vec<Instruction>>)
    ensures
        ({
            let seed_opt = if validator_seed_suffix == 0 {
                Option::<u32>::None
            } else {
                Option::Some(validator_seed_suffix)
            };
            let vstake = try_find_pda(
                validator_stake_seeds(vote_account@, record.stake_pool@, seed_opt),
                stake_pool_program_id@,
            );
            let wauth = try_find_pda(
                withdraw_authority_seeds(record.stake_pool@),
                stake_pool_program_id@,
            );
            let ipda = try_find_pda(authority_seeds(record.stake_pool@), program_id@);
            &&& (r is Some <==> (vstake is Some && wauth is Some && ipda is Some))
            &&& (r matches Some(v) ==> deposit_instructions_ok(
                v@,
                program_id@,
                stake_pool_program_id@,
                record.stake_pool@,
                pool.validator_list@,
                ipda->Some_0.0,
                wauth->Some_0.0,
                stake@,
                withdraw_authority@,
                vstake->Some_0.0,
                pool.reserve_stake@,
                record.vault@,
                pool.manager_fee_account@,
                match referrer_token_account {
                    Option::Some(a) => a@,
                    Option::None => record.vault@,
                },
                pool.pool_mint@,
                token_program_id@,
                Option::<u64>::None,
            ))
        }),
{
    let seed_opt: Option<u32> = if validator_seed_suffix == 0 {
        None
    } else {
        Some(validator_seed_suffix)
    };
    let validator_stake_account = match crate::pda::find_stake_program_address(
        stake_pool_program_id,
        vote_account,
        &record.stake_pool,
        seed_opt,
    ) {
        Option::None => {
            return None;
        },
        Option::Some(p) => p.0,
    };
    let pool_withdraw_authority = match crate::pda::find_withdraw_authority_program_address(
        stake_pool_program_id,
        &record.stake_pool,
    ) {
        Option::None => {
            return None;
        },
        Option::Some(p) => p.0,
    };
    let referrer = match referrer_token_account {
        Option::Some(a) => a,
        Option::None => record.vault,
    };
    crate::instruction::create_deposit_stake_instruction(
        program_id,
        stake_pool_program_id,
        &record.stake_pool,
        &pool.validator_list,
        &pool_withdraw_authority,
        stake,
        withdraw_authority,
        &validator_stake_account,
        &pool.reserve_stake,
        &record.vault,
        &pool.manager_fee_account,
        &referrer,
        &pool.pool_mint,
        token_program_id,
    )
}

} // verus!
