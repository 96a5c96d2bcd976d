//! The instruction-processing state machine.
//!
//! Each operation is validated and computed here as a pure function over
//! the accounts' observable state ([`AccountView`]) and the host-supplied
//! environment (the rent-exempt minimum). What comes out is either the
//! first failing check's error, or a plan: the record bytes to write and
//! the delegated calls to perform, each signed by presenting the
//! authority's seed tuple as the signing context.

use vstd::prelude::*;

use crate::address::{address_eq, Address};
use crate::error::{ProcessError, StakeDepositInterceptorError};
use crate::instruction::{
    spec_serialize_instruction, AccountMeta, InitStakePoolDepositStakeAuthorityArgs, Instruction,
    StakeDepositInterceptorInstruction, UpdateStakePoolDepositStakeAuthorityArgs,
};
use crate::pda::{
    ata_of, authority_seeds, authority_seeds_with_bump, pda_of, try_find_pda,
};
use crate::state::{
    lemma_authority_encoding_fields, spec_serialize_authority, StakePoolDepositStakeAuthority,
    AUTHORITY_RECORD_LEN,
};
use vstd::bytes::{spec_u32_from_le_bytes, spec_u32_to_le_bytes, spec_u64_from_le_bytes, spec_u64_to_le_bytes};

verus! {

/// The observable state of one account handed to an operation: its
/// address, owning program, balance, signer flag, and data bytes.
#[derive(Clone, Debug)]
pub struct AccountView {
    /// The account's address.
    pub key: Address,
    /// The program that owns the account.
    pub owner: Address,
    /// The account's balance.
    pub lamports: u64,
    /// Whether the account signed the transaction.
    pub is_signer: bool,
    /// The account's data bytes.
    pub data: Vec<u8>,
}

/// The fields of an external stake pool record that the operations read.
#[derive(Clone, Copy, Debug)]
pub struct StakePoolInfo {
    /// The pool's manager authority.
    pub manager: Address,
    /// The pool's reward-token mint.
    pub pool_mint: Address,
    /// The pool's validator list account.
    pub validator_list: Address,
    /// The pool's reserve stake account.
    pub reserve_stake: Address,
    /// The pool's fee token account.
    pub manager_fee_account: Address,
}

/// What the external stake-pool program's record parser yields on the
/// given bytes: the manager, pool mint, validator list, reserve stake and
/// manager fee account, or nothing when the bytes do not parse.
pub uninterp spec fn stake_pool_fields_of(data: Seq<u8>) -> Option<
    (Seq<u8>, Seq<u8>, Seq<u8>, Seq<u8>, Seq<u8>),
>;

/// Relies on `solana_program::borsh1::try_from_slice_unchecked` applied
/// to `spl_stake_pool::state::StakePool`: the parse is a function of the
/// bytes alone, and the returned fields are the parsed record's.
#[verifier::external_body]
fn decode_stake_pool_raw(data: &Vec<u8>) -> (r: Option<StakePoolInfo>)
    ensures
        r matches Some(p) ==> stake_pool_fields_of(data@) == Some(
            (p.manager@, p.pool_mint@, p.validator_list@, p.reserve_stake@,
            p.manager_fee_account@),
        ),
        r is None ==> stake_pool_fields_of(data@) is None,
{
    let parsed = solana_program::borsh1::try_from_slice_unchecked::<
        spl_stake_pool::state::StakePool,
    >(data.as_slice());
    parsed.ok().map(
        |sp| StakePoolInfo {
            manager: sp.manager.to_bytes(),
            pool_mint: sp.pool_mint.to_bytes(),
            validator_list: sp.validator_list.to_bytes(),
            reserve_stake: sp.reserve_stake.to_bytes(),
            manager_fee_account: sp.manager_fee_account.to_bytes(),
        },
    )
}

/// Read the fields the operations need out of an external stake pool
/// record, or fail when the bytes do not parse as one.
pub fn decode_stake_pool(data: &Vec<u8>) -> (r: Option<StakePoolInfo>)
    ensures
        r matches Some(p) ==> stake_pool_fields_of(data@) == Some(
            (p.manager@, p.pool_mint@, p.validator_list@, p.reserve_stake@,
            p.manager_fee_account@),
        ),
        r is None ==> stake_pool_fields_of(data@) is None,
{
    decode_stake_pool_raw(data)
}

/// Check that an account is owned by the given program.
pub fn check_account_owner(account: &AccountView, program_id: &Address) -> (r: Result<
    (),
    ProcessError,
>)
    ensures
        r is Ok <==> account.owner@ == program_id@,
        r matches Err(e) ==> e == ProcessError::IncorrectProgramId,
{
    if address_eq(&account.owner, program_id) {
        Ok(())
    } else {
        Err(ProcessError::IncorrectProgramId)
    }
}

/// How a derived account is brought to its required size and balance.
#[derive(Clone, Copy, Debug, PartialEq, Eq, Structural)]
pub enum PdaCreatePlan {
    /// The account already holds lamports: transfer the shortfall (zero
    /// when none), then allocate its space and assign it to the program.
    TopUpAllocateAssign {
        /// Lamports the payer must add to reach the rent-exempt minimum.
        transfer_lamports: u64,
    },
    /// The account holds nothing yet: one create-account call funds it,
    /// allocates its space and assigns it to the program.
    CreateAccount {
        /// Lamports the payer funds the new account with.
        lamports: u64,
    },
}

/// The funding a derived account needs: at least the rent-exempt
/// minimum, and never zero.
pub open spec fn required_lamports_spec(rent_minimum_balance: u64) -> u64 {
    if rent_minimum_balance > 1 {
        rent_minimum_balance
    } else {
        1u64
    }
}

/// The creation plan for a derived account holding `current_lamports`,
/// where the host's rent-exempt minimum for it is `rent_minimum_balance`.
pub open spec fn pda_create_plan_spec(current_lamports: u64, rent_minimum_balance: u64)
    -> PdaCreatePlan {
    if current_lamports > 0 {
        let required = required_lamports_spec(rent_minimum_balance);
        PdaCreatePlan::TopUpAllocateAssign {
            transfer_lamports: if required > current_lamports {
                (required - current_lamports) as u64
            } else {
                0u64
            },
        }
    } else {
        PdaCreatePlan::CreateAccount { lamports: required_lamports_spec(rent_minimum_balance) }
    }
}

/// Decide how to create a derived account from its current balance and
/// the rent-exempt minimum the host reports for it.
pub fn plan_pda_creation(current_lamports: u64, rent_minimum_balance: u64) -> (r: PdaCreatePlan)
    ensures
        r == pda_create_plan_spec(current_lamports, rent_minimum_balance),
{
    let required: u64 = if rent_minimum_balance > 1 {
        rent_minimum_balance
    } else {
        1
    };
    if current_lamports > 0 {
        let transfer_lamports: u64 = if required > current_lamports {
            required - current_lamports
        } else {
            0
        };
        PdaCreatePlan::TopUpAllocateAssign { transfer_lamports }
    } else {
        PdaCreatePlan::CreateAccount { lamports: required }
    }
}

/// The first failing precondition of the create-authority operation, or
/// nothing when every check passes. Account positions: payer, new
/// authority record, new vault, owner authority, stake pool, pool mint,
/// pool manager, stake-pool program, token program, associated-token
/// program, system program.
pub open spec fn init_error_of(program_id: Seq<u8>, a: Seq<AccountView>) -> Option<ProcessError> {
    if a.len() < 11 {
        Some(ProcessError::NotEnoughAccountKeys)
    } else if !(a[3].is_signer && a[6].is_signer) {
        Some(ProcessError::Interceptor(StakeDepositInterceptorError::SignatureMissing))
    } else if a[4].owner@ != a[7].key@ {
        Some(ProcessError::Interceptor(StakeDepositInterceptorError::InvalidStakePool))
    } else if stake_pool_fields_of(a[4].data@) is None {
        Some(ProcessError::InvalidAccountData)
    } else {
        let pool = stake_pool_fields_of(a[4].data@)->Some_0;
        if pool.0 != a[6].key@ {
            Some(ProcessError::Interceptor(StakeDepositInterceptorError::InvalidStakePoolManager))
        } else if pool.1 != a[5].key@ {
            Some(ProcessError::Interceptor(StakeDepositInterceptorError::InvalidStakePool))
        } else if a[5].owner@ != a[8].key@ {
            Some(ProcessError::Interceptor(StakeDepositInterceptorError::InvalidTokenProgram))
        } else {
            let found = try_find_pda(authority_seeds(a[4].key@), program_id);
            if found is None {
                Some(ProcessError::InvalidSeeds)
            } else if found->Some_0.0 != a[1].key@ {
                Some(ProcessError::Interceptor(StakeDepositInterceptorError::InvalidSeeds))
            } else if ata_of(found->Some_0.0, pool.1) is None {
                Some(ProcessError::InvalidSeeds)
            } else if ata_of(found->Some_0.0, pool.1)->Some_0 != a[2].key@ {
                Some(ProcessError::Interceptor(StakeDepositInterceptorError::InvalidVault))
            } else {
                None
            }
        }
    }
}

/// The first failing precondition of the update-authority operation, or
/// nothing when every check passes. Account positions: authority record,
/// current owner as signer, and optionally the new owner as signer.
pub open spec fn update_error_of(program_id: Seq<u8>, a: Seq<AccountView>) -> Option<
    ProcessError,
> {
    if a.len() < 2 {
        Some(ProcessError::NotEnoughAccountKeys)
    } else if a[0].owner@ != program_id {
        Some(ProcessError::IncorrectProgramId)
    } else if !a[1].is_signer {
        Some(ProcessError::Interceptor(StakeDepositInterceptorError::SignatureMissing))
    } else if a[0].data@.len() < AUTHORITY_RECORD_LEN {
        Some(ProcessError::InvalidAccountData)
    } else {
        let d = a[0].data@;
        let derived = pda_of(
            authority_seeds_with_bump(d.subrange(0, 32), d[204]),
            program_id,
        );
        if derived is None {
            Some(ProcessError::InvalidSeeds)
        } else if derived->Some_0 != a[0].key@ {
            Some(
                ProcessError::Interceptor(
                    StakeDepositInterceptorError::InvalidStakePoolDepositStakeAuthority,
                ),
            )
        } else if d.subrange(128, 160) != a[1].key@ {
            Some(ProcessError::Interceptor(StakeDepositInterceptorError::InvalidAuthority))
        } else if a.len() >= 3 && !a[2].is_signer {
            Some(ProcessError::Interceptor(StakeDepositInterceptorError::SignatureMissing))
        } else {
            None
        }
    }
}

/// The first failing precondition of the deposit operation, or nothing
/// when every check passes. The authority record stands in fourth
/// position of the sixteen-account list.
pub open spec fn deposit_error_of(program_id: Seq<u8>, a: Seq<AccountView>) -> Option<
    ProcessError,
> {
    if a.len() < 16 {
        Some(ProcessError::NotEnoughAccountKeys)
    } else if a[3].owner@ != program_id {
        Some(ProcessError::IncorrectProgramId)
    } else if a[3].data@.len() < AUTHORITY_RECORD_LEN {
        Some(ProcessError::InvalidAccountData)
    } else {
        let d = a[3].data@;
        let derived = pda_of(
            authority_seeds_with_bump(d.subrange(0, 32), d[204]),
            program_id,
        );
        if derived is None {
            Some(ProcessError::InvalidSeeds)
        } else if derived->Some_0 != a[3].key@ {
            Some(
                ProcessError::Interceptor(
                    StakeDepositInterceptorError::InvalidStakePoolDepositStakeAuthority,
                ),
            )
        } else {
            None
        }
    }
}

/// What a successful create-authority validation returns: the plan's
/// addresses are the derived ones (equal to the supplied accounts, as
/// just checked), the funding steps follow the record account's balance,
/// and the signing context carries the caller-supplied bump nonce.
pub open spec fn init_plan_ok(
    plan: InitAuthorityPlan,
    program_id: Seq<u8>,
    a: Seq<AccountView>,
    bump_seed: u8,
    rent_minimum_balance: u64,
) -> bool {
    let pool = stake_pool_fields_of(a[4].data@)->Some_0;
    let found = try_find_pda(authority_seeds(a[4].key@), program_id);
    &&& plan.deposit_stake_authority@ == found->Some_0.0
    &&& plan.deposit_stake_authority@ == a[1].key@
    &&& plan.vault@ == ata_of(found->Some_0.0, pool.1)->Some_0
    &&& plan.vault@ == a[2].key@
    &&& plan.stake_pool == a[4].key
    &&& plan.pool_mint@ == pool.1
    &&& plan.payer == a[0].key
    &&& plan.token_program == a[8].key
    &&& plan.signer_bump == bump_seed
    &&& plan.pda_creation == pda_create_plan_spec(a[1].lamports, rent_minimum_balance)
}

/// What a successful update returns, over the old account bytes: every
/// field present in the arguments replaced, every omitted field and the
/// immutable fields read back unchanged, ownership moved only when the
/// co-signing new owner account was supplied, and the returned bytes the
/// record's exact encoding.
pub open spec fn update_result_ok(
    rec: StakePoolDepositStakeAuthority,
    bytes: Seq<u8>,
    a: Seq<AccountView>,
    args: UpdateStakePoolDepositStakeAuthorityArgs,
) -> bool {
    let d = a[0].data@;
    &&& rec.stake_pool@ == d.subrange(0, 32)
    &&& rec.pool_mint@ == d.subrange(32, 64)
    &&& rec.vault@ == d.subrange(64, 96)
    &&& rec.stake_pool_program_id@ == d.subrange(96, 128)
    &&& (a.len() >= 3 ==> rec.authority == a[2].key)
    &&& (a.len() < 3 ==> rec.authority@ == d.subrange(128, 160))
    &&& (args.fee_wallet matches Some(w) ==> rec.fee_wallet == w)
    &&& (args.fee_wallet is None ==> rec.fee_wallet@ == d.subrange(160, 192))
    &&& (args.cool_down_period matches Some(x) ==> rec.cool_down_period == x)
    &&& (args.cool_down_period is None ==> rec.cool_down_period == spec_u64_from_le_bytes(
        d.subrange(192, 200),
    ))
    &&& (args.initial_fee_rate matches Some(x) ==> rec.inital_fee_rate == x)
    &&& (args.initial_fee_rate is None ==> rec.inital_fee_rate == spec_u32_from_le_bytes(
        d.subrange(200, 204),
    ))
    &&& rec.bump_seed == d[204]
    &&& bytes == spec_serialize_authority(rec)
}

/// What a successful deposit validation returns: the delegated call
/// addressed to the supplied stake-pool program, threading the fifteen
/// remaining accounts through in order with only the authority record
/// signing, the payload carrying the slippage bound exactly, and the
/// signing context taken from the record's own stored seeds.
pub open spec fn deposit_plan_ok(
    plan: DepositStakePlan,
    a: Seq<AccountView>,
    minimum_pool_tokens_out: Option<u64>,
) -> bool {
    let d = a[3].data@;
    &&& plan.stake_pool@ == d.subrange(0, 32)
    &&& plan.signer_bump == d[204]
    &&& plan.instruction.program_id == a[0].key
    &&& plan.instruction.accounts@.len() == 15
    &&& plan.instruction.accounts@[0] == (AccountMeta {
        pubkey: a[1].key,
        is_signer: false,
        is_writable: true,
    })
    &&& plan.instruction.accounts@[1] == (AccountMeta {
        pubkey: a[2].key,
        is_signer: false,
        is_writable: true,
    })
    &&& plan.instruction.accounts@[2] == (AccountMeta {
        pubkey: a[3].key,
        is_signer: true,
        is_writable: false,
    })
    &&& plan.instruction.accounts@[3] == (AccountMeta {
        pubkey: a[4].key,
        is_signer: false,
        is_writable: false,
    })
    &&& plan.instruction.accounts@[4] == (AccountMeta {
        pubkey: a[5].key,
        is_signer: false,
        is_writable: true,
    })
    &&& plan.instruction.accounts@[5] == (AccountMeta {
        pubkey: a[6].key,
        is_signer: false,
        is_writable: true,
    })
    &&& plan.instruction.accounts@[6] == (AccountMeta {
        pubkey: a[7].key,
        is_signer: false,
        is_writable: true,
    })
    &&& plan.instruction.accounts@[7] == (AccountMeta {
        pubkey: a[8].key,
        is_signer: false,
        is_writable: true,
    })
    &&& plan.instruction.accounts@[8] == (AccountMeta {
        pubkey: a[9].key,
        is_signer: false,
        is_writable: true,
    })
    &&& plan.instruction.accounts@[9] == (AccountMeta {
        pubkey: a[10].key,
        is_signer: false,
        is_writable: true,
    })
    &&& plan.instruction.accounts@[10] == (AccountMeta {
        pubkey: a[11].key,
        is_signer: false,
        is_writable: true,
    })
    &&& plan.instruction.accounts@[11] == (AccountMeta {
        pubkey: a[12].key,
        is_signer: false,
        is_writable: false,
    })
    &&& plan.instruction.accounts@[12] == (AccountMeta {
        pubkey: a[13].key,
        is_signer: false,
        is_writable: false,
    })
    &&& plan.instruction.accounts@[13] == (AccountMeta {
        pubkey: a[14].key,
        is_signer: false,
        is_writable: false,
    })
    &&& plan.instruction.accounts@[14] == (AccountMeta {
        pubkey: a[15].key,
        is_signer: false,
        is_writable: false,
    })
    &&& plan.instruction.data@ == spec_stake_pool_deposit_payload(minimum_pool_tokens_out)
}

/// Everything the host must do to complete a create-authority operation:
/// fund and assign the record's account, then create the vault, each call
/// signed by presenting the authority's seed tuple.
#[derive(Clone, Copy, Debug)]
pub struct InitAuthorityPlan {
    /// How the record's account is funded and assigned.
    pub pda_creation: PdaCreatePlan,
    /// The authority record's derived address.
    pub deposit_stake_authority: Address,
    /// The vault to create: the authority's associated token account.
    pub vault: Address,
    /// The governed stake pool; second component of the signing seeds.
    pub stake_pool: Address,
    /// The pool's reward-token mint.
    pub pool_mint: Address,
    /// The account paying for the creations.
    pub payer: Address,
    /// The token program owning the mint.
    pub token_program: Address,
    /// The caller-supplied bump nonce; last component of the signing
    /// seeds.
    pub signer_bump: u8,
}

/// The delegated call that completes a deposit: the external program's
/// own deposit instruction, signed by presenting the authority's seed
/// tuple.
#[derive(Clone, Debug)]
pub struct DepositStakePlan {
    /// The instruction to issue to the external stake-pool program.
    pub instruction: Instruction,
    /// The record's stake pool; second component of the signing seeds.
    pub stake_pool: Address,
    /// The record's bump nonce; last component of the signing seeds.
    pub signer_bump: u8,
}

/// The payload of the external stake-pool program's deposit instruction:
/// its deposit operation is the tenth of its instruction set and its
/// slippage-bounded form the twenty-fourth, each encoded as one tag byte
/// followed by the little-endian minimum for the bounded form.
pub open spec fn spec_stake_pool_deposit_payload(minimum_pool_tokens_out: Option<u64>) -> Seq<
    u8,
> {
    match minimum_pool_tokens_out {
        Option::None => seq![9u8],
        Option::Some(m) => seq![23u8] + spec_u64_to_le_bytes(m),
    }
}

/// Encode the external stake-pool program's deposit payload.
pub fn stake_pool_deposit_payload(minimum_pool_tokens_out: Option<u64>) -> (out: Vec<u8>)
    ensures
        out@ == spec_stake_pool_deposit_payload(minimum_pool_tokens_out),
{
    let mut out: Vec<u8> = Vec::new();
    match minimum_pool_tokens_out {
        Option::None => {
            out.push(9);
        },
        Option::Some(m) => {
            out.push(23);
            let mut b = vstd::bytes::u64_to_le_bytes(m);
            out.append(&mut b);
        },
    }
    assert(out@ =~= spec_stake_pool_deposit_payload(minimum_pool_tokens_out));
    out
}

/// The outcome of a successfully validated invocation: what the host
/// must write or call to give the operation effect.
#[derive(Clone, Debug)]
pub enum ProcessEffects {
    /// Create the authority record and its vault, then store the record.
    CreateAuthority(InitAuthorityPlan),
    /// Store the updated authority record.
    UpdateAuthority {
        /// The record after the update.
        record: StakePoolDepositStakeAuthority,
        /// Its encoding, to be written back to the account.
        record_bytes: Vec<u8>,
    },
    /// Issue the delegated deposit call.
    Deposit(DepositStakePlan),
}

/// The interceptor's instruction processor.
pub struct Processor;

impl Processor {
    /// Validate a create-authority invocation and compute the creation
    /// plan. `rent_minimum_balance` is the host's rent-exempt minimum for
    /// the record's account. The record itself is written later, once the
    /// plan has run: see
    /// [`Processor::finish_init_stake_pool_deposit_stake_authority`].
    pub fn process_init_stake_pool_deposit_stake_authority(
        program_id: &Address,
        accounts: &Vec<AccountView>,
        args: &InitStakePoolDepositStakeAuthorityArgs,
        rent_minimum_balance: u64,
    ) -> (r: Result<InitAuthorityPlan, ProcessError>)
        ensures
            init_error_of(program_id@, accounts@) matches Some(e) ==> r == Err::<
                InitAuthorityPlan,
                ProcessError,
            >(e),
            r is Ok <==> init_error_of(program_id@, accounts@) is None,
            r matches Ok(plan) ==> init_plan_ok(
                plan,
                program_id@,
                accounts@,
                args.bump_seed,
                rent_minimum_balance,
            ),
    {
        if accounts.len() < 11 {
            return Err(ProcessError::NotEnoughAccountKeys);
        }
        let payer = &accounts[0];
        let deposit_stake_authority_info = &accounts[1];
        let vault_ata_info = &accounts[2];
        let authority = &accounts[3];
        let stake_pool_info = &accounts[4];
        let stake_pool_mint_info = &accounts[5];
        let stake_pool_manager_info = &accounts[6];
        let stake_pool_program_info = &accounts[7];
        let token_program_info = &accounts[8];

        if !authority.is_signer || !stake_pool_manager_info.is_signer {
            return Err(ProcessError::Interceptor(
                StakeDepositInterceptorError::SignatureMissing,
            ));
        }
        if !address_eq(&stake_pool_info.owner, &stake_pool_program_info.key) {
            return Err(ProcessError::Interceptor(
                StakeDepositInterceptorError::InvalidStakePool,
            ));
        }
        let pool = match decode_stake_pool(&stake_pool_info.data) {
            Option::None => {
                return Err(ProcessError::InvalidAccountData);
            },
            Option::Some(p) => p,
        };
        if !address_eq(&pool.manager, &stake_pool_manager_info.key) {
            return Err(ProcessError::Interceptor(
                StakeDepositInterceptorError::InvalidStakePoolManager,
            ));
        }
        if !address_eq(&pool.pool_mint, &stake_pool_mint_info.key) {
            return Err(ProcessError::Interceptor(
                StakeDepositInterceptorError::InvalidStakePool,
            ));
        }
        if !address_eq(&stake_pool_mint_info.owner, &token_program_info.key) {
            return Err(ProcessError::Interceptor(
                StakeDepositInterceptorError::InvalidTokenProgram,
            ));
        }
        let (deposit_stake_authority_pda, _found_bump) = match
            crate::pda::derive_stake_pool_deposit_stake_authority(
            program_id,
            &stake_pool_info.key,
        ) {
            Option::None => {
                return Err(ProcessError::InvalidSeeds);
            },
            Option::Some(p) => p,
        };
        if !address_eq(&deposit_stake_authority_pda, &deposit_stake_authority_info.key) {
            return Err(ProcessError::Interceptor(StakeDepositInterceptorError::InvalidSeeds));
        }
        let pda_creation = plan_pda_creation(
            deposit_stake_authority_info.lamports,
            rent_minimum_balance,
        );
        let vault_ata = match crate::pda::get_associated_token_address(
            &deposit_stake_authority_pda,
            &pool.pool_mint,
        ) {
            Option::None => {
                return Err(ProcessError::InvalidSeeds);
            },
            Option::Some(a) => a,
        };
        if !address_eq(&vault_ata, &vault_ata_info.key) {
            return Err(ProcessError::Interceptor(StakeDepositInterceptorError::InvalidVault));
        }
        Ok(
            InitAuthorityPlan {
                pda_creation,
                deposit_stake_authority: deposit_stake_authority_pda,
                vault: vault_ata,
                stake_pool: stake_pool_info.key,
                pool_mint: pool.pool_mint,
                payer: payer.key,
                token_program: token_program_info.key,
                signer_bump: args.bump_seed,
            },
        )
    }

    /// Build and encode the new authority record once the creation plan
    /// has run: rejects an account that already holds an initialized
    /// record, and one whose balance is below the rent-exempt minimum.
    /// `existing_data` and `lamports` are the record account's bytes and
    /// balance after the plan, and `rent_minimum_balance` the host's
    /// rent-exempt minimum for that account.
    pub fn finish_init_stake_pool_deposit_stake_authority(
        existing_data: &Vec<u8>,
        lamports: u64,
        rent_minimum_balance: u64,
        stake_pool: &Address,
        pool_mint: &Address,
        vault: &Address,
        stake_pool_program_id: &Address,
        authority: &Address,
        args: &InitStakePoolDepositStakeAuthorityArgs,
    ) -> (r: Result<(StakePoolDepositStakeAuthority, Vec<u8>), ProcessError>)
        ensures
            existing_data@.len() < AUTHORITY_RECORD_LEN ==> r == Err::<
                (StakePoolDepositStakeAuthority, Vec<u8>),
                ProcessError,
            >(ProcessError::InvalidAccountData),
            existing_data@.len() >= AUTHORITY_RECORD_LEN
                && crate::state::authority_bytes_initialized(existing_data@) ==> r == Err::<
                (StakePoolDepositStakeAuthority, Vec<u8>),
                ProcessError,
            >(ProcessError::Interceptor(StakeDepositInterceptorError::AlreadyInUse)),
            existing_data@.len() >= AUTHORITY_RECORD_LEN
                && !crate::state::authority_bytes_initialized(existing_data@) && lamports
                < rent_minimum_balance ==> r == Err::<
                (StakePoolDepositStakeAuthority, Vec<u8>),
                ProcessError,
            >(ProcessError::AccountNotRentExempt),
            r is Ok <==> (existing_data@.len() >= AUTHORITY_RECORD_LEN
                && !crate::state::authority_bytes_initialized(existing_data@) && lamports
                >= rent_minimum_balance),
            r matches Ok(p) ==> p.0 == (StakePoolDepositStakeAuthority {
                stake_pool: *stake_pool,
                pool_mint: *pool_mint,
                vault: *vault,
                stake_pool_program_id: *stake_pool_program_id,
                authority: *authority,
                fee_wallet: args.fee_wallet,
                cool_down_period: args.cool_down_period,
                inital_fee_rate: args.initial_fee_rate,
                bump_seed: args.bump_seed,
            }) && p.1@ == spec_serialize_authority(p.0),
    {
        let existing = match StakePoolDepositStakeAuthority::from_bytes(existing_data) {
            Result::Err(_) => {
                return Err(ProcessError::InvalidAccountData);
            },
            Result::Ok(rec) => rec,
        };
        proof {
            lemma_authority_encoding_fields(existing);
            assert(existing_data@.subrange(0, AUTHORITY_RECORD_LEN as int).subrange(0, 32)
                =~= existing_data@.subrange(0, 32));
        }
        if existing.is_initialized() {
            return Err(ProcessError::Interceptor(StakeDepositInterceptorError::AlreadyInUse));
        }
        if lamports < rent_minimum_balance {
            return Err(ProcessError::AccountNotRentExempt);
        }
        let record = StakePoolDepositStakeAuthority {
            stake_pool: *stake_pool,
            pool_mint: *pool_mint,
            vault: *vault,
            stake_pool_program_id: *stake_pool_program_id,
            authority: *authority,
            fee_wallet: args.fee_wallet,
            cool_down_period: args.cool_down_period,
            inital_fee_rate: args.initial_fee_rate,
            bump_seed: args.bump_seed,
        };
        let bytes = record.to_bytes();
        Ok((record, bytes))
    }

    /// Validate an update-authority invocation and compute the updated
    /// record: only fields present in the arguments are replaced, and
    /// ownership moves only when the new owner has co-signed.
    pub fn process_update_deposit_stake_authority(
        program_id: &Address,
        accounts: &Vec<AccountView>,
        args: &UpdateStakePoolDepositStakeAuthorityArgs,
    ) -> (r: Result<(StakePoolDepositStakeAuthority, Vec<u8>), ProcessError>)
        ensures
            update_error_of(program_id@, accounts@) matches Some(e) ==> r == Err::<
                (StakePoolDepositStakeAuthority, Vec<u8>),
                ProcessError,
            >(e),
            r is Ok <==> update_error_of(program_id@, accounts@) is None,
            r matches Ok(p) ==> update_result_ok(p.0, p.1@, accounts@, *args),
    {
        if accounts.len() < 2 {
            return Err(ProcessError::NotEnoughAccountKeys);
        }
        let deposit_stake_authority_info = &accounts[0];
        let authority_info = &accounts[1];

        match check_account_owner(deposit_stake_authority_info, program_id) {
            Result::Err(e) => {
                return Err(e);
            },
            Result::Ok(()) => {},
        }
        if !authority_info.is_signer {
            return Err(ProcessError::Interceptor(
                StakeDepositInterceptorError::SignatureMissing,
            ));
        }
        let decoded = match StakePoolDepositStakeAuthority::from_bytes(
            &deposit_stake_authority_info.data,
        ) {
            Result::Err(_) => {
                return Err(ProcessError::InvalidAccountData);
            },
            Result::Ok(rec) => rec,
        };
        proof {
            lemma_authority_encoding_fields(decoded);
            let d = accounts@[0].data@;
            let pre = d.subrange(0, AUTHORITY_RECORD_LEN as int);
            assert(pre.subrange(0, 32) =~= d.subrange(0, 32));
            assert(pre.subrange(32, 64) =~= d.subrange(32, 64));
            assert(pre.subrange(64, 96) =~= d.subrange(64, 96));
            assert(pre.subrange(96, 128) =~= d.subrange(96, 128));
            assert(pre.subrange(128, 160) =~= d.subrange(128, 160));
            assert(pre.subrange(160, 192) =~= d.subrange(160, 192));
            assert(pre.subrange(192, 200) =~= d.subrange(192, 200));
            assert(pre.subrange(200, 204) =~= d.subrange(200, 204));
        }
        match crate::pda::check_deposit_stake_authority_address(
            program_id,
            &deposit_stake_authority_info.key,
            &decoded.stake_pool,
            decoded.bump_seed,
        ) {
            Result::Err(e) => {
                return Err(e);
            },
            Result::Ok(()) => {},
        }
        if !address_eq(&decoded.authority, &authority_info.key) {
            return Err(ProcessError::Interceptor(
                StakeDepositInterceptorError::InvalidAuthority,
            ));
        }
        let mut record = decoded;
        if accounts.len() >= 3 {
            let new_authority_info = &accounts[2];
            if !new_authority_info.is_signer {
                return Err(ProcessError::Interceptor(
                    StakeDepositInterceptorError::SignatureMissing,
                ));
            }
            record.authority = new_authority_info.key;
        }
        match args.cool_down_period {
            Option::Some(cool_down_period) => {
                record.cool_down_period = cool_down_period;
            },
            Option::None => {},
        }
        match args.initial_fee_rate {
            Option::Some(initial_fee_rate) => {
                record.inital_fee_rate = initial_fee_rate;
            },
            Option::None => {},
        }
        match args.fee_wallet {
            Option::Some(fee_wallet) => {
                record.fee_wallet = fee_wallet;
            },
            Option::None => {},
        }
        let bytes = record.to_bytes();
        Ok((record, bytes))
    }

    /// Validate a deposit invocation and compute the delegated call into
    /// the external stake-pool program, with the authority record as the
    /// signing deposit authority. The record's address is re-derived and
    /// checked against its own stored seeds, as the update path does.
    pub fn process_deposit_stake(
        program_id: &Address,
        accounts: &Vec<AccountView>,
        minimum_pool_tokens_out: Option<u64>,
    ) -> (r: Result<DepositStakePlan, ProcessError>)
        ensures
            deposit_error_of(program_id@, accounts@) matches Some(e) ==> r == Err::<
                DepositStakePlan,
                ProcessError,
            >(e),
            r is Ok <==> deposit_error_of(program_id@, accounts@) is None,
            r matches Ok(plan) ==> deposit_plan_ok(plan, accounts@, minimum_pool_tokens_out),
    {
        if accounts.len() < 16 {
            return Err(ProcessError::NotEnoughAccountKeys);
        }
        let deposit_stake_authority_info = &accounts[3];
        match check_account_owner(deposit_stake_authority_info, program_id) {
            Result::Err(e) => {
                return Err(e);
            },
            Result::Ok(()) => {},
        }
        let decoded = match StakePoolDepositStakeAuthority::from_bytes(
            &deposit_stake_authority_info.data,
        ) {
            Result::Err(_) => {
                return Err(ProcessError::InvalidAccountData);
            },
            Result::Ok(rec) => rec,
        };
        proof {
            lemma_authority_encoding_fields(decoded);
            let d = accounts@[3].data@;
            let pre = d.subrange(0, AUTHORITY_RECORD_LEN as int);
            assert(pre.subrange(0, 32) =~= d.subrange(0, 32));
        }
        match crate::pda::check_deposit_stake_authority_address(
            program_id,
            &deposit_stake_authority_info.key,
            &decoded.stake_pool,
            decoded.bump_seed,
        ) {
            Result::Err(e) => {
                return Err(e);
            },
            Result::Ok(()) => {},
        }
        let data = stake_pool_deposit_payload(minimum_pool_tokens_out);
        let mut metas: Vec<AccountMeta> = Vec::new();
        metas.push(AccountMeta { pubkey: accounts[1].key, is_signer: false, is_writable: true });
        metas.push(AccountMeta { pubkey: accounts[2].key, is_signer: false, is_writable: true });
        metas.push(AccountMeta { pubkey: accounts[3].key, is_signer: true, is_writable: false });
        metas.push(AccountMeta { pubkey: accounts[4].key, is_signer: false, is_writable: false });
        metas.push(AccountMeta { pubkey: accounts[5].key, is_signer: false, is_writable: true });
        metas.push(AccountMeta { pubkey: accounts[6].key, is_signer: false, is_writable: true });
        metas.push(AccountMeta { pubkey: accounts[7].key, is_signer: false, is_writable: true });
        metas.push(AccountMeta { pubkey: accounts[8].key, is_signer: false, is_writable: true });
        metas.push(AccountMeta { pubkey: accounts[9].key, is_signer: false, is_writable: true });
        metas.push(AccountMeta { pubkey: accounts[10].key, is_signer: false, is_writable: true });
        metas.push(AccountMeta { pubkey: accounts[11].key, is_signer: false, is_writable: true });
        metas.push(
            AccountMeta { pubkey: accounts[12].key, is_signer: false, is_writable: false },
        );
        metas.push(
            AccountMeta { pubkey: accounts[13].key, is_signer: false, is_writable: false },
        );
        metas.push(
            AccountMeta { pubkey: accounts[14].key, is_signer: false, is_writable: false },
        );
        metas.push(
            AccountMeta { pubkey: accounts[15].key, is_signer: false, is_writable: false },
        );
        Ok(
            DepositStakePlan {
                instruction: Instruction {
                    program_id: accounts[0].key,
                    accounts: metas,
                    data,
                },
                stake_pool: decoded.stake_pool,
                signer_bump: decoded.bump_seed,
            },
        )
    }

    /// Decode an instruction payload and run the operation it names.
    /// `rent_minimum_balance` is the host's rent-exempt minimum for the
    /// authority record's account, used only by the create operation.
    pub fn process(
        program_id: &Address,
        accounts: &Vec<AccountView>,
        input: &Vec<u8>,
        rent_minimum_balance: u64,
    ) -> (r: Result<ProcessEffects, ProcessError>)
        ensures
            r == Err::<ProcessEffects, ProcessError>(ProcessError::InvalidInstructionData)
                <==> !crate::instruction::instruction_wf(input@),
            crate::instruction::instruction_wf(input@) && input@[0] == 0 ==> ({
                &&& init_error_of(program_id@, accounts@) matches Some(e) ==> r == Err::<
                    ProcessEffects,
                    ProcessError,
                >(e)
                &&& init_error_of(program_id@, accounts@) is None ==> (r matches Ok(
                    ProcessEffects::CreateAuthority(plan),
                ) && init_plan_ok(
                    plan,
                    program_id@,
                    accounts@,
                    input@[45],
                    rent_minimum_balance,
                ))
            }),
            crate::instruction::instruction_wf(input@) && input@[0] == 1 ==> ({
                &&& update_error_of(program_id@, accounts@) matches Some(e) ==> r == Err::<
                    ProcessEffects,
                    ProcessError,
                >(e)
                &&& update_error_of(program_id@, accounts@) is None ==> (r matches Ok(
                    ProcessEffects::UpdateAuthority { record, record_bytes },
                ) && exists|args: UpdateStakePoolDepositStakeAuthorityArgs|
                    (#[trigger] spec_serialize_instruction(
                        StakeDepositInterceptorInstruction::UpdateStakePoolDepositStakeAuthority(
                            args,
                        ),
                    )) == input@ && update_result_ok(record, record_bytes@, accounts@, args))
            }),
            crate::instruction::instruction_wf(input@) && (input@[0] == 2 || input@[0] == 3)
                ==> ({
                &&& deposit_error_of(program_id@, accounts@) matches Some(e) ==> r == Err::<
                    ProcessEffects,
                    ProcessError,
                >(e)
                &&& deposit_error_of(program_id@, accounts@) is None ==> (r matches Ok(
                    ProcessEffects::Deposit(plan),
                ) && deposit_plan_ok(
                    plan,
                    accounts@,
                    if input@[0] == 2 {
                        Option::<u64>::None
                    } else {
                        Option::Some(spec_u64_from_le_bytes(input@.subrange(1, 9)))
                    },
                ))
            }),
    {
        let instruction = match StakeDepositInterceptorInstruction::unpack(input) {
            Result::Err(e) => {
                return Err(e);
            },
            Result::Ok(ix) => ix,
        };
        match instruction {
            StakeDepositInterceptorInstruction::InitStakePoolDepositStakeAuthority(args) => {
                proof {
                    vstd::bytes::lemma_auto_spec_u64_to_from_le_bytes();
                    vstd::bytes::lemma_auto_spec_u32_to_from_le_bytes();
                    assert(crate::instruction::spec_serialize_init_args(args).len() == 45);
                    assert(input@[45] == args.bump_seed);
                }
                match Self::process_init_stake_pool_deposit_stake_authority(
                    program_id,
                    accounts,
                    &args,
                    rent_minimum_balance,
                ) {
                    Result::Err(e) => Err(e),
                    Result::Ok(plan) => Ok(ProcessEffects::CreateAuthority(plan)),
                }
            },
            StakeDepositInterceptorInstruction::UpdateStakePoolDepositStakeAuthority(args) => {
                proof {
                    assert(spec_serialize_instruction(
                        StakeDepositInterceptorInstruction::UpdateStakePoolDepositStakeAuthority(
                            args,
                        ),
                    ) == input@);
                }
                match Self::process_update_deposit_stake_authority(program_id, accounts, &args) {
                    Result::Err(e) => Err(e),
                    Result::Ok((record, record_bytes)) => Ok(
                        ProcessEffects::UpdateAuthority { record, record_bytes },
                    ),
                }
            },
            StakeDepositInterceptorInstruction::DepositStake => {
                match Self::process_deposit_stake(program_id, accounts, None) {
                    Result::Err(e) => Err(e),
                    Result::Ok(plan) => Ok(ProcessEffects::Deposit(plan)),
                }
            },
            StakeDepositInterceptorInstruction::DepositStakeWithSlippage {
                minimum_pool_tokens_out,
            } => {
                proof {
                    vstd::bytes::lemma_auto_spec_u64_to_from_le_bytes();
                    assert(input@.subrange(1, 9) =~= spec_u64_to_le_bytes(
                        minimum_pool_tokens_out,
                    ));
                }
                match Self::process_deposit_stake(
                    program_id,
                    accounts,
                    Some(minimum_pool_tokens_out),
                ) {
                    Result::Err(e) => Err(e),
                    Result::Ok(plan) => Ok(ProcessEffects::Deposit(plan)),
                }
            },
        }
    }
}

/// A record written by a successful creation is detected as initialized,
/// so a second creation attempt at the same account always fails with
/// the account-already-in-use error: its stored stake pool is not the
/// all-zero address, and that is exactly what a later creation attempt
/// tests the account's bytes for.
pub proof fn lemma_created_record_detected(rec: StakePoolDepositStakeAuthority)
    requires
        rec.is_initialized_spec(),
    ensures
        crate::state::authority_bytes_initialized(spec_serialize_authority(rec)),
{
    lemma_authority_encoding_fields(rec);
}

/// Fields omitted from an update payload remain byte-identical to their
/// pre-update values in the re-encoded record; fields present are
/// replaced exactly. The hypotheses are what
/// [`Processor::process_update_deposit_stake_authority`] ensures of the
/// record it returns, over the old account bytes `d`.
pub proof fn lemma_update_partial_fields(
    d: Seq<u8>,
    rec: StakePoolDepositStakeAuthority,
    args: UpdateStakePoolDepositStakeAuthorityArgs,
)
    requires
        d.len() >= AUTHORITY_RECORD_LEN,
        rec.stake_pool@ == d.subrange(0, 32),
        rec.pool_mint@ == d.subrange(32, 64),
        rec.vault@ == d.subrange(64, 96),
        rec.stake_pool_program_id@ == d.subrange(96, 128),
        args.fee_wallet is None ==> rec.fee_wallet@ == d.subrange(160, 192),
        args.fee_wallet matches Some(w) ==> rec.fee_wallet == w,
        args.cool_down_period is None ==> rec.cool_down_period == spec_u64_from_le_bytes(
            d.subrange(192, 200),
        ),
        args.cool_down_period matches Some(x) ==> rec.cool_down_period == x,
        args.initial_fee_rate is None ==> rec.inital_fee_rate == spec_u32_from_le_bytes(
            d.subrange(200, 204),
        ),
        args.initial_fee_rate matches Some(x) ==> rec.inital_fee_rate == x,
        rec.bump_seed == d[204],
    ensures
        spec_serialize_authority(rec).subrange(0, 32) == d.subrange(0, 32),
        spec_serialize_authority(rec).subrange(32, 64) == d.subrange(32, 64),
        spec_serialize_authority(rec).subrange(64, 96) == d.subrange(64, 96),
        spec_serialize_authority(rec).subrange(96, 128) == d.subrange(96, 128),
        args.fee_wallet is None ==> spec_serialize_authority(rec).subrange(160, 192)
            == d.subrange(160, 192),
        args.fee_wallet matches Some(w) ==> spec_serialize_authority(rec).subrange(160, 192)
            == w@,
        args.cool_down_period is None ==> spec_serialize_authority(rec).subrange(192, 200)
            == d.subrange(192, 200),
        args.cool_down_period matches Some(x) ==> spec_serialize_authority(rec).subrange(
            192,
            200,
        ) == spec_u64_to_le_bytes(x),
        args.initial_fee_rate is None ==> spec_serialize_authority(rec).subrange(200, 204)
            == d.subrange(200, 204),
        args.initial_fee_rate matches Some(x) ==> spec_serialize_authority(rec).subrange(
            200,
            204,
        ) == spec_u32_to_le_bytes(x),
        spec_serialize_authority(rec)[204] == d[204],
{
    vstd::bytes::lemma_auto_spec_u64_to_from_le_bytes();
    vstd::bytes::lemma_auto_spec_u32_to_from_le_bytes();
    lemma_authority_encoding_fields(rec);
    assert(d.subrange(192, 200).len() == 8);
    assert(d.subrange(200, 204).len() == 4);
}

} // verus!
