//! The three supported operations, their binary payload codec, and the
//! builders that assemble the exact account list each operation requires.
//!
//! The payload is a tagged union: one tag byte, then the operation's
//! arguments with addresses as raw 32-byte strings, integers little-endian,
//! and each optional field prefixed by a one-byte presence flag. Decoding
//! rejects unknown tags and malformed argument bytes with a structural
//! parse error distinct from the policy-validation errors.

use vstd::prelude::*;

use crate::address::Address;
use crate::error::ProcessError;
use solana_program::pubkey::Pubkey;
use vstd::bytes::{
    lemma_auto_spec_u32_to_from_le_bytes, lemma_auto_spec_u64_to_from_le_bytes,
    spec_u32_to_le_bytes, spec_u64_to_le_bytes, u32_to_le_bytes, u64_to_le_bytes,
};

verus! {

/// One account in an instruction's account list.
#[derive(Clone, Copy, Debug)]
pub struct AccountMeta {
    /// The account's address.
    pub pubkey: Address,
    /// Whether the account must sign the transaction.
    pub is_signer: bool,
    /// Whether the instruction may write the account.
    pub is_writable: bool,
}

/// A fully-specified instruction: the program to invoke, the ordered
/// account list, and the binary payload.
#[derive(Clone, Debug)]
pub struct Instruction {
    /// The program that processes this instruction.
    pub program_id: Address,
    /// The positional account list.
    pub accounts: Vec<AccountMeta>,
    /// The binary payload.
    pub data: Vec<u8>,
}

/// Arguments of the create-authority operation.
#[derive(Clone, Copy, Debug)]
pub struct InitStakePoolDepositStakeAuthorityArgs {
    /// Destination for collected fees.
    pub fee_wallet: Address,
    /// Seconds over which the fee decays to zero.
    pub cool_down_period: u64,
    /// Fee rate at the instant of a deposit.
    pub initial_fee_rate: u32,
    /// Derivation nonce of the new authority record.
    pub bump_seed: u8,
}

/// Arguments of the update-authority operation: a sparse record, each
/// absent field left untouched by the update.
#[derive(Clone, Copy, Debug)]
pub struct UpdateStakePoolDepositStakeAuthorityArgs {
    /// New fee destination, when present.
    pub fee_wallet: Option<Address>,
    /// New cool-down period, when present.
    pub cool_down_period: Option<u64>,
    /// New initial fee rate, when present.
    pub initial_fee_rate: Option<u32>,
}

/// The operations the interceptor supports.
#[derive(Clone, Copy, Debug)]
pub enum StakeDepositInterceptorInstruction {
    /// Create the authority record for a stake pool.
    InitStakePoolDepositStakeAuthority(InitStakePoolDepositStakeAuthorityArgs),
    /// Update the mutable fields of an authority record.
    UpdateStakePoolDepositStakeAuthority(UpdateStakePoolDepositStakeAuthorityArgs),
    /// Deposit a stake account into the pool.
    DepositStake,
    /// Deposit with a minimum on the pool tokens received.
    DepositStakeWithSlippage {
        /// Minimum amount of pool tokens that must be received.
        minimum_pool_tokens_out: u64,
    },
}

/// Encoding of an optional address: a presence byte, then the bytes.
pub open spec fn spec_opt_address(o: Option<Address>) -> Seq<u8> {
    match o {
        Option::None => seq![0u8],
        Option::Some(a) => seq![1u8] + a@,
    }
}

/// Encoding of an optional `u64`: a presence byte, then little-endian.
pub open spec fn spec_opt_u64(o: Option<u64>) -> Seq<u8> {
    match o {
        Option::None => seq![0u8],
        Option::Some(x) => seq![1u8] + spec_u64_to_le_bytes(x),
    }
}

/// Encoding of an optional `u32`: a presence byte, then little-endian.
pub open spec fn spec_opt_u32(o: Option<u32>) -> Seq<u8> {
    match o {
        Option::None => seq![0u8],
        Option::Some(x) => seq![1u8] + spec_u32_to_le_bytes(x),
    }
}

/// The exact byte encoding of the create-authority arguments.
pub open spec fn spec_serialize_init_args(a: InitStakePoolDepositStakeAuthorityArgs) -> Seq<u8> {
    a.fee_wallet@ + spec_u64_to_le_bytes(a.cool_down_period) + spec_u32_to_le_bytes(
        a.initial_fee_rate,
    ) + seq![a.bump_seed]
}

/// The exact byte encoding of the update-authority arguments.
pub open spec fn spec_serialize_update_args(a: UpdateStakePoolDepositStakeAuthorityArgs) -> Seq<
    u8,
> {
    spec_opt_address(a.fee_wallet) + spec_opt_u64(a.cool_down_period) + spec_opt_u32(
        a.initial_fee_rate,
    )
}

/// The exact byte encoding of an instruction payload.
pub open spec fn spec_serialize_instruction(ix: StakeDepositInterceptorInstruction) -> Seq<u8> {
    match ix {
        StakeDepositInterceptorInstruction::InitStakePoolDepositStakeAuthority(a) => seq![0u8]
            + spec_serialize_init_args(a),
        StakeDepositInterceptorInstruction::UpdateStakePoolDepositStakeAuthority(a) => seq![1u8]
            + spec_serialize_update_args(a),
        StakeDepositInterceptorInstruction::DepositStake => seq![2u8],
        StakeDepositInterceptorInstruction::DepositStakeWithSlippage {
            minimum_pool_tokens_out,
        } => seq![3u8] + spec_u64_to_le_bytes(minimum_pool_tokens_out),
    }
}

/// Whether `d` is a well-formed encoding of the update-authority
/// arguments: three optional fields in sequence, nothing after them.
pub open spec fn update_args_wf(d: Seq<u8>) -> bool {
    &&& d.len() >= 1
    &&& (d[0] == 0 || d[0] == 1)
    &&& {
        let a: int = if d[0] == 1 {
            33int
        } else {
            1int
        };
        &&& d.len() >= a + 1
        &&& (d[a] == 0 || d[a] == 1)
        &&& {
            let b: int = a + if d[a] == 1 {
                9int
            } else {
                1int
            };
            &&& d.len() >= b + 1
            &&& (d[b] == 0 || d[b] == 1)
            &&& d.len() == b + if d[b] == 1 {
                5int
            } else {
                1int
            }
        }
    }
}

/// Whether `data` is a well-formed instruction payload: a known tag
/// followed by argument bytes of exactly the right shape.
pub open spec fn instruction_wf(data: Seq<u8>) -> bool {
    &&& data.len() >= 1
    &&& {
        ||| (data[0] == 0 && data.len() == 46)
        ||| (data[0] == 1 && update_args_wf(data.skip(1)))
        ||| (data[0] == 2 && data.len() == 1)
        ||| (data[0] == 3 && data.len() == 9)
    }
}

impl StakeDepositInterceptorInstruction {
    /// Encode this operation into its binary payload.
    pub fn pack(&self) -> (out: Vec<u8>)
        ensures
            out@ == spec_serialize_instruction(*self),
    {
        proof {
            lemma_auto_spec_u64_to_from_le_bytes();
            lemma_auto_spec_u32_to_from_le_bytes();
        }
        let mut out: Vec<u8> = Vec::new();
        match self {
            StakeDepositInterceptorInstruction::InitStakePoolDepositStakeAuthority(a) => {
                out.push(0);
                crate::state::push_address(&mut out, &a.fee_wallet);
                let mut cd = u64_to_le_bytes(a.cool_down_period);
                out.append(&mut cd);
                let mut rate = u32_to_le_bytes(a.initial_fee_rate);
                out.append(&mut rate);
                out.push(a.bump_seed);
            },
            StakeDepositInterceptorInstruction::UpdateStakePoolDepositStakeAuthority(a) => {
                out.push(1);
                match &a.fee_wallet {
                    Option::None => out.push(0),
                    Option::Some(w) => {
                        out.push(1);
                        crate::state::push_address(&mut out, w);
                    },
                }
                match &a.cool_down_period {
                    Option::None => out.push(0),
                    Option::Some(x) => {
                        out.push(1);
                        let mut b = u64_to_le_bytes(*x);
                        out.append(&mut b);
                    },
                }
                match &a.initial_fee_rate {
                    Option::None => out.push(0),
                    Option::Some(x) => {
                        out.push(1);
                        let mut b = u32_to_le_bytes(*x);
                        out.append(&mut b);
                    },
                }
            },
            StakeDepositInterceptorInstruction::DepositStake => {
                out.push(2);
            },
            StakeDepositInterceptorInstruction::DepositStakeWithSlippage {
                minimum_pool_tokens_out,
            } => {
                out.push(3);
                let mut b = u64_to_le_bytes(*minimum_pool_tokens_out);
                out.append(&mut b);
            },
        }
        assert(out@ =~= spec_serialize_instruction(*self));
        out
    }

    /// Decode a binary payload. Succeeds exactly on well-formed payloads,
    /// and then returns the one operation whose encoding the payload is.
    pub fn unpack(data: &Vec<u8>) -> (r: Result<Self, ProcessError>)
        ensures
            r is Ok <==> instruction_wf(data@),
            r matches Ok(ix) ==> data@ == spec_serialize_instruction(ix),
            r matches Err(e) ==> e == ProcessError::InvalidInstructionData,
    {
        proof {
            lemma_auto_spec_u64_to_from_le_bytes();
            lemma_auto_spec_u32_to_from_le_bytes();
        }
        let n: usize = data.len();
        if n < 1 {
            return Err(ProcessError::InvalidInstructionData);
        }
        let tag = data[0];
        if tag == 0 {
            if n != 46 {
                return Err(ProcessError::InvalidInstructionData);
            }
            let args = InitStakePoolDepositStakeAuthorityArgs {
                fee_wallet: crate::state::read_address(data, 1),
                cool_down_period: crate::state::read_u64_le(data, 33),
                initial_fee_rate: crate::state::read_u32_le(data, 41),
                bump_seed: data[45],
            };
            let ix = StakeDepositInterceptorInstruction::InitStakePoolDepositStakeAuthority(args);
            assert(data@ =~= spec_serialize_instruction(ix));
            Ok(ix)
        } else if tag == 1 {
            let ghost d = data@.skip(1);
            // fee wallet
            if n < 2 {
                return Err(ProcessError::InvalidInstructionData);
            }
            let fee_flag = data[1];
            if fee_flag != 0 && fee_flag != 1 {
                return Err(ProcessError::InvalidInstructionData);
            }
            let fee_wallet: Option<Address>;
            let after_fee: usize;
            if fee_flag == 1 {
                if n < 34 {
                    return Err(ProcessError::InvalidInstructionData);
                }
                fee_wallet = Some(crate::state::read_address(data, 2));
                after_fee = 34;
            } else {
                fee_wallet = None;
                after_fee = 2;
            }
            // cool-down period
            if n < after_fee + 1 {
                return Err(ProcessError::InvalidInstructionData);
            }
            let cd_flag = data[after_fee];
            if cd_flag != 0 && cd_flag != 1 {
                return Err(ProcessError::InvalidInstructionData);
            }
            let cool_down_period: Option<u64>;
            let after_cd: usize;
            if cd_flag == 1 {
                if n < after_fee + 9 {
                    return Err(ProcessError::InvalidInstructionData);
                }
                cool_down_period = Some(crate::state::read_u64_le(data, after_fee + 1));
                after_cd = after_fee + 9;
            } else {
                cool_down_period = None;
                after_cd = after_fee + 1;
            }
            // initial fee rate
            if n < after_cd + 1 {
                return Err(ProcessError::InvalidInstructionData);
            }
            let rate_flag = data[after_cd];
            if rate_flag != 0 && rate_flag != 1 {
                return Err(ProcessError::InvalidInstructionData);
            }
            let initial_fee_rate: Option<u32>;
            let after_rate: usize;
            if rate_flag == 1 {
                if n < after_cd + 5 {
                    return Err(ProcessError::InvalidInstructionData);
                }
                initial_fee_rate = Some(crate::state::read_u32_le(data, after_cd + 1));
                after_rate = after_cd + 5;
            } else {
                initial_fee_rate = None;
                after_rate = after_cd + 1;
            }
            if n != after_rate {
                return Err(ProcessError::InvalidInstructionData);
            }
            let args = UpdateStakePoolDepositStakeAuthorityArgs {
                fee_wallet,
                cool_down_period,
                initial_fee_rate,
            };
            let ix = StakeDepositInterceptorInstruction::UpdateStakePoolDepositStakeAuthority(
                args,
            );
            assert(update_args_wf(d));
            assert(data@ =~= spec_serialize_instruction(ix));
            Ok(ix)
        } else if tag == 2 {
            if n != 1 {
                return Err(ProcessError::InvalidInstructionData);
            }
            let ix = StakeDepositInterceptorInstruction::DepositStake;
            assert(data@ =~= spec_serialize_instruction(ix));
            Ok(ix)
        } else if tag == 3 {
            if n != 9 {
                return Err(ProcessError::InvalidInstructionData);
            }
            let ix = StakeDepositInterceptorInstruction::DepositStakeWithSlippage {
                minimum_pool_tokens_out: crate::state::read_u64_le(data, 1),
            };
            assert(data@ =~= spec_serialize_instruction(ix));
            Ok(ix)
        } else {
            Err(ProcessError::InvalidInstructionData)
        }
    }
}

/// Every encoded instruction is well-formed, so encoding then decoding
/// always succeeds and gives the operation back.
pub proof fn lemma_serialize_instruction_wf(ix: StakeDepositInterceptorInstruction)
    ensures
        instruction_wf(spec_serialize_instruction(ix)),
{
    lemma_auto_spec_u64_to_from_le_bytes();
    lemma_auto_spec_u32_to_from_le_bytes();
    let s = spec_serialize_instruction(ix);
    match ix {
        StakeDepositInterceptorInstruction::InitStakePoolDepositStakeAuthority(_) => {
            assert(s.len() == 46);
        },
        StakeDepositInterceptorInstruction::UpdateStakePoolDepositStakeAuthority(a) => {
            let d = s.skip(1);
            assert(d =~= spec_serialize_update_args(a));
            let fee_len: int = if a.fee_wallet is Some {
                33
            } else {
                1
            };
            let cd_len: int = if a.cool_down_period is Some {
                9
            } else {
                1
            };
            let rate_len: int = if a.initial_fee_rate is Some {
                5
            } else {
                1
            };
            assert(spec_opt_address(a.fee_wallet).len() == fee_len);
            assert(spec_opt_u64(a.cool_down_period).len() == cd_len);
            assert(spec_opt_u32(a.initial_fee_rate).len() == rate_len);
            assert(d.len() == fee_len + cd_len + rate_len);
            assert(d[0] == if a.fee_wallet is Some {
                1u8
            } else {
                0u8
            });
            assert(d[fee_len] == if a.cool_down_period is Some {
                1u8
            } else {
                0u8
            });
            assert(d[fee_len + cd_len] == if a.initial_fee_rate is Some {
                1u8
            } else {
                0u8
            });
            assert(update_args_wf(d));
        },
        StakeDepositInterceptorInstruction::DepositStake => {
            assert(s.len() == 1);
        },
        StakeDepositInterceptorInstruction::DepositStakeWithSlippage { .. } => {
            assert(s.len() == 9);
        },
    }
}

/// The account-list shape shared by both authorize instructions the
/// deposit flow prepends: the stake account, then the currently
/// authorized withdrawer as signer.
pub open spec fn authorize_instruction_ok(
    ix: Instruction,
    stake_account: Seq<u8>,
    authorized: Seq<u8>,
    new_authority: Seq<u8>,
    staker_role: bool,
) -> bool {
    &&& ix.program_id@ == crate::address::STAKE_PROGRAM_ID@
    &&& ix.accounts@.len() == 2
    &&& ix.accounts@[0].pubkey@ == stake_account && !ix.accounts@[0].is_signer
        && ix.accounts@[0].is_writable
    &&& ix.accounts@[1].pubkey@ == authorized && ix.accounts@[1].is_signer
        && !ix.accounts@[1].is_writable
    &&& ix.data@ == stake_authorize_payload(new_authority, staker_role)
}

/// The payload of the stake program's authorize instruction with no
/// custodian: the operation's tag (authorize is the second of the stake
/// program's instruction set), the new authority, and the role, the tag
/// and role each as a little-endian four-byte index.
pub open spec fn stake_authorize_payload(new_authority: Seq<u8>, staker_role: bool) -> Seq<u8> {
    seq![1u8, 0u8, 0u8, 0u8] + new_authority + if staker_role {
        seq![0u8, 0u8, 0u8, 0u8]
    } else {
        seq![1u8, 0u8, 0u8, 0u8]
    }
}

/// Relies on `solana_stake_interface::instruction::authorize`: it builds
/// an instruction for the stake program whose accounts are the stake
/// account (writable) and the signing authority, and whose payload is
/// the authorize tag, the new authority and the role, serialized with
/// fixed-width little-endian tags, when no custodian is given.
#[verifier::external_body]
fn stake_authorize_raw(
    stake_account: &Address,
    authorized: &Address,
    new_authority: &Address,
    staker_role: bool,
) -> (r: Instruction)
    ensures
        authorize_instruction_ok(r, stake_account@, authorized@, new_authority@, staker_role),
{
    let role = if staker_role {
        solana_stake_interface::state::StakeAuthorize::Staker
    } else {
        solana_stake_interface::state::StakeAuthorize::Withdrawer
    };
    let ix = solana_stake_interface::instruction::authorize(
        &Pubkey::new_from_array(*stake_account), &Pubkey::new_from_array(*authorized),
        &Pubkey::new_from_array(*new_authority), role, None,
    );
    let accounts = ix.accounts.iter().map(
        |m| AccountMeta { pubkey: m.pubkey.to_bytes(), is_signer: m.is_signer, is_writable: m.is_writable },
    ).collect();
    Instruction { program_id: ix.program_id.to_bytes(), accounts, data: ix.data }
}

/// Build the create-authority instruction: derives the authority record's
/// address and its vault, and encodes the arguments with the derived bump.
/// Returns nothing only when the host accepts no bump for the pool.
pub fn create_init_deposit_stake_authority_instruction(
    program_id: &Address,
    payer: &Address,
    stake_pool: &Address,
    stake_pool_mint: &Address,
    stake_pool_manager: &Address,
    stake_pool_program_id: &Address,
    token_program_id: &Address,
    fee_wallet: &Address,
    cool_down_period: u64,
    initial_fee_rate: u32,
    authority: &Address,
) -> (r: Option<Instruction>)
    ensures
        ({
            let found = crate::pda::try_find_pda(
                crate::pda::authority_seeds(stake_pool@),
                program_id@,
            );
            r is Some <==> (found is Some && crate::pda::ata_of(
                found->Some_0.0,
                stake_pool_mint@,
            ) is Some)
        }),
        r matches Some(ix) ==> ({
            let p = crate::pda::try_find_pda(
                crate::pda::authority_seeds(stake_pool@),
                program_id@,
            )->Some_0;
            &&& ix.program_id == *program_id
            &&& ix.accounts@.len() == 11
            &&& ix.accounts@[0] == (AccountMeta { pubkey: *payer, is_signer: true, is_writable: true })
            &&& ix.accounts@[1].pubkey@ == p.0 && !ix.accounts@[1].is_signer
                && ix.accounts@[1].is_writable
            &&& ix.accounts@[2].pubkey@ == crate::pda::ata_of(p.0, stake_pool_mint@)->Some_0
                && !ix.accounts@[2].is_signer && ix.accounts@[2].is_writable
            &&& ix.accounts@[3] == (AccountMeta {
                pubkey: *authority,
                is_signer: true,
                is_writable: false,
            })
            &&& ix.accounts@[4] == (AccountMeta {
                pubkey: *stake_pool,
                is_signer: false,
                is_writable: false,
            })
            &&& ix.accounts@[5] == (AccountMeta {
                pubkey: *stake_pool_mint,
                is_signer: false,
                is_writable: false,
            })
            &&& ix.accounts@[6] == (AccountMeta {
                pubkey: *stake_pool_manager,
                is_signer: true,
                is_writable: false,
            })
            &&& ix.accounts@[7] == (AccountMeta {
                pubkey: *stake_pool_program_id,
                is_signer: false,
                is_writable: false,
            })
            &&& ix.accounts@[8] == (AccountMeta {
                pubkey: *token_program_id,
                is_signer: false,
                is_writable: false,
            })
            &&& ix.accounts@[9] == (AccountMeta {
                pubkey: crate::address::ASSOCIATED_TOKEN_PROGRAM_ID,
                is_signer: false,
                is_writable: false,
            })
            &&& ix.accounts@[10] == (AccountMeta {
                pubkey: crate::address::SYSTEM_PROGRAM_ID,
                is_signer: false,
                is_writable: false,
            })
            &&& ix.data@ == spec_serialize_instruction(
                StakeDepositInterceptorInstruction::InitStakePoolDepositStakeAuthority(
                    InitStakePoolDepositStakeAuthorityArgs {
                        fee_wallet: *fee_wallet,
                        cool_down_period,
                        initial_fee_rate,
                        bump_seed: p.1,
                    },
                ),
            )
        }),
{
    let found = crate::pda::derive_stake_pool_deposit_stake_authority(program_id, stake_pool);
    match found {
        None => None,
        Some((deposit_stake_authority_pubkey, bump_seed)) => {
            let vault_ata = match crate::pda::get_associated_token_address(
                &deposit_stake_authority_pubkey,
                stake_pool_mint,
            ) {
                Option::None => {
                    return None;
                },
                Option::Some(a) => a,
            };
            let args = InitStakePoolDepositStakeAuthorityArgs {
                fee_wallet: *fee_wallet,
                cool_down_period,
                initial_fee_rate,
                bump_seed,
            };
            let ix = StakeDepositInterceptorInstruction::InitStakePoolDepositStakeAuthority(args);
            let data = ix.pack();
            let mut accounts: Vec<AccountMeta> = Vec::new();
            accounts.push(AccountMeta { pubkey: *payer, is_signer: true, is_writable: true });
            accounts.push(
                AccountMeta {
                    pubkey: deposit_stake_authority_pubkey,
                    is_signer: false,
                    is_writable: true,
                },
            );
            accounts.push(AccountMeta { pubkey: vault_ata, is_signer: false, is_writable: true });
            accounts.push(AccountMeta { pubkey: *authority, is_signer: true, is_writable: false });
            accounts.push(
                AccountMeta { pubkey: *stake_pool, is_signer: false, is_writable: false },
            );
            accounts.push(
                AccountMeta { pubkey: *stake_pool_mint, is_signer: false, is_writable: false },
            );
            accounts.push(
                AccountMeta { pubkey: *stake_pool_manager, is_signer: true, is_writable: false },
            );
            accounts.push(
                AccountMeta {
                    pubkey: *stake_pool_program_id,
                    is_signer: false,
                    is_writable: false,
                },
            );
            accounts.push(
                AccountMeta { pubkey: *token_program_id, is_signer: false, is_writable: false },
            );
            accounts.push(
                AccountMeta {
                    pubkey: crate::address::ASSOCIATED_TOKEN_PROGRAM_ID,
                    is_signer: false,
                    is_writable: false,
                },
            );
            accounts.push(
                AccountMeta {
                    pubkey: crate::address::SYSTEM_PROGRAM_ID,
                    is_signer: false,
                    is_writable: false,
                },
            );
            Some(Instruction { program_id: *program_id, accounts, data })
        },
    }
}

/// Build the update-authority instruction: the authority record and the
/// current owner as signer, plus the new owner as co-signer only when an
/// ownership transfer is requested. Returns nothing only when the host
/// accepts no bump for the pool.
pub fn create_update_deposit_stake_authority_instruction(
    program_id: &Address,
    stake_pool: &Address,
    authority: &Address,
    new_authority: Option<Address>,
    fee_wallet: Option<Address>,
    cool_down_period: Option<u64>,
    initial_fee_rate: Option<u32>,
) -> (r: Option<Instruction>)
    ensures
        r is Some <==> crate::pda::try_find_pda(
            crate::pda::authority_seeds(stake_pool@),
            program_id@,
        ) is Some,
        r matches Some(ix) ==> ({
            let p = crate::pda::try_find_pda(
                crate::pda::authority_seeds(stake_pool@),
                program_id@,
            )->Some_0;
            &&& ix.program_id == *program_id
            &&& ix.accounts@.len() == if new_authority is Some {
                3int
            } else {
                2int
            }
            &&& ix.accounts@[0].pubkey@ == p.0 && !ix.accounts@[0].is_signer
                && ix.accounts@[0].is_writable
            &&& ix.accounts@[1] == (AccountMeta {
                pubkey: *authority,
                is_signer: true,
                is_writable: false,
            })
            &&& new_authority matches Some(na) ==> ix.accounts@[2] == (AccountMeta {
                pubkey: na,
                is_signer: true,
                is_writable: true,
            })
            &&& ix.data@ == spec_serialize_instruction(
                StakeDepositInterceptorInstruction::UpdateStakePoolDepositStakeAuthority(
                    UpdateStakePoolDepositStakeAuthorityArgs {
                        fee_wallet,
                        cool_down_period,
                        initial_fee_rate,
                    },
                ),
            )
        }),
{
    let found = crate::pda::derive_stake_pool_deposit_stake_authority(program_id, stake_pool);
    match found {
        None => None,
        Some((deposit_stake_authority_pubkey, _bump_seed)) => {
            let args = UpdateStakePoolDepositStakeAuthorityArgs {
                fee_wallet,
                cool_down_period,
                initial_fee_rate,
            };
            let ix = StakeDepositInterceptorInstruction::UpdateStakePoolDepositStakeAuthority(
                args,
            );
            let data = ix.pack();
            let mut accounts: Vec<AccountMeta> = Vec::new();
            accounts.push(
                AccountMeta {
                    pubkey: deposit_stake_authority_pubkey,
                    is_signer: false,
                    is_writable: true,
                },
            );
            accounts.push(AccountMeta { pubkey: *authority, is_signer: true, is_writable: false });
            match new_authority {
                Option::None => {},
                Option::Some(na) => {
                    accounts.push(AccountMeta { pubkey: na, is_signer: true, is_writable: true });
                },
            }
            Some(Instruction { program_id: *program_id, accounts, data })
        },
    }
}

/// The 16-entry account list of the interceptor's deposit operation:
/// the stake-pool program first, then the accounts the external deposit
/// instruction expects, with the authority record as the signing deposit
/// authority in fourth position.
pub open spec fn deposit_metas_ok(
    metas: Seq<AccountMeta>,
    stake_pool_program_id: Seq<u8>,
    stake_pool: Seq<u8>,
    validator_list_storage: Seq<u8>,
    stake_pool_deposit_authority: Seq<u8>,
    stake_pool_withdraw_authority: Seq<u8>,
    deposit_stake_address: Seq<u8>,
    validator_stake_account: Seq<u8>,
    reserve_stake_account: Seq<u8>,
    pool_tokens_to: Seq<u8>,
    manager_fee_account: Seq<u8>,
    referrer_pool_tokens_account: Seq<u8>,
    pool_mint: Seq<u8>,
    token_program_id: Seq<u8>,
) -> bool {
    &&& metas.len() == 16
    &&& metas[0].pubkey@ == stake_pool_program_id && !metas[0].is_signer && !metas[0].is_writable
    &&& metas[1].pubkey@ == stake_pool && !metas[1].is_signer && metas[1].is_writable
    &&& metas[2].pubkey@ == validator_list_storage && !metas[2].is_signer && metas[2].is_writable
    &&& metas[3].pubkey@ == stake_pool_deposit_authority && metas[3].is_signer
        && !metas[3].is_writable
    &&& metas[4].pubkey@ == stake_pool_withdraw_authority && !metas[4].is_signer
        && !metas[4].is_writable
    &&& metas[5].pubkey@ == deposit_stake_address && !metas[5].is_signer && metas[5].is_writable
    &&& metas[6].pubkey@ == validator_stake_account && !metas[6].is_signer && metas[6].is_writable
    &&& metas[7].pubkey@ == reserve_stake_account && !metas[7].is_signer && metas[7].is_writable
    &&& metas[8].pubkey@ == pool_tokens_to && !metas[8].is_signer && metas[8].is_writable
    &&& metas[9].pubkey@ == manager_fee_account && !metas[9].is_signer && metas[9].is_writable
    &&& metas[10].pubkey@ == referrer_pool_tokens_account && !metas[10].is_signer
        && metas[10].is_writable
    &&& metas[11].pubkey@ == pool_mint && !metas[11].is_signer && metas[11].is_writable
    &&& metas[12].pubkey@ == crate::address::CLOCK_SYSVAR_ID@ && !metas[12].is_signer
        && !metas[12].is_writable
    &&& metas[13].pubkey@ == crate::address::STAKE_HISTORY_SYSVAR_ID@ && !metas[13].is_signer
        && !metas[13].is_writable
    &&& metas[14].pubkey@ == token_program_id && !metas[14].is_signer && !metas[14].is_writable
    &&& metas[15].pubkey@ == crate::address::STAKE_PROGRAM_ID@ && !metas[15].is_signer
        && !metas[15].is_writable
}

/// What a deposit builder returns: two instructions handing the stake
/// account's staker and withdrawer roles to the deposit authority, then
/// the interceptor's deposit instruction itself.
pub open spec fn deposit_instructions_ok(
    v: Seq<Instruction>,
    program_id: Seq<u8>,
    stake_pool_program_id: Seq<u8>,
    stake_pool: Seq<u8>,
    validator_list_storage: Seq<u8>,
    stake_pool_deposit_authority: Seq<u8>,
    stake_pool_withdraw_authority: Seq<u8>,
    deposit_stake_address: Seq<u8>,
    deposit_stake_withdraw_authority: Seq<u8>,
    validator_stake_account: Seq<u8>,
    reserve_stake_account: Seq<u8>,
    pool_tokens_to: Seq<u8>,
    manager_fee_account: Seq<u8>,
    referrer_pool_tokens_account: Seq<u8>,
    pool_mint: Seq<u8>,
    token_program_id: Seq<u8>,
    minimum_pool_tokens_out: Option<u64>,
) -> bool {
    &&& v.len() == 3
    &&& authorize_instruction_ok(
        v[0],
        deposit_stake_address,
        deposit_stake_withdraw_authority,
        stake_pool_deposit_authority,
        true,
    )
    &&& authorize_instruction_ok(
        v[1],
        deposit_stake_address,
        deposit_stake_withdraw_authority,
        stake_pool_deposit_authority,
        false,
    )
    &&& v[2].program_id@ == program_id
    &&& deposit_metas_ok(
        v[2].accounts@,
        stake_pool_program_id,
        stake_pool,
        validator_list_storage,
        stake_pool_deposit_authority,
        stake_pool_withdraw_authority,
        deposit_stake_address,
        validator_stake_account,
        reserve_stake_account,
        pool_tokens_to,
        manager_fee_account,
        referrer_pool_tokens_account,
        pool_mint,
        token_program_id,
    )
    &&& (minimum_pool_tokens_out matches Some(m) ==> v[2].data@ == spec_serialize_instruction(
        StakeDepositInterceptorInstruction::DepositStakeWithSlippage {
            minimum_pool_tokens_out: m,
        },
    ))
    &&& (minimum_pool_tokens_out is None ==> v[2].data@ == spec_serialize_instruction(
        StakeDepositInterceptorInstruction::DepositStake,
    ))
}

#[verifier::rlimit(30)]
fn deposit_stake_internal(
    program_id: &Address,
    stake_pool_program_id: &Address,
    stake_pool: &Address,
    validator_list_storage: &Address,
    stake_pool_deposit_authority: &Address,
    stake_pool_withdraw_authority: &Address,
    deposit_stake_address: &Address,
    deposit_stake_withdraw_authority: &Address,
    validator_stake_account: &Address,
    reserve_stake_account: &Address,
    pool_tokens_to: &Address,
    manager_fee_account: &Address,
    referrer_pool_tokens_account: &Address,
    pool_mint: &Address,
    token_program_id: &Address,
    minimum_pool_tokens_out: Option<u64>,
) -> (r: Vec<Instruction>)
    ensures
        deposit_instructions_ok(
            r@,
            program_id@,
            stake_pool_program_id@,
            stake_pool@,
            validator_list_storage@,
            stake_pool_deposit_authority@,
            stake_pool_withdraw_authority@,
            deposit_stake_address@,
            deposit_stake_withdraw_authority@,
            validator_stake_account@,
            reserve_stake_account@,
            pool_tokens_to@,
            manager_fee_account@,
            referrer_pool_tokens_account@,
            pool_mint@,
            token_program_id@,
            minimum_pool_tokens_out,
        ),
{
    let mut instructions: Vec<Instruction> = Vec::new();
    instructions.push(
        stake_authorize_raw(
            deposit_stake_address,
            deposit_stake_withdraw_authority,
            stake_pool_deposit_authority,
            true,
        ),
    );
    instructions.push(
        stake_authorize_raw(
            deposit_stake_address,
            deposit_stake_withdraw_authority,
            stake_pool_deposit_authority,
            false,
        ),
    );
    let ix = match minimum_pool_tokens_out {
        Option::Some(m) => StakeDepositInterceptorInstruction::DepositStakeWithSlippage {
            minimum_pool_tokens_out: m,
        },
        Option::None => StakeDepositInterceptorInstruction::DepositStake,
    };
    let data = ix.pack();
    let mut accounts: Vec<AccountMeta> = Vec::new();
    accounts.push(
        AccountMeta { pubkey: *stake_pool_program_id, is_signer: false, is_writable: false },
    );
    accounts.push(AccountMeta { pubkey: *stake_pool, is_signer: false, is_writable: true });
    accounts.push(
        AccountMeta { pubkey: *validator_list_storage, is_signer: false, is_writable: true },
    );
    accounts.push(
        AccountMeta { pubkey: *stake_pool_deposit_authority, is_signer: true, is_writable: false },
    );
    accounts.push(
        AccountMeta {
            pubkey: *stake_pool_withdraw_authority,
            is_signer: false,
            is_writable: false,
        },
    );
    accounts.push(
        AccountMeta { pubkey: *deposit_stake_address, is_signer: false, is_writable: true },
    );
    accounts.push(
        AccountMeta { pubkey: *validator_stake_account, is_signer: false, is_writable: true },
    );
    accounts.push(
        AccountMeta { pubkey: *reserve_stake_account, is_signer: false, is_writable: true },
    );
    accounts.push(AccountMeta { pubkey: *pool_tokens_to, is_signer: false, is_writable: true });
    accounts.push(
        AccountMeta { pubkey: *manager_fee_account, is_signer: false, is_writable: true },
    );
    accounts.push(
        AccountMeta {
            pubkey: *referrer_pool_tokens_account,
            is_signer: false,
            is_writable: true,
        },
    );
    accounts.push(AccountMeta { pubkey: *pool_mint, is_signer: false, is_writable: true });
    accounts.push(
        AccountMeta {
            pubkey: crate::address::CLOCK_SYSVAR_ID,
            is_signer: false,
            is_writable: false,
        },
    );
    accounts.push(
        AccountMeta {
            pubkey: crate::address::STAKE_HISTORY_SYSVAR_ID,
            is_signer: false,
            is_writable: false,
        },
    );
    accounts.push(
        AccountMeta { pubkey: *token_program_id, is_signer: false, is_writable: false },
    );
    accounts.push(
        AccountMeta {
            pubkey: crate::address::STAKE_PROGRAM_ID,
            is_signer: false,
            is_writable: false,
        },
    );
    instructions.push(Instruction { program_id: *program_id, accounts, data });
    instructions
}

/// Build the instructions required to deposit a user-owned stake account
/// into a stake pool through the interceptor: the stake account's roles
/// are first handed to the derived deposit authority, then the deposit
/// itself is issued. Returns nothing only when the host accepts no bump
/// for the pool.
pub fn create_deposit_stake_instruction(
    program_id: &Address,
    stake_pool_program_id: &Address,
    stake_pool: &Address,
    validator_list_storage: &Address,
    stake_pool_withdraw_authority: &Address,
    deposit_stake_address: &Address,
    deposit_stake_withdraw_authority: &Address,
    validator_stake_account: &Address,
    reserve_stake_account: &Address,
    pool_tokens_to: &Address,
    manager_fee_account: &Address,
    referrer_pool_tokens_account: &Address,
    pool_mint: &Address,
    token_program_id: &Address,
) -> (r: Option<Vec<Instruction>>)
    ensures
        r is Some <==> crate::pda::try_find_pda(
            crate::pda::authority_seeds(stake_pool@),
            program_id@,
        ) is Some,
        r matches Some(v) ==> deposit_instructions_ok(
            v@,
            program_id@,
            stake_pool_program_id@,
            stake_pool@,
            validator_list_storage@,
            crate::pda::try_find_pda(
                crate::pda::authority_seeds(stake_pool@),
                program_id@,
            )->Some_0.0,
            stake_pool_withdraw_authority@,
            deposit_stake_address@,
            deposit_stake_withdraw_authority@,
            validator_stake_account@,
            reserve_stake_account@,
            pool_tokens_to@,
            manager_fee_account@,
            referrer_pool_tokens_account@,
            pool_mint@,
            token_program_id@,
            Option::None,
        ),
{
    match crate::pda::derive_stake_pool_deposit_stake_authority(program_id, stake_pool) {
        None => None,
        Some((deposit_stake_authority_pubkey, _bump_seed)) => Some(
            deposit_stake_internal(
                program_id,
                stake_pool_program_id,
                stake_pool,
                validator_list_storage,
                &deposit_stake_authority_pubkey,
                stake_pool_withdraw_authority,
                deposit_stake_address,
                deposit_stake_withdraw_authority,
                validator_stake_account,
                reserve_stake_account,
                pool_tokens_to,
                manager_fee_account,
                referrer_pool_tokens_account,
                pool_mint,
                token_program_id,
                None,
            ),
        ),
    }
}

/// As [`create_deposit_stake_instruction`], with a minimum on the pool
/// tokens the external program must credit for the deposit to succeed.
pub fn create_deposit_stake_with_slippage_instruction(
    program_id: &Address,
    stake_pool_program_id: &Address,
    stake_pool: &Address,
    validator_list_storage: &Address,
    stake_pool_withdraw_authority: &Address,
    deposit_stake_address: &Address,
    deposit_stake_withdraw_authority: &Address,
    validator_stake_account: &Address,
    reserve_stake_account: &Address,
    pool_tokens_to: &Address,
    manager_fee_account: &Address,
    referrer_pool_tokens_account: &Address,
    pool_mint: &Address,
    token_program_id: &Address,
    minimum_pool_tokens_out: u64,
) -> (r: Option<Vec<Instruction>>)
    ensures
        r is Some <==> crate::pda::try_find_pda(
            crate::pda::authority_seeds(stake_pool@),
            program_id@,
        ) is Some,
        r matches Some(v) ==> deposit_instructions_ok(
            v@,
            program_id@,
            stake_pool_program_id@,
            stake_pool@,
            validator_list_storage@,
            crate::pda::try_find_pda(
                crate::pda::authority_seeds(stake_pool@),
                program_id@,
            )->Some_0.0,
            stake_pool_withdraw_authority@,
            deposit_stake_address@,
            deposit_stake_withdraw_authority@,
            validator_stake_account@,
            reserve_stake_account@,
            pool_tokens_to@,
            manager_fee_account@,
            referrer_pool_tokens_account@,
            pool_mint@,
            token_program_id@,
            Option::Some(minimum_pool_tokens_out),
        ),
{
    match crate::pda::derive_stake_pool_deposit_stake_authority(program_id, stake_pool) {
        None => None,
        Some((deposit_stake_authority_pubkey, _bump_seed)) => Some(
            deposit_stake_internal(
                program_id,
                stake_pool_program_id,
                stake_pool,
                validator_list_storage,
                &deposit_stake_authority_pubkey,
                stake_pool_withdraw_authority,
                deposit_stake_address,
                deposit_stake_withdraw_authority,
                validator_stake_account,
                reserve_stake_account,
                pool_tokens_to,
                manager_fee_account,
                referrer_pool_tokens_account,
                pool_mint,
                token_program_id,
                Some(minimum_pool_tokens_out),
            ),
        ),
    }
}

} // verus!
