//! Deterministic address derivation for the authority record and for
//! per-deposit receipts, and the re-validation check the processor runs
//! against caller-supplied addresses.
//!
//! The host chain's derivation itself (seed hashing and the off-curve
//! check) lives behind trusted wrappers; everything stated of it goes
//! through the two names [`pda_of`] and [`try_find_pda`].

use vstd::prelude::*;

use crate::address::{address_eq, address_to_vec, Address};
use crate::error::{ProcessError, StakeDepositInterceptorError};
use solana_program::pubkey::Pubkey;

verus! {

/// Seed tag of the authority record: the bytes of `deposit_stake_authority`.
pub const STAKE_POOL_DEPOSIT_STAKE_AUTHORITY: [u8; 23] = [
    100, 101, 112, 111, 115, 105, 116, 95, 115, 116, 97, 107, 101, 95, 97, 117, 116, 104, 111,
    114, 105, 116, 121,
];

/// Seed tag of a deposit receipt: the bytes of `deposit_receipt`.
pub const DEPOSIT_RECEIPT: [u8; 15] = [
    100, 101, 112, 111, 115, 105, 116, 95, 114, 101, 99, 101, 105, 112, 116,
];

/// What the host derives from a seed tuple and a program id when no bump
/// search is involved: the derived address, or nothing when the tuple
/// lands on the curve or breaks a seed limit.
pub uninterp spec fn pda_of(seeds: Seq<Seq<u8>>, program: Seq<u8>) -> Option<Seq<u8>>;

/// What the host's bump search finds for a seed tuple and a program id:
/// the first viable derived address and its bump nonce, if any.
pub uninterp spec fn try_find_pda(seeds: Seq<Seq<u8>>, program: Seq<u8>) -> Option<(Seq<u8>, u8)>;

/// The seed tuple the associated-token-account program derives a
/// wallet's token account for a mint from.
pub open spec fn ata_seeds(wallet: Seq<u8>, mint: Seq<u8>) -> Seq<Seq<u8>> {
    seq![wallet, crate::address::TOKEN_PROGRAM_ID@, mint]
}

/// The associated token account of a wallet for a mint, if the host
/// accepts an address for its seed tuple.
pub open spec fn ata_of(wallet: Seq<u8>, mint: Seq<u8>) -> Option<Seq<u8>> {
    match try_find_pda(ata_seeds(wallet, mint), crate::address::ASSOCIATED_TOKEN_PROGRAM_ID@) {
        Option::Some(p) => Option::Some(p.0),
        Option::None => Option::None,
    }
}

/// The seed tuple of the authority record for a stake pool.
pub open spec fn authority_seeds(stake_pool: Seq<u8>) -> Seq<Seq<u8>> {
    seq![STAKE_POOL_DEPOSIT_STAKE_AUTHORITY@, stake_pool]
}

/// The authority record's seed tuple with its bump nonce appended, as
/// presented when re-validating or signing.
pub open spec fn authority_seeds_with_bump(stake_pool: Seq<u8>, bump: u8) -> Seq<Seq<u8>> {
    authority_seeds(stake_pool).push(seq![bump])
}

/// The seed tuple of the deposit receipt for an owner, pool and base.
pub open spec fn receipt_seeds(owner: Seq<u8>, stake_pool: Seq<u8>, base: Seq<u8>) -> Seq<
    Seq<u8>,
> {
    seq![DEPOSIT_RECEIPT@, owner, stake_pool, base]
}

/// Relies on `Pubkey::try_find_program_address`: the result is a function
/// of the seeds and program id alone, and its source shows that appending
/// the returned bump to the seeds and deriving without a search yields
/// the returned address.
#[verifier::external_body]
fn try_find_program_address_raw(seeds: &Vec<Vec<u8>>, program: &Address) -> (r: Option<
    (Address, u8),
>)
    ensures
        r matches Some(p) ==> try_find_pda(seeds.deep_view(), program@) == Some((p.0@, p.1)),
        r is None ==> try_find_pda(seeds.deep_view(), program@) is None,
        r matches Some(p) ==> pda_of(seeds.deep_view().push(seq![p.1]), program@) == Some(p.0@),
{
    let seed_refs: Vec<&[u8]> = seeds.iter().map(|s| s.as_slice()).collect();
    let pk = Pubkey::new_from_array(*program);
    Pubkey::try_find_program_address(&seed_refs, &pk).map(|(a, b)| (a.to_bytes(), b))
}

/// Relies on `Pubkey::create_program_address`: the result is a function of
/// the seeds and program id alone; it fails exactly when the host accepts
/// no address for the tuple.
#[verifier::external_body]
fn create_program_address_raw(seeds: &Vec<Vec<u8>>, program: &Address) -> (r: Option<Address>)
    ensures
        r matches Some(a) ==> pda_of(seeds.deep_view(), program@) == Some(a@),
        r is None ==> pda_of(seeds.deep_view(), program@) is None,
{
    let seed_refs: Vec<&[u8]> = seeds.iter().map(|s| s.as_slice()).collect();
    let pk = Pubkey::new_from_array(*program);
    Pubkey::create_program_address(&seed_refs, &pk).ok().map(|a| a.to_bytes())
}

/// Copy the authority seed tag into an owned vector.
fn authority_seed_tag_vec() -> (v: Vec<u8>)
    ensures
        v@ == STAKE_POOL_DEPOSIT_STAKE_AUTHORITY@,
{
    let mut v: Vec<u8> = Vec::new();
    let mut i: usize = 0;
    while i < 23
        invariant
            i <= 23,
            v@ =~= STAKE_POOL_DEPOSIT_STAKE_AUTHORITY@.subrange(0, i as int),
        decreases 23 - i,
    {
        v.push(STAKE_POOL_DEPOSIT_STAKE_AUTHORITY[i]);
        i = i + 1;
    }
    assert(v@ =~= STAKE_POOL_DEPOSIT_STAKE_AUTHORITY@);
    v
}

/// Copy the receipt seed tag into an owned vector.
fn receipt_seed_tag_vec() -> (v: Vec<u8>)
    ensures
        v@ == DEPOSIT_RECEIPT@,
{
    let mut v: Vec<u8> = Vec::new();
    let mut i: usize = 0;
    while i < 15
        invariant
            i <= 15,
            v@ =~= DEPOSIT_RECEIPT@.subrange(0, i as int),
        decreases 15 - i,
    {
        v.push(DEPOSIT_RECEIPT[i]);
        i = i + 1;
    }
    assert(v@ =~= DEPOSIT_RECEIPT@);
    v
}

/// Derive the authority record's address and bump for a stake pool under
/// the given program. Returns nothing in the statistically improbable
/// event that no bump nonce is viable.
pub fn derive_stake_pool_deposit_stake_authority(program_id: &Address, stake_pool: &Address) -> (r:
    Option<(Address, u8)>)
    ensures
        r matches Some(p) ==> try_find_pda(authority_seeds(stake_pool@), program_id@) == Some(
            (p.0@, p.1),
        ),
        r is None ==> try_find_pda(authority_seeds(stake_pool@), program_id@) is None,
        r matches Some(p) ==> pda_of(authority_seeds_with_bump(stake_pool@, p.1), program_id@)
            == Some(p.0@),
{
    let mut seeds: Vec<Vec<u8>> = Vec::new();
    seeds.push(authority_seed_tag_vec());
    seeds.push(address_to_vec(stake_pool));
    proof {
        assert(seeds.deep_view() =~~= authority_seeds(stake_pool@));
    }
    try_find_program_address_raw(&seeds, program_id)
}

/// Derive a deposit receipt's address and bump for an owner, pool and
/// base under the given program. Returns nothing in the statistically
/// improbable event that no bump nonce is viable.
pub fn derive_stake_deposit_receipt(
    program_id: &Address,
    owner: &Address,
    stake_pool: &Address,
    base: &Address,
) -> (r: Option<(Address, u8)>)
    ensures
        r matches Some(p) ==> try_find_pda(
            receipt_seeds(owner@, stake_pool@, base@),
            program_id@,
        ) == Some((p.0@, p.1)),
        r is None ==> try_find_pda(receipt_seeds(owner@, stake_pool@, base@), program_id@)
            is None,
        r matches Some(p) ==> pda_of(
            receipt_seeds(owner@, stake_pool@, base@).push(seq![p.1]),
            program_id@,
        ) == Some(p.0@),
{
    let mut seeds: Vec<Vec<u8>> = Vec::new();
    seeds.push(receipt_seed_tag_vec());
    seeds.push(address_to_vec(owner));
    seeds.push(address_to_vec(stake_pool));
    seeds.push(address_to_vec(base));
    proof {
        assert(seeds.deep_view() =~~= receipt_seeds(owner@, stake_pool@, base@));
    }
    try_find_program_address_raw(&seeds, program_id)
}

/// The associated token account of a wallet for a mint: derived from
/// the wallet, the token program and the mint under the
/// associated-token-account program. Returns nothing in the
/// statistically improbable event that no bump nonce is viable.
pub fn get_associated_token_address(wallet: &Address, mint: &Address) -> (r: Option<Address>)
    ensures
        r matches Some(a) ==> ata_of(wallet@, mint@) == Some(a@),
        r is None <==> ata_of(wallet@, mint@) is None,
{
    let mut seeds: Vec<Vec<u8>> = Vec::new();
    seeds.push(address_to_vec(wallet));
    seeds.push(address_to_vec(&crate::address::TOKEN_PROGRAM_ID));
    seeds.push(address_to_vec(mint));
    proof {
        assert(seeds.deep_view() =~~= ata_seeds(wallet@, mint@));
    }
    match try_find_program_address_raw(&seeds, &crate::address::ASSOCIATED_TOKEN_PROGRAM_ID) {
        Option::None => None,
        Option::Some(p) => Some(p.0),
    }
}

/// Check that re-deriving the authority record's address from the given
/// stake pool and bump nonce reproduces the supplied address.
pub fn check_deposit_stake_authority_address(
    program_id: &Address,
    deposit_stake_authority: &Address,
    stake_pool: &Address,
    bump_seed: u8,
) -> (r: Result<(), ProcessError>)
    ensures
        ({
            let derived = pda_of(authority_seeds_with_bump(stake_pool@, bump_seed), program_id@);
            &&& (r is Ok <==> derived == Some(deposit_stake_authority@))
            &&& (derived is None ==> r == Err::<(), ProcessError>(ProcessError::InvalidSeeds))
            &&& (derived matches Some(a) && a != deposit_stake_authority@ ==> r == Err::<
                (),
                ProcessError,
            >(ProcessError::Interceptor(
                StakeDepositInterceptorError::InvalidStakePoolDepositStakeAuthority,
            )))
        }),
{
    let mut seeds: Vec<Vec<u8>> = Vec::new();
    seeds.push(authority_seed_tag_vec());
    seeds.push(address_to_vec(stake_pool));
    let mut bump: Vec<u8> = Vec::new();
    bump.push(bump_seed);
    seeds.push(bump);
    proof {
        assert(seeds.deep_view() =~~= authority_seeds_with_bump(stake_pool@, bump_seed));
    }
    match create_program_address_raw(&seeds, program_id) {
        None => Err(ProcessError::InvalidSeeds),
        Some(address) => {
            if address_eq(&address, deposit_stake_authority) {
                Ok(())
            } else {
                Err(ProcessError::Interceptor(
                    StakeDepositInterceptorError::InvalidStakePoolDepositStakeAuthority,
                ))
            }
        },
    }
}

/// Seed tag of the external stake-pool program's withdraw authority:
/// the bytes of `withdraw`.
pub const STAKE_POOL_WITHDRAW_SEED: [u8; 8] = [119, 105, 116, 104, 100, 114, 97, 119];

/// The seed tuple the external stake-pool program derives its withdraw
/// authority from.
pub open spec fn withdraw_authority_seeds(stake_pool: Seq<u8>) -> Seq<Seq<u8>> {
    seq![stake_pool, STAKE_POOL_WITHDRAW_SEED@]
}

/// The seed tuple the external stake-pool program derives a validator's
/// pool stake account from: the vote account, the pool, and the entry's
/// seed suffix in little-endian when one is set (an empty third seed
/// otherwise).
pub open spec fn validator_stake_seeds(
    vote_account: Seq<u8>,
    stake_pool: Seq<u8>,
    seed: Option<u32>,
) -> Seq<Seq<u8>> {
    seq![
        vote_account,
        stake_pool,
        match seed {
            Option::None => Seq::<u8>::empty(),
            Option::Some(s) => vstd::bytes::spec_u32_to_le_bytes(s),
        },
    ]
}

/// Derive the external stake-pool program's withdraw authority for a
/// pool. Returns nothing in the statistically improbable event that no
/// bump nonce is viable.
pub fn find_withdraw_authority_program_address(program_id: &Address, stake_pool: &Address) -> (r:
    Option<(Address, u8)>)
    ensures
        r matches Some(p) ==> try_find_pda(withdraw_authority_seeds(stake_pool@), program_id@)
            == Some((p.0@, p.1)),
        r is None ==> try_find_pda(withdraw_authority_seeds(stake_pool@), program_id@) is None,
{
    let mut tag: Vec<u8> = Vec::new();
    let mut i: usize = 0;
    while i < 8
        invariant
            i <= 8,
            tag@ =~= STAKE_POOL_WITHDRAW_SEED@.subrange(0, i as int),
        decreases 8 - i,
    {
        tag.push(STAKE_POOL_WITHDRAW_SEED[i]);
        i = i + 1;
    }
    assert(tag@ =~= STAKE_POOL_WITHDRAW_SEED@);
    let mut seeds: Vec<Vec<u8>> = Vec::new();
    seeds.push(address_to_vec(stake_pool));
    seeds.push(tag);
    proof {
        assert(seeds.deep_view() =~~= withdraw_authority_seeds(stake_pool@));
    }
    try_find_program_address_raw(&seeds, program_id)
}

/// Derive a validator's pool stake account address for its vote account
/// under the external stake-pool program. Returns nothing in the
/// statistically improbable event that no bump nonce is viable.
pub fn find_stake_program_address(
    program_id: &Address,
    vote_account_address: &Address,
    stake_pool_address: &Address,
    seed: Option<u32>,
) -> (r: Option<(Address, u8)>)
    ensures
        r matches Some(p) ==> try_find_pda(
            validator_stake_seeds(vote_account_address@, stake_pool_address@, seed),
            program_id@,
        ) == Some((p.0@, p.1)),
        r is None ==> try_find_pda(
            validator_stake_seeds(vote_account_address@, stake_pool_address@, seed),
            program_id@,
        ) is None,
{
    let mut seeds: Vec<Vec<u8>> = Vec::new();
    seeds.push(address_to_vec(vote_account_address));
    seeds.push(address_to_vec(stake_pool_address));
    match seed {
        Option::None => {
            let empty: Vec<u8> = Vec::new();
            seeds.push(empty);
        },
        Option::Some(s) => {
            seeds.push(vstd::bytes::u32_to_le_bytes(s));
        },
    }
    proof {
        assert(seeds.deep_view() =~~= validator_stake_seeds(
            vote_account_address@,
            stake_pool_address@,
            seed,
        ));
    }
    try_find_program_address_raw(&seeds, program_id)
}

} // verus!
