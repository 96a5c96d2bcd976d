//! The two persistent record types and their fixed-layout codec.
//!
//! Each record is stored verbatim as the leading bytes of its account:
//! addresses as raw 32-byte strings, numeric fields little-endian, in
//! declaration order. Decoding tolerates trailing bytes, as the account
//! buffer may be larger than the record.

use vstd::prelude::*;

use crate::address::Address;
use crate::error::ProcessError;
use vstd::bytes::{
    lemma_auto_spec_u32_to_from_le_bytes, lemma_auto_spec_u64_to_from_le_bytes,
    spec_u32_from_le_bytes, spec_u32_to_le_bytes, spec_u64_from_le_bytes, spec_u64_to_le_bytes,
    u32_from_le_bytes, u32_to_le_bytes, u64_from_le_bytes, u64_to_le_bytes,
};
use vstd::slice::slice_subrange;

verus! {

/// Encoded size of a [`StakePoolDepositStakeAuthority`] record.
pub const AUTHORITY_RECORD_LEN: usize = 205;

/// Encoded size of a [`DepositReceipt`] record.
pub const DEPOSIT_RECEIPT_LEN: usize = 157;

/// The delegated-signer configuration governing one stake pool's deposit
/// interception.
#[derive(Clone, Copy, Debug)]
pub struct StakePoolDepositStakeAuthority {
    /// The governed stake pool (immutable after creation).
    pub stake_pool: Address,
    /// The pool's reward-token mint (immutable).
    pub pool_mint: Address,
    /// Token account owned by this authority that custodies reward tokens
    /// pending fee settlement.
    pub vault: Address,
    /// The stake-pool program this authority delegates into (immutable).
    pub stake_pool_program_id: Address,
    /// The principal permitted to update the mutable fields.
    pub authority: Address,
    /// Destination for collected fees.
    pub fee_wallet: Address,
    /// Seconds over which the fee linearly decays to zero.
    pub cool_down_period: u64,
    /// Fee rate at the instant of a deposit; `u32::MAX` stands for 100%.
    pub inital_fee_rate: u32,
    /// Derivation nonce fixing this record's address.
    pub bump_seed: u8,
}

/// A per-deposit record snapshotting the fee terms and output amount at
/// deposit time.
#[derive(Clone, Copy, Debug)]
pub struct DepositReceipt {
    /// The depositor entitled to the fee-adjusted amount.
    pub owner: Address,
    /// Caller-chosen one-time identifier used only as a derivation seed.
    pub base: Address,
    /// The pool the deposit went into.
    pub stake_pool: Address,
    /// The authority record that governed the deposit.
    pub stake_pool_deposit_stake_authority: Address,
    /// Derivation nonce fixing this record's address.
    pub bump_seed: u8,
    /// Reward tokens produced by this deposit, snapshotted at deposit time.
    pub lst_amount: u64,
    /// Copied from the authority record at deposit time.
    pub cool_down_period: u64,
    /// Copied from the authority record at deposit time.
    pub initial_fee_rate: u32,
    /// Timestamp of the deposit.
    pub deposit_time: u64,
}

/// The 32-byte all-zero string, the content of an unwritten account.
pub open spec fn zero_address_seq() -> Seq<u8> {
    Seq::new(32, |i: int| 0u8)
}

/// The exact byte encoding of an authority record.
pub open spec fn spec_serialize_authority(r: StakePoolDepositStakeAuthority) -> Seq<u8> {
    r.stake_pool@ + r.pool_mint@ + r.vault@ + r.stake_pool_program_id@ + r.authority@
        + r.fee_wallet@ + spec_u64_to_le_bytes(r.cool_down_period) + spec_u32_to_le_bytes(
        r.inital_fee_rate,
    ) + seq![r.bump_seed]
}

/// The exact byte encoding of a deposit receipt.
pub open spec fn spec_serialize_receipt(r: DepositReceipt) -> Seq<u8> {
    r.owner@ + r.base@ + r.stake_pool@ + r.stake_pool_deposit_stake_authority@ + seq![
        r.bump_seed,
    ] + spec_u64_to_le_bytes(r.lst_amount) + spec_u64_to_le_bytes(r.cool_down_period)
        + spec_u32_to_le_bytes(r.initial_fee_rate) + spec_u64_to_le_bytes(r.deposit_time)
}

/// Copy 32 bytes out of `data` starting at `off`.
pub(crate) fn read_address(data: &Vec<u8>, off: usize) -> (a: Address)
    requires
        off + 32 <= data@.len(),
    ensures
        a@ == data@.subrange(off as int, off as int + 32),
{
    let mut a: Address = [
        0, 0, 0, 0, 0, 0, 0, 0, 0, 0, 0, 0, 0, 0, 0, 0, 0, 0, 0, 0, 0, 0, 0, 0, 0, 0, 0, 0, 0, 0,
        0, 0,
    ];
    let n: usize = data.len();
    let mut i: usize = 0;
    while i < 32
        invariant
            i <= 32,
            n == data@.len(),
            off + 32 <= n,
            forall|j: int| 0 <= j < i ==> a@[j] == data@[off + j],
        decreases 32 - i,
    {
        a[i] = data[off + i];
        i = i + 1;
    }
    assert(a@ =~= data@.subrange(off as int, off as int + 32));
    a
}

/// Read a little-endian `u64` out of `data` starting at `off`.
pub(crate) fn read_u64_le(data: &Vec<u8>, off: usize) -> (x: u64)
    requires
        off + 8 <= data@.len(),
    ensures
        x == spec_u64_from_le_bytes(data@.subrange(off as int, off as int + 8)),
{
    let n: usize = data.len();
    let s = slice_subrange(data.as_slice(), off, off + 8);
    u64_from_le_bytes(s)
}

/// Read a little-endian `u32` out of `data` starting at `off`.
pub(crate) fn read_u32_le(data: &Vec<u8>, off: usize) -> (x: u32)
    requires
        off + 4 <= data@.len(),
    ensures
        x == spec_u32_from_le_bytes(data@.subrange(off as int, off as int + 4)),
{
    let n: usize = data.len();
    let s = slice_subrange(data.as_slice(), off, off + 4);
    u32_from_le_bytes(s)
}

/// Append a copy of an address to `out`.
pub(crate) fn push_address(out: &mut Vec<u8>, a: &Address)
    ensures
        final(out)@ == old(out)@ + a@,
{
    let mut v = crate::address::address_to_vec(a);
    out.append(&mut v);
}

impl StakePoolDepositStakeAuthority {
    /// Whether the record's account has been written: an unwritten account
    /// holds only zeroes, and no valid record stores the all-zero address
    /// as its stake pool.
    pub open spec fn is_initialized_spec(self) -> bool {
        self.stake_pool@ != zero_address_seq()
    }

    /// True when this record holds validly-initialized data.
    pub fn is_initialized(&self) -> (r: bool)
        ensures
            r == self.is_initialized_spec(),
    {
        let mut i: usize = 0;
        while i < 32
            invariant
                i <= 32,
                forall|j: int| 0 <= j < i ==> self.stake_pool@[j] == 0,
            decreases 32 - i,
        {
            if self.stake_pool[i] != 0 {
                assert(self.stake_pool@[i as int] != zero_address_seq()[i as int]);
                return true;
            }
            i = i + 1;
        }
        assert(self.stake_pool@ =~= zero_address_seq());
        false
    }

    /// Encode this record into its fixed byte layout.
    pub fn to_bytes(&self) -> (out: Vec<u8>)
        ensures
            out@ == spec_serialize_authority(*self),
            out@.len() == AUTHORITY_RECORD_LEN,
    {
        proof {
            lemma_auto_spec_u64_to_from_le_bytes();
            lemma_auto_spec_u32_to_from_le_bytes();
        }
        let mut out: Vec<u8> = Vec::new();
        push_address(&mut out, &self.stake_pool);
        push_address(&mut out, &self.pool_mint);
        push_address(&mut out, &self.vault);
        push_address(&mut out, &self.stake_pool_program_id);
        push_address(&mut out, &self.authority);
        push_address(&mut out, &self.fee_wallet);
        let mut cd = u64_to_le_bytes(self.cool_down_period);
        out.append(&mut cd);
        let mut rate = u32_to_le_bytes(self.inital_fee_rate);
        out.append(&mut rate);
        out.push(self.bump_seed);
        assert(out@ =~= spec_serialize_authority(*self));
        out
    }

    /// Decode a record from the leading bytes of an account buffer.
    /// Succeeds exactly when the buffer is long enough; trailing bytes are
    /// ignored.
    pub fn from_bytes(data: &Vec<u8>) -> (r: Result<Self, ProcessError>)
        ensures
            r is Ok <==> data@.len() >= AUTHORITY_RECORD_LEN,
            r matches Ok(rec) ==> spec_serialize_authority(rec) == data@.subrange(
                0,
                AUTHORITY_RECORD_LEN as int,
            ),
            r matches Err(e) ==> e == ProcessError::InvalidAccountData,
    {
        proof {
            lemma_auto_spec_u64_to_from_le_bytes();
            lemma_auto_spec_u32_to_from_le_bytes();
        }
        if data.len() < AUTHORITY_RECORD_LEN {
            return Err(ProcessError::InvalidAccountData);
        }
        let rec = StakePoolDepositStakeAuthority {
            stake_pool: read_address(data, 0),
            pool_mint: read_address(data, 32),
            vault: read_address(data, 64),
            stake_pool_program_id: read_address(data, 96),
            authority: read_address(data, 128),
            fee_wallet: read_address(data, 160),
            cool_down_period: read_u64_le(data, 192),
            inital_fee_rate: read_u32_le(data, 200),
            bump_seed: data[204],
        };
        assert(spec_serialize_authority(rec) =~= data@.subrange(0, AUTHORITY_RECORD_LEN as int));
        Ok(rec)
    }
}

impl DepositReceipt {
    /// Encode this receipt into its fixed byte layout.
    pub fn to_bytes(&self) -> (out: Vec<u8>)
        ensures
            out@ == spec_serialize_receipt(*self),
            out@.len() == DEPOSIT_RECEIPT_LEN,
    {
        proof {
            lemma_auto_spec_u64_to_from_le_bytes();
            lemma_auto_spec_u32_to_from_le_bytes();
        }
        let mut out: Vec<u8> = Vec::new();
        push_address(&mut out, &self.owner);
        push_address(&mut out, &self.base);
        push_address(&mut out, &self.stake_pool);
        push_address(&mut out, &self.stake_pool_deposit_stake_authority);
        out.push(self.bump_seed);
        let mut amount = u64_to_le_bytes(self.lst_amount);
        out.append(&mut amount);
        let mut cd = u64_to_le_bytes(self.cool_down_period);
        out.append(&mut cd);
        let mut rate = u32_to_le_bytes(self.initial_fee_rate);
        out.append(&mut rate);
        let mut time = u64_to_le_bytes(self.deposit_time);
        out.append(&mut time);
        assert(out@ =~= spec_serialize_receipt(*self));
        out
    }

    /// Decode a receipt from the leading bytes of an account buffer.
    /// Succeeds exactly when the buffer is long enough; trailing bytes are
    /// ignored.
    pub fn from_bytes(data: &Vec<u8>) -> (r: Result<Self, ProcessError>)
        ensures
            r is Ok <==> data@.len() >= DEPOSIT_RECEIPT_LEN,
            r matches Ok(rec) ==> spec_serialize_receipt(rec) == data@.subrange(
                0,
                DEPOSIT_RECEIPT_LEN as int,
            ),
            r matches Err(e) ==> e == ProcessError::InvalidAccountData,
    {
        proof {
            lemma_auto_spec_u64_to_from_le_bytes();
            lemma_auto_spec_u32_to_from_le_bytes();
        }
        if data.len() < DEPOSIT_RECEIPT_LEN {
            return Err(ProcessError::InvalidAccountData);
        }
        let rec = DepositReceipt {
            owner: read_address(data, 0),
            base: read_address(data, 32),
            stake_pool: read_address(data, 64),
            stake_pool_deposit_stake_authority: read_address(data, 96),
            bump_seed: data[128],
            lst_amount: read_u64_le(data, 129),
            cool_down_period: read_u64_le(data, 137),
            initial_fee_rate: read_u32_le(data, 145),
            deposit_time: read_u64_le(data, 149),
        };
        assert(spec_serialize_receipt(rec) =~= data@.subrange(0, DEPOSIT_RECEIPT_LEN as int));
        Ok(rec)
    }
}

/// Each field of an authority record stands at a fixed place in its
/// encoding; in particular equal encodings mean equal fields.
pub proof fn lemma_authority_encoding_fields(r: StakePoolDepositStakeAuthority)
    ensures
        spec_serialize_authority(r).len() == AUTHORITY_RECORD_LEN,
        spec_serialize_authority(r).subrange(0, 32) == r.stake_pool@,
        spec_serialize_authority(r).subrange(32, 64) == r.pool_mint@,
        spec_serialize_authority(r).subrange(64, 96) == r.vault@,
        spec_serialize_authority(r).subrange(96, 128) == r.stake_pool_program_id@,
        spec_serialize_authority(r).subrange(128, 160) == r.authority@,
        spec_serialize_authority(r).subrange(160, 192) == r.fee_wallet@,
        spec_u64_from_le_bytes(spec_serialize_authority(r).subrange(192, 200))
            == r.cool_down_period,
        spec_u32_from_le_bytes(spec_serialize_authority(r).subrange(200, 204))
            == r.inital_fee_rate,
        spec_serialize_authority(r)[204] == r.bump_seed,
{
    lemma_auto_spec_u64_to_from_le_bytes();
    lemma_auto_spec_u32_to_from_le_bytes();
    let s = spec_serialize_authority(r);
    assert(s.subrange(0, 32) =~= r.stake_pool@);
    assert(s.subrange(32, 64) =~= r.pool_mint@);
    assert(s.subrange(64, 96) =~= r.vault@);
    assert(s.subrange(96, 128) =~= r.stake_pool_program_id@);
    assert(s.subrange(128, 160) =~= r.authority@);
    assert(s.subrange(160, 192) =~= r.fee_wallet@);
    assert(s.subrange(192, 200) =~= spec_u64_to_le_bytes(r.cool_down_period));
    assert(s.subrange(200, 204) =~= spec_u32_to_le_bytes(r.inital_fee_rate));
}

/// Whether an account's bytes would decode to an initialized authority
/// record: its stored stake pool is not the all-zero address.
pub open spec fn authority_bytes_initialized(data: Seq<u8>) -> bool {
    data.subrange(0, 32) != zero_address_seq()
}

impl DepositReceipt {
    /// Build the receipt for a completed deposit. The fee terms are
    /// copied out of the governing authority record at deposit time, so
    /// later updates to the record cannot reach this receipt.
    pub fn new(
        owner: &Address,
        base: &Address,
        stake_pool_deposit_stake_authority: &Address,
        record: &StakePoolDepositStakeAuthority,
        bump_seed: u8,
        lst_amount: u64,
        deposit_time: u64,
    ) -> (r: DepositReceipt)
        ensures
            r == (DepositReceipt {
                owner: *owner,
                base: *base,
                stake_pool: record.stake_pool,
                stake_pool_deposit_stake_authority: *stake_pool_deposit_stake_authority,
                bump_seed,
                lst_amount,
                cool_down_period: record.cool_down_period,
                initial_fee_rate: record.inital_fee_rate,
                deposit_time,
            }),
    {
        DepositReceipt {
            owner: *owner,
            base: *base,
            stake_pool: record.stake_pool,
            stake_pool_deposit_stake_authority: *stake_pool_deposit_stake_authority,
            bump_seed,
            lst_amount,
            cool_down_period: record.cool_down_period,
            initial_fee_rate: record.inital_fee_rate,
            deposit_time,
        }
    }
}

} // verus!
