//! Plain 32-byte account addresses and the well-known program ids the
//! instruction builders refer to.

use vstd::prelude::*;

verus! {

/// A 32-byte account address, held as plain bytes so that contracts can
/// speak about it directly.
pub type Address = [u8; 32];

/// Number of bytes in an [`Address`].
pub const ADDRESS_LEN: usize = 32;

/// The system program's id (the all-zero address).
pub const SYSTEM_PROGRAM_ID: Address = [
    0, 0, 0, 0, 0, 0, 0, 0, 0, 0, 0, 0, 0, 0, 0, 0, 0, 0, 0, 0, 0, 0, 0, 0, 0, 0, 0, 0, 0, 0, 0,
    0,
];

/// The token program's id.
pub const TOKEN_PROGRAM_ID: Address = [
    6, 221, 246, 225, 215, 101, 161, 147, 217, 203, 225, 70, 206, 235, 121, 172, 28, 180, 133,
    237, 95, 91, 55, 145, 58, 140, 245, 133, 126, 255, 0, 169,
];

/// The associated-token-account program's id.
pub const ASSOCIATED_TOKEN_PROGRAM_ID: Address = [
    140, 151, 37, 143, 78, 36, 137, 241, 187, 61, 16, 41, 20, 142, 13, 131, 11, 90, 19, 153, 218,
    255, 16, 132, 4, 142, 123, 216, 219, 233, 248, 89,
];

/// The stake program's id.
pub const STAKE_PROGRAM_ID: Address = [
    6, 161, 216, 23, 145, 55, 84, 42, 152, 52, 55, 189, 254, 42, 122, 178, 85, 127, 83, 92, 138,
    120, 114, 43, 104, 164, 157, 192, 0, 0, 0, 0,
];

/// The clock sysvar's id.
pub const CLOCK_SYSVAR_ID: Address = [
    6, 167, 213, 23, 24, 199, 116, 201, 40, 86, 99, 152, 105, 29, 94, 182, 139, 94, 184, 163, 155,
    75, 109, 92, 115, 85, 91, 33, 0, 0, 0, 0,
];

/// The stake-history sysvar's id.
pub const STAKE_HISTORY_SYSVAR_ID: Address = [
    6, 167, 213, 23, 25, 53, 132, 208, 254, 237, 155, 179, 67, 29, 19, 32, 107, 229, 68, 40, 27,
    87, 184, 86, 108, 197, 55, 95, 244, 0, 0, 0,
];

/// True when two addresses hold the same bytes.
pub fn address_eq(a: &Address, b: &Address) -> (r: bool)
    ensures
        r <==> a@ =~= b@,
{
    let mut i: usize = 0;
    while i < 32
        invariant
            i <= 32,
            forall|j: int| 0 <= j < i ==> a@[j] == b@[j],
        decreases 32 - i,
    {
        if a[i] != b[i] {
            return false;
        }
        i = i + 1;
    }
    true
}

/// Copy an address into an owned byte vector.
pub fn address_to_vec(a: &Address) -> (r: Vec<u8>)
    ensures
        r@ =~= a@,
{
    let mut v: Vec<u8> = Vec::new();
    let mut i: usize = 0;
    while i < 32
        invariant
            i <= 32,
            v@ =~= a@.subrange(0, i as int),
        decreases 32 - i,
    {
        v.push(a[i]);
        i = i + 1;
    }
    v
}

} // verus!
