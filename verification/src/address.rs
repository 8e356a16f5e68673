//! External addresses, internal account identifiers and the mapping from the
//! first to the second.

use sp_core::{Hasher, H160};
use sp_runtime::traits::BlakeTwo256;
use sp_runtime::AccountId32;
use vstd::prelude::*;

verus! {

/// `sp_core::H160`, a 160-bit external address. Verified code only carries
/// values of it; what one holds is named by [`address_bytes`].
#[verifier::external_type_specification]
#[verifier::external_body]
pub struct ExH160(H160);

/// `sp_runtime::AccountId32`, a 256-bit internal account identifier. What one
/// holds is named by [`account_bytes`].
#[verifier::external_type_specification]
#[verifier::external_body]
pub struct ExAccountId32(AccountId32);

/// The 20 bytes that an address holds, most significant first.
pub uninterp spec fn address_bytes(address: H160) -> Seq<u8>;

/// Whether all 20 bytes of the address are 0.
pub open spec fn is_zero_address(address: H160) -> bool {
    address_bytes(address) == Seq::new(20, |i: int| 0u8)
}

/// The 32 bytes that an account identifier holds.
pub uninterp spec fn account_bytes(account: AccountId32) -> Seq<u8>;

/// The BLAKE2b digest of `data` with a 256-bit output.
pub uninterp spec fn blake2_256(data: Seq<u8>) -> Seq<u8>;

/// `H160::to_fixed_bytes`: hands out the 20 bytes of the address, which is
/// all that the type holds.
#[verifier::external_body]
fn address_to_bytes(address: &H160) -> (bytes: [u8; 20])
    ensures
        bytes@ == address_bytes(*address),
{
    address.to_fixed_bytes()
}

/// `H160::zero`: the address whose 20 bytes are all 0.
#[verifier::external_body]
pub(crate) fn zero_address() -> (address: H160)
    ensures
        is_zero_address(address),
{
    H160::zero()
}

/// `AccountId32::new`: wraps the 32 bytes without changing them.
#[verifier::external_body]
fn account_from_bytes(bytes: [u8; 32]) -> (account: AccountId32)
    ensures
        account_bytes(account) == bytes@,
{
    AccountId32::new(bytes)
}

/// `Hasher::hash` of `sp_runtime::traits::BlakeTwo256`: a pure function of
/// the input bytes that returns 32 bytes.
#[verifier::external_body]
fn hash_blake2_256(data: &[u8; 24]) -> (digest: [u8; 32])
    ensures
        digest@ == blake2_256(data@),
{
    <BlakeTwo256 as Hasher>::hash(data).to_fixed_bytes()
}

/// The buffer that is hashed for an address of 20 bytes: the four bytes
/// `evm:` followed by the bytes of the address.
pub open spec fn spec_account_preimage(address: Seq<u8>) -> Seq<u8> {
    seq![0x65u8, 0x76u8, 0x6du8, 0x3au8] + address
}

/// Builds the 24-byte buffer that is hashed for `address`.
pub fn account_preimage(address: H160) -> (data: [u8; 24])
    ensures
        data@ == spec_account_preimage(address_bytes(address)),
{
    let raw = address_to_bytes(&address);
    let mut data = [0u8; 24];
    data[0] = 0x65;
    data[1] = 0x76;
    data[2] = 0x6d;
    data[3] = 0x3a;
    let mut i: usize = 0;
    while i < 20
        invariant
            i <= 20,
            data@.len() == 24,
            raw@.len() == 20,
            data@.subrange(0, 4) == seq![0x65u8, 0x76u8, 0x6du8, 0x3au8],
            forall|k: int| 0 <= k < i ==> data@[4 + k] == raw@[k],
        decreases 20 - i,
    {
        data[4 + i] = raw[i];
        i += 1;
    }
    data
}

/// Maps an external address to the account that is credited for it.
pub trait AccountMapping<A> {
    fn into_account_id(address: H160) -> A;
}

/// Address mapping by hashing: the account identifier is the BLAKE2b-256
/// digest of the buffer that [`account_preimage`] builds.
pub struct HashedAddressMapping;

impl AccountMapping<AccountId32> for HashedAddressMapping {
    fn into_account_id(address: H160) -> (account: AccountId32)
        ensures
            account_bytes(account) == blake2_256(spec_account_preimage(address_bytes(address))),
    {
        let data = account_preimage(address);
        account_from_bytes(hash_blake2_256(&data))
    }
}

} // verus!
