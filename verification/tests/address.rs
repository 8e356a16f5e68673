use pallet_reward_manager::{
    AccountMapping, Contributor, ContributorInfo, EscrowType, HashedAddressMapping, Pallet,
};
use sp_core::{Hasher, H160};
use sp_runtime::traits::BlakeTwo256;
use sp_runtime::AccountId32;
use std::str::FromStr;

fn account(hex: &str) -> AccountId32 {
    let mut raw = [0u8; 32];
    for i in 0..32 {
        raw[i] = u8::from_str_radix(&hex[2 * i..2 * i + 2], 16).unwrap();
    }
    AccountId32::new(raw)
}

#[test]
fn account_is_the_digest_of_prefix_and_address() {
    let one = H160::from_str("0000000000000000000000000000000000000001").unwrap();
    assert_eq!(
        HashedAddressMapping::into_account_id(one),
        account("c16e18ed0b2d27d6fd0dc832a699af7d3adf762cd6d51d780abc460476ad1c58")
    );
    let collator = H160::from_str("6be02d1d3665660d22ff9624b7be0551ee1ac91b").unwrap();
    assert_eq!(
        HashedAddressMapping::into_account_id(collator),
        account("0d6d2fcaed2f2ccd5c1d5c86468490f2aafeec8b7cb14af512cdf8c7980183a3")
    );
    assert_eq!(
        HashedAddressMapping::into_account_id(H160::zero()),
        account("c2cdcf01af7163d2d99b2ec87954e4c1b735e9e9ea80f8775bf29dd9457eaca1")
    );
}

#[test]
fn account_agrees_with_hashing_the_buffer_by_hand() {
    let address = H160::from_str("00112233445566778899aabbccddeeff01234567").unwrap();
    let mut data = [0u8; 24];
    data[0..4].copy_from_slice(b"evm:");
    data[4..24].copy_from_slice(&address[..]);
    let hash = <BlakeTwo256 as Hasher>::hash(&data);
    assert_eq!(
        HashedAddressMapping::into_account_id(address),
        AccountId32::new(hash.to_fixed_bytes())
    );
}

#[test]
fn same_address_same_account() {
    let a = H160::from_str("0000000000000000000000000000000000000005").unwrap();
    let b = H160::from_str("0000000000000000000000000000000000000005").unwrap();
    let c = H160::from_str("0000000000000000000000000000000000000006").unwrap();
    assert_eq!(HashedAddressMapping::into_account_id(a), HashedAddressMapping::into_account_id(b));
    assert_ne!(HashedAddressMapping::into_account_id(a), HashedAddressMapping::into_account_id(c));
}

#[test]
fn escrow_slots_start_with_the_zero_address() {
    let pallet = Pallet::new(1);
    assert_eq!(pallet.escrow_account(EscrowType::Dao), H160::zero());
    assert_eq!(pallet.escrow_account(EscrowType::Eco), H160::zero());
    assert_eq!(pallet.escrow_account(EscrowType::Dapp), H160::zero());
    assert_eq!(pallet.escrow_account(EscrowType::Eoa), H160::zero());
}

#[test]
fn default_entries_hold_the_zero_address() {
    assert_eq!(Contributor::default(), Contributor { eth_address: H160::zero(), perthousand: 0 });
    assert_eq!(
        ContributorInfo::default(),
        ContributorInfo { eth_address: H160::zero(), perthousand: 0, pay_per_block: 0 }
    );
}
