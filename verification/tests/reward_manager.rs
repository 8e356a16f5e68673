use pallet_reward_manager::{
    AccountMapping, AutionRewardConfig, Contributor, ContributorInfo, DispatchError, Error,
    EscrowAccountSetter, EscrowType, Event, FixedPayoutConfig, HashedAddressMapping, Model,
    ModelConfig, ModelWithStatus, NonFixedPayoutConfig, Origin, Pallet, PayOnce, Range, Status,
};
use sp_core::H160;
use sp_runtime::AccountId32;
use std::collections::HashMap;
use std::str::FromStr;

const BLOCK_NUMBER_PER_AUTION_PERIOD: u32 = 96 * 7 * 24 * 60 * 60 / 12; // 4838400
const NOT_ROOT_ACCOUNT: [u8; 32] = [1u8; 32];
const DELAY: u32 = 100;

/// GEM, the native token, uses 18 decimals of precision.
const GEM: u128 = 1_000_000_000_000_000_000;
const INITIAL_SUPPLY: u128 = 210_000_000 * GEM;

const REGISTERED_COLLATOR_ACCOUNT: [u8; 32] = [0u8; 32];
const REGISTERED_COLLATOR_ETH_ADDRESS: &str = "6be02d1d3665660d22ff9624b7be0551ee1ac91b";

/// A chain in memory: the reward manager, the ledger that carries out its
/// payouts, and the block counter.
struct TestExt {
    reward_manager: Pallet,
    balances: HashMap<AccountId32, u128>,
    total_issuance: u128,
    block_number: u64,
}

fn new_test_ext() -> TestExt {
    TestExt {
        reward_manager: Pallet::new(INITIAL_SUPPLY),
        balances: HashMap::new(),
        total_issuance: 0,
        block_number: 0,
    }
}

fn signed() -> Origin {
    Origin::Signed(AccountId32::new(NOT_ROOT_ACCOUNT))
}

/// Only the registered collator has an address.
fn eth_address(account: &AccountId32) -> Option<H160> {
    if *account == AccountId32::new(REGISTERED_COLLATOR_ACCOUNT) {
        return Some(H160::from_str(REGISTERED_COLLATOR_ETH_ADDRESS).unwrap());
    }
    None
}

fn into_balance_account(eth_address: H160) -> AccountId32 {
    HashedAddressMapping::into_account_id(eth_address)
}

impl TestExt {
    fn set_block_number(&mut self, n: u64) {
        self.block_number = n;
    }

    /// Every block is authored by the account of 32 zero bytes.
    fn on_initialize(&mut self, n: u64) {
        let author = AccountId32::new([0u8; 32]);
        let block_number: u32 = u32::try_from(n).unwrap_or(u32::MAX);
        for payout in self.reward_manager.note_author(block_number, eth_address(&author)) {
            self.total_issuance += payout.amount;
            *self.balances.entry(into_balance_account(payout.eth_address)).or_insert(0) +=
                payout.amount;
        }
    }

    fn initialize_to_block(&mut self, n: u64) {
        for i in self.block_number + 1..=n {
            self.set_block_number(i);
            self.on_initialize(i);
        }
    }

    fn free_balance(&self, account: &AccountId32) -> u128 {
        self.balances.get(account).copied().unwrap_or(0)
    }

    fn snapshot(&self) -> (Model, ModelWithStatus, Vec<ContributorInfo>, [H160; 4]) {
        (
            self.reward_manager.current_setting(),
            self.reward_manager.candidate_setting(),
            self.reward_manager.contributors(),
            [
                self.reward_manager.escrow_account(EscrowType::Dao),
                self.reward_manager.escrow_account(EscrowType::Eco),
                self.reward_manager.escrow_account(EscrowType::Dapp),
                self.reward_manager.escrow_account(EscrowType::Eoa),
            ],
        )
    }
}

#[test]
fn ensure_root() {
    let mut ext = new_test_ext();
    let config = AutionRewardConfig {
        percentage: 15,
        range: Range { start: 0, end: BLOCK_NUMBER_PER_AUTION_PERIOD },
        pay_once: PayOnce { percentage: 20, at: 10 },
    };
    let before = ext.snapshot();

    // update_candidate
    assert_eq!(
        ext.reward_manager.update_candidate(signed(), ModelConfig::AutionRewardConfig(config)),
        Err(DispatchError::BadOrigin)
    );
    assert_eq!(before, ext.snapshot());

    // apply_model
    assert_eq!(ext.reward_manager.apply_model(signed()), Err(DispatchError::BadOrigin));
    assert_eq!(before, ext.snapshot());

    // rollback_model
    assert_eq!(ext.reward_manager.rollback_model(signed()), Err(DispatchError::BadOrigin));
    assert_eq!(before, ext.snapshot());

    let address: H160 = H160::from_str("0000000000000000000000000000000000001234").unwrap();

    // set escrow account
    assert_eq!(
        ext.reward_manager.set_escrow_account(signed(), EscrowAccountSetter::Dao(address)),
        Err(DispatchError::BadOrigin)
    );
    assert_eq!(before, ext.snapshot());

    // set contributor
    assert_eq!(
        ext.reward_manager.set_contributors(signed(), vec![]),
        Err(DispatchError::BadOrigin)
    );
    assert_eq!(before, ext.snapshot());
}

#[test]
fn update_candidate_aution_reward_model() {
    let mut ext = new_test_ext();
    let config = AutionRewardConfig {
        percentage: 15,
        range: Range { start: 0, end: BLOCK_NUMBER_PER_AUTION_PERIOD },
        pay_once: PayOnce { percentage: 20, at: 10 },
    };
    assert_eq!(
        ext.reward_manager.update_candidate(Origin::Root, ModelConfig::AutionRewardConfig(config)),
        Ok(Event::UpdateCandidateModelSetting(ModelConfig::AutionRewardConfig(config)))
    );
    assert_eq!(config, ext.reward_manager.candidate_setting().model.aution_reward.config);
    assert_eq!(Status::Draft, ext.reward_manager.candidate_setting().status);

    // 210000000 GEM * 15% = 31500000
    // 31500000 * 20% = 6300000 GEM =  (6300000000000000000000000 Wei)
    assert_eq!(
        6300000000000000000000000u128,
        ext.reward_manager.candidate_setting().model.aution_reward.pay_once
    );

    // 31500000 * 80% / BLOCK_NUMBER_PER_AUTION_PERIOD = 5208333333333333333
    assert_eq!(
        5208333333333333333u128,
        ext.reward_manager.candidate_setting().model.aution_reward.pay_per_block
    );
}

#[test]
fn update_candidate_collator_reward_model() {
    let mut ext = new_test_ext();
    let config = FixedPayoutConfig {
        pay_per_block: 1 * GEM,
        range: Range { start: 0, end: BLOCK_NUMBER_PER_AUTION_PERIOD },
    };
    assert!(ext
        .reward_manager
        .update_candidate(Origin::Root, ModelConfig::CollatorRewardConfig(config))
        .is_ok());
    assert_eq!(config, ext.reward_manager.candidate_setting().model.collator_reward.config);
    assert_eq!(Status::Draft, ext.reward_manager.candidate_setting().status);
}

#[test]
fn update_candidate_dao_trust_model() {
    let mut ext = new_test_ext();
    let config = NonFixedPayoutConfig {
        percentage: 20,
        range: Range { start: 0, end: BLOCK_NUMBER_PER_AUTION_PERIOD * 2 },
    };
    assert!(ext
        .reward_manager
        .update_candidate(Origin::Root, ModelConfig::DaoTrustConfig(config))
        .is_ok());
    assert_eq!(config, ext.reward_manager.candidate_setting().model.dao_trust.config);
    assert_eq!(Status::Draft, ext.reward_manager.candidate_setting().status);

    // 210000000 GEM * 20% / (BLOCK_NUMBER_PER_AUTION_PERIOD*2) = 4340277777777777777
    assert_eq!(
        4340277777777777777u128,
        ext.reward_manager.candidate_setting().model.dao_trust.pay_per_block
    );
}

#[test]
fn update_candidate_eco_trust_model() {
    let mut ext = new_test_ext();
    let config = NonFixedPayoutConfig {
        percentage: 15,
        range: Range { start: 0, end: BLOCK_NUMBER_PER_AUTION_PERIOD * 2 },
    };
    assert!(ext
        .reward_manager
        .update_candidate(Origin::Root, ModelConfig::EcoTrustConfig(config))
        .is_ok());
    assert_eq!(config, ext.reward_manager.candidate_setting().model.eco_trust.config);
    assert_eq!(Status::Draft, ext.reward_manager.candidate_setting().status);

    // 210000000 GEM * 15% / (BLOCK_NUMBER_PER_AUTION_PERIOD*2) = 3255208333333333333
    assert_eq!(
        3255208333333333333u128,
        ext.reward_manager.candidate_setting().model.eco_trust.pay_per_block
    );
}

#[test]
fn update_candidate_dapp_trust_model() {
    let mut ext = new_test_ext();
    let config = FixedPayoutConfig {
        pay_per_block: 6 * GEM,
        range: Range { start: 0, end: BLOCK_NUMBER_PER_AUTION_PERIOD },
    };
    assert!(ext
        .reward_manager
        .update_candidate(Origin::Root, ModelConfig::DappTrustConfig(config))
        .is_ok());
    assert_eq!(config, ext.reward_manager.candidate_setting().model.dapp_trust.config);
    assert_eq!(Status::Draft, ext.reward_manager.candidate_setting().status);
}

#[test]
fn update_candidate_inflation_rate_model() {
    let mut ext = new_test_ext();
    let config = NonFixedPayoutConfig {
        percentage: 2,
        range: Range { start: 0, end: BLOCK_NUMBER_PER_AUTION_PERIOD },
    };
    assert!(ext
        .reward_manager
        .update_candidate(Origin::Root, ModelConfig::InflationRateConfig(config))
        .is_ok());
    assert_eq!(config, ext.reward_manager.candidate_setting().model.inflation_rate.config);
    assert_eq!(Status::Draft, ext.reward_manager.candidate_setting().status);
}

fn init_draft(ext: &mut TestExt) {
    let config = AutionRewardConfig {
        percentage: 15,
        range: Range { start: 0 + DELAY, end: BLOCK_NUMBER_PER_AUTION_PERIOD + DELAY },
        pay_once: PayOnce { percentage: 20, at: 10 },
    };
    ext.reward_manager
        .update_candidate(Origin::Root, ModelConfig::AutionRewardConfig(config))
        .ok();
    let config = FixedPayoutConfig {
        pay_per_block: 1 * GEM,
        range: Range { start: 0 + DELAY, end: BLOCK_NUMBER_PER_AUTION_PERIOD + DELAY },
    };
    ext.reward_manager
        .update_candidate(Origin::Root, ModelConfig::CollatorRewardConfig(config))
        .ok();
    let config = NonFixedPayoutConfig {
        percentage: 20,
        range: Range { start: 0 + DELAY, end: BLOCK_NUMBER_PER_AUTION_PERIOD * 2 + DELAY },
    };
    ext.reward_manager.update_candidate(Origin::Root, ModelConfig::DaoTrustConfig(config)).ok();
    let config = NonFixedPayoutConfig {
        percentage: 15,
        range: Range { start: 0 + DELAY, end: BLOCK_NUMBER_PER_AUTION_PERIOD * 2 + DELAY },
    };
    ext.reward_manager.update_candidate(Origin::Root, ModelConfig::EcoTrustConfig(config)).ok();
    let config = FixedPayoutConfig {
        pay_per_block: 6 * GEM,
        range: Range { start: 0 + DELAY, end: BLOCK_NUMBER_PER_AUTION_PERIOD + DELAY },
    };
    ext.reward_manager.update_candidate(Origin::Root, ModelConfig::DappTrustConfig(config)).ok();
    let config = NonFixedPayoutConfig {
        percentage: 2,
        range: Range { start: 0, end: BLOCK_NUMBER_PER_AUTION_PERIOD * 2 + DELAY },
    };
    ext.reward_manager
        .update_candidate(Origin::Root, ModelConfig::InflationRateConfig(config))
        .ok();
}

#[test]
fn apply_and_rollback_model() {
    let mut ext = new_test_ext();
    init_draft(&mut ext);
    assert_eq!(Status::Draft, ext.reward_manager.candidate_setting().status);
    // we haven't take any snapshot before
    assert_eq!(
        ext.reward_manager.rollback_model(Origin::Root),
        Err(DispatchError::Module(Error::SnapshotContamination))
    );
    let orig_candicate_model = ext.reward_manager.candidate_setting().model;
    let orig_current_model = ext.reward_manager.current_setting();

    // apply candidate to current
    assert_eq!(ext.reward_manager.apply_model(Origin::Root), Ok(()));
    assert_eq!(orig_candicate_model, ext.reward_manager.current_setting());
    assert_eq!(orig_current_model, ext.reward_manager.candidate_setting().model);
    assert_eq!(Status::Snapshot, ext.reward_manager.candidate_setting().status);

    // rollback to the status before the apply
    assert_eq!(ext.reward_manager.rollback_model(Origin::Root), Ok(()));
    assert_eq!(orig_candicate_model, ext.reward_manager.candidate_setting().model);
    assert_eq!(orig_current_model, ext.reward_manager.current_setting());
    assert_eq!(Status::Draft, ext.reward_manager.candidate_setting().status);

    // test snapshot contamination
    ext.reward_manager.apply_model(Origin::Root).ok();
    let config = AutionRewardConfig {
        percentage: 10,
        range: Range { start: 0, end: BLOCK_NUMBER_PER_AUTION_PERIOD },
        pay_once: PayOnce { percentage: 20, at: 10 },
    };
    ext.reward_manager
        .update_candidate(Origin::Root, ModelConfig::AutionRewardConfig(config))
        .ok();
    assert_eq!(
        ext.reward_manager.rollback_model(Origin::Root),
        Err(DispatchError::Module(Error::SnapshotContamination))
    );
}

#[test]
fn set_escrow_account() {
    let mut ext = new_test_ext();
    let alice: H160 = H160::from_str("0000000000000000000000000000000000000001").unwrap();
    let bob: H160 = H160::from_str("0000000000000000000000000000000000000002").unwrap();
    let charlie: H160 = H160::from_str("0000000000000000000000000000000000000003").unwrap();
    let dave: H160 = H160::from_str("0000000000000000000000000000000000000004").unwrap();

    assert_eq!(
        ext.reward_manager.set_escrow_account(Origin::Root, EscrowAccountSetter::Dao(alice)),
        Ok(())
    );
    assert_eq!(
        ext.reward_manager.set_escrow_account(Origin::Root, EscrowAccountSetter::Eco(bob)),
        Ok(())
    );
    assert_eq!(
        ext.reward_manager.set_escrow_account(Origin::Root, EscrowAccountSetter::Dapp(charlie)),
        Ok(())
    );
    assert_eq!(
        ext.reward_manager.set_escrow_account(Origin::Root, EscrowAccountSetter::Eoa(dave)),
        Ok(())
    );
    assert_eq!(alice, ext.reward_manager.escrow_account(EscrowType::Dao));
    assert_eq!(bob, ext.reward_manager.escrow_account(EscrowType::Eco));
    assert_eq!(charlie, ext.reward_manager.escrow_account(EscrowType::Dapp));
    assert_eq!(dave, ext.reward_manager.escrow_account(EscrowType::Eoa));
}

#[test]
fn set_contributors() {
    let mut ext = new_test_ext();
    let config = AutionRewardConfig {
        percentage: 1,
        range: Range { start: 0, end: 10 },
        pay_once: PayOnce { percentage: 0, at: 0 },
    };
    ext.reward_manager
        .update_candidate(Origin::Root, ModelConfig::AutionRewardConfig(config))
        .ok();
    ext.reward_manager.apply_model(Origin::Root).ok();

    let alice: H160 = H160::from_str("0000000000000000000000000000000000000001").unwrap();
    let bob: H160 = H160::from_str("0000000000000000000000000000000000000002").unwrap();
    let charlie: H160 = H160::from_str("0000000000000000000000000000000000000003").unwrap();
    let dave: H160 = H160::from_str("0000000000000000000000000000000000000004").unwrap();

    let mut contributors: Vec<Contributor> = Vec::new();
    contributors.push(Contributor { eth_address: alice, perthousand: 1 });
    contributors.push(Contributor { eth_address: bob, perthousand: 10 });
    contributors.push(Contributor { eth_address: charlie, perthousand: 100 });
    contributors.push(Contributor { eth_address: dave, perthousand: 200 });
    assert!(ext.reward_manager.set_contributors(Origin::Root, contributors).is_ok());

    let contributor_infos = ext.reward_manager.contributors();

    assert_eq!(alice, contributor_infos[0].eth_address);
    assert_eq!(1, contributor_infos[0].perthousand);
    // 210000000 GEM * 1% = 2100000
    // 2100000 * 0.1% / 10 = 210 GEM =  (210000000000000000000 Wei)
    assert_eq!(210000000000000000000, contributor_infos[0].pay_per_block);

    assert_eq!(bob, contributor_infos[1].eth_address);
    assert_eq!(10, contributor_infos[1].perthousand);
    // 210000000 GEM * 1% = 2100000
    // 2100000 * 1% / 10 = 2100 GEM =  (2100000000000000000000 Wei)
    assert_eq!(2100000000000000000000, contributor_infos[1].pay_per_block);

    assert_eq!(charlie, contributor_infos[2].eth_address);
    assert_eq!(100, contributor_infos[2].perthousand);
    // 210000000 GEM * 1% = 2100000
    // 2100000 * 10% / 10 = 21000 GEM =  (21000000000000000000000 Wei)
    assert_eq!(21000000000000000000000, contributor_infos[2].pay_per_block);

    assert_eq!(dave, contributor_infos[3].eth_address);
    assert_eq!(200, contributor_infos[3].perthousand);
    // 210000000 GEM * 1% = 2100000
    // 2100000 * 20% / 10 = 42000 GEM =  (42000000000000000000000 Wei)
    assert_eq!(42000000000000000000000, contributor_infos[3].pay_per_block);
}

#[test]
fn run_tokenomics() {
    let mut ext = new_test_ext();
    // initial
    init_draft(&mut ext);
    ext.reward_manager.apply_model(Origin::Root).ok();

    let escrow_dao: H160 = H160::from_str("0000000000000000000000000000000000000001").unwrap();
    let escrow_eco: H160 = H160::from_str("0000000000000000000000000000000000000002").unwrap();
    let escrow_dapp: H160 = H160::from_str("0000000000000000000000000000000000000003").unwrap();
    let escrow_eoa: H160 = H160::from_str("0000000000000000000000000000000000000004").unwrap();
    ext.reward_manager.set_escrow_account(Origin::Root, EscrowAccountSetter::Dao(escrow_dao)).ok();
    ext.reward_manager.set_escrow_account(Origin::Root, EscrowAccountSetter::Eco(escrow_eco)).ok();
    ext.reward_manager
        .set_escrow_account(Origin::Root, EscrowAccountSetter::Dapp(escrow_dapp))
        .ok();
    ext.reward_manager.set_escrow_account(Origin::Root, EscrowAccountSetter::Eoa(escrow_eoa)).ok();

    let alice: H160 = H160::from_str("0000000000000000000000000000000000000005").unwrap();
    let bob: H160 = H160::from_str("0000000000000000000000000000000000000006").unwrap();
    let charlie: H160 = H160::from_str("0000000000000000000000000000000000000007").unwrap();
    let dave: H160 = H160::from_str("0000000000000000000000000000000000000008").unwrap();
    let mut contributors: Vec<Contributor> = Vec::new();
    contributors.push(Contributor { eth_address: alice, perthousand: 1 });
    contributors.push(Contributor { eth_address: bob, perthousand: 10 });
    contributors.push(Contributor { eth_address: charlie, perthousand: 100 });
    contributors.push(Contributor { eth_address: dave, perthousand: 200 });
    ext.reward_manager.set_contributors(Origin::Root, contributors).ok();

    // auction reward pay once at block number 10 in test
    ext.initialize_to_block(10);

    // 6300000000000000000000000 * 0.1% = 6300000000000000000000
    assert_eq!(ext.free_balance(&into_balance_account(alice)), 6300000000000000000000);
    // 6300000000000000000000000 * 1% = 63000000000000000000000
    assert_eq!(ext.free_balance(&into_balance_account(bob)), 63000000000000000000000);
    // 6300000000000000000000000 * 10% = 630000000000000000000000
    assert_eq!(ext.free_balance(&into_balance_account(charlie)), 630000000000000000000000);
    // 6300000000000000000000000 * 20% = 1260000000000000000000000
    assert_eq!(ext.free_balance(&into_balance_account(dave)), 1260000000000000000000000);
    // (6300000000000000000000 + 63000000000000000000000 + 630000000000000000000000 + 1260000000000000000000000) * 2% = 3.9186e+22
    let eoa = into_balance_account(escrow_eoa);
    assert_eq!(ext.free_balance(&eoa), 39186000000000000000000);

    // all per block rewards start at block number 100 (delay value) in test
    ext.initialize_to_block(100);

    // 5208333333333333333 * 0.1% = 5208333333333333
    assert_eq!(ext.free_balance(&into_balance_account(alice)), 6300005208333333333333);
    // 5208333333333333333 * 1% = 52083333333333333
    assert_eq!(ext.free_balance(&into_balance_account(bob)), 63000052083333333333333);
    // 5208333333333333333 * 10% = 520833333333333333
    assert_eq!(ext.free_balance(&into_balance_account(charlie)), 630000520833333333333333);
    // 5208333333333333333 * 20% = 1041666666666666666.6, of which the
    // fraction is dropped: 1041666666666666666
    assert_eq!(ext.free_balance(&into_balance_account(dave)), 1260001041666666666666666);

    // 1 GEM
    let collator = into_balance_account(H160::from_str(REGISTERED_COLLATOR_ETH_ADDRESS).unwrap());
    assert_eq!(ext.free_balance(&collator), 1 * GEM);

    // 210000000 GEM * 20% / (BLOCK_NUMBER_PER_AUTION_PERIOD*2) = 4340277777777777777
    let dao = into_balance_account(escrow_dao);
    assert_eq!(ext.free_balance(&dao), 4340277777777777777u128);

    // 210000000 GEM * 15% / (BLOCK_NUMBER_PER_AUTION_PERIOD*2) = 3255208333333333333
    let eco = into_balance_account(escrow_eco);
    assert_eq!(ext.free_balance(&eco), 3255208333333333333u128);

    // 6 GEM
    let dapp = into_balance_account(escrow_dapp);
    assert_eq!(ext.free_balance(&dapp), 6 * GEM);

    // block 10 gave 39186000000000000000000; block 100 issues
    // 5208333333333333 + 52083333333333333 + 520833333333333333 + 1041666666666666666 +
    // 1000000000000000000 + 4340277777777777777 + 3255208333333333333 + 6000000000000000000
    // = 16215277777777777775, of which 2% is 324305555555555555.5, fraction dropped
    let eoa = into_balance_account(escrow_eoa);
    assert_eq!(ext.free_balance(&eoa), 39186324305555555555555);

    // all per block rewards end before block number (BLOCK_NUMBER_PER_AUTION_PERIOD * 2 + DELAY) in test
    let final_reward_block: u64 = (BLOCK_NUMBER_PER_AUTION_PERIOD * 2 + DELAY - 1).into();
    ext.set_block_number(final_reward_block - 1);
    let before_final_total_issuance = ext.total_issuance;
    ext.initialize_to_block(final_reward_block);
    let final_total_issuance = ext.total_issuance;
    assert_ne!(final_total_issuance, before_final_total_issuance);
    ext.initialize_to_block(final_reward_block + 1);
    assert_eq!(ext.total_issuance, final_total_issuance);
}
