//! Derivation of the stored models from their configurations and the initial
//! supply, so that the per-block engine never divides a percentage again.

use crate::parameter::{AutionRewardConfig, ModelConfig, NonFixedPayoutConfig};
use crate::quota::{
    lemma_pay_per_block_floor, lemma_quota_bounded, pay_per_block, quota, spec_pay_per_block,
    spec_quota,
};
use crate::storage::{
    AutionRewardModel, FixedPayoutModel, InflationRateModel, Model, NonFixedPayoutModel,
};
use vstd::prelude::*;

verus! {

/// The share of the initial supply that the auction reward distributes in all.
pub open spec fn spec_aution_total(config: AutionRewardConfig, initial_supply: u128) -> u128 {
    spec_quota(config.percentage, initial_supply) as u128
}

/// The auction reward model of a configuration: the lump payout is a quota of
/// the stream's total, and the rest of the total is split over the range.
pub open spec fn spec_aution_reward_model(
    config: AutionRewardConfig,
    initial_supply: u128,
) -> AutionRewardModel {
    let total = spec_aution_total(config, initial_supply);
    let pay_once = spec_quota(config.pay_once.percentage, total) as u128;
    AutionRewardModel {
        pay_once,
        pay_per_block: spec_pay_per_block(config.range, (total - pay_once) as u128) as u128,
        config,
    }
}

/// The model of a trust that is paid a percentage of the initial supply, split
/// over its range.
pub open spec fn spec_non_fixed_payout_model(
    config: NonFixedPayoutConfig,
    initial_supply: u128,
) -> NonFixedPayoutModel {
    NonFixedPayoutModel {
        pay_per_block: spec_pay_per_block(
            config.range,
            spec_quota(config.percentage, initial_supply) as u128,
        ) as u128,
        config,
    }
}

impl Model {
    /// The model with the slot of `config`'s stream derived anew from `config`
    /// and every other slot as it was.
    pub open spec fn with_config(self, config: ModelConfig, initial_supply: u128) -> Model {
        match config {
            ModelConfig::AutionRewardConfig(c) => Model {
                aution_reward: spec_aution_reward_model(c, initial_supply),
                ..self
            },
            ModelConfig::CollatorRewardConfig(c) => Model {
                collator_reward: FixedPayoutModel { config: c },
                ..self
            },
            ModelConfig::DaoTrustConfig(c) => Model {
                dao_trust: spec_non_fixed_payout_model(c, initial_supply),
                ..self
            },
            ModelConfig::EcoTrustConfig(c) => Model {
                eco_trust: spec_non_fixed_payout_model(c, initial_supply),
                ..self
            },
            ModelConfig::DappTrustConfig(c) => Model {
                dapp_trust: FixedPayoutModel { config: c },
                ..self
            },
            ModelConfig::InflationRateConfig(c) => Model {
                inflation_rate: InflationRateModel { config: c },
                ..self
            },
        }
    }

    /// Every precomputed amount is the one that its configuration gives for
    /// `initial_supply`: none was edited by hand.
    pub open spec fn derived(self, initial_supply: u128) -> bool {
        &&& self.aution_reward == spec_aution_reward_model(
            self.aution_reward.config,
            initial_supply,
        )
        &&& self.dao_trust == spec_non_fixed_payout_model(self.dao_trust.config, initial_supply)
        &&& self.eco_trust == spec_non_fixed_payout_model(self.eco_trust.config, initial_supply)
    }
}

/// Derives the auction reward model of `config`.
pub fn aution_reward_model(config: AutionRewardConfig, initial_supply: u128) -> (model:
    AutionRewardModel)
    ensures
        model == spec_aution_reward_model(config, initial_supply),
{
    let total = quota(config.percentage, initial_supply);
    let pay_once = quota(config.pay_once.percentage, total);
    AutionRewardModel {
        pay_once,
        pay_per_block: pay_per_block(&config.range, total - pay_once),
        config,
    }
}

/// Derives the model of a trust that is paid a percentage of the initial
/// supply.
pub fn non_fixed_payout_model(config: NonFixedPayoutConfig, initial_supply: u128) -> (model:
    NonFixedPayoutModel)
    ensures
        model == spec_non_fixed_payout_model(config, initial_supply),
{
    NonFixedPayoutModel {
        pay_per_block: pay_per_block(&config.range, quota(config.percentage, initial_supply)),
        config,
    }
}

impl Model {
    /// Derives the slot of `config`'s stream anew and leaves the others.
    pub fn update(&mut self, config: ModelConfig, initial_supply: u128)
        ensures
            *final(self) == old(self).with_config(config, initial_supply),
    {
        match config {
            ModelConfig::AutionRewardConfig(c) => {
                self.aution_reward = aution_reward_model(c, initial_supply);
            },
            ModelConfig::CollatorRewardConfig(c) => {
                self.collator_reward = FixedPayoutModel { config: c };
            },
            ModelConfig::DaoTrustConfig(c) => {
                self.dao_trust = non_fixed_payout_model(c, initial_supply);
            },
            ModelConfig::EcoTrustConfig(c) => {
                self.eco_trust = non_fixed_payout_model(c, initial_supply);
            },
            ModelConfig::DappTrustConfig(c) => {
                self.dapp_trust = FixedPayoutModel { config: c };
            },
            ModelConfig::InflationRateConfig(c) => {
                self.inflation_rate = InflationRateModel { config: c };
            },
        }
    }
}

/// The all-zero model is derived, whatever the initial supply.
pub proof fn lemma_zero_model_derived(initial_supply: u128)
    ensures
        Model::zero().derived(initial_supply),
{
    lemma_quota_bounded(0, initial_supply);
    lemma_quota_bounded(0, 0);
}

/// Replacing one stream's configuration keeps a derived model derived.
pub proof fn lemma_with_config_derived(model: Model, config: ModelConfig, initial_supply: u128)
    requires
        model.derived(initial_supply),
    ensures
        model.with_config(config, initial_supply).derived(initial_supply),
{
}

/// The lump payout and the per-block payouts of the auction reward together
/// never exceed the stream's share of the initial supply.
pub proof fn lemma_aution_reward_within_total(config: AutionRewardConfig, initial_supply: u128)
    ensures
        ({
            let model = spec_aution_reward_model(config, initial_supply);
            model.pay_once + model.pay_per_block * config.range.span() <= spec_aution_total(
                config,
                initial_supply,
            ) <= initial_supply
        }),
{
    let total = spec_aution_total(config, initial_supply);
    lemma_quota_bounded(config.percentage, initial_supply);
    lemma_quota_bounded(config.pay_once.percentage, total);
    let pay_once = spec_quota(config.pay_once.percentage, total) as u128;
    let rest = (total - pay_once) as u128;
    if config.range.end > config.range.start {
        lemma_pay_per_block_floor(config.range, rest);
    }
}

} // verus!
