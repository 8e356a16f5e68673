//! Stored values: the derived model of each stream, the candidate slot with
//! its status, and the contributor entries with their per-block payout.

use crate::address::{is_zero_address, zero_address};
use crate::parameter::{AutionRewardConfig, FixedPayoutConfig, NonFixedPayoutConfig};
use sp_core::H160;
use vstd::prelude::*;

verus! {

/// Key of the escrow registry.
#[derive(Clone, Copy, Debug, PartialEq, Eq, Structural)]
pub enum EscrowType {
    /// Dao Escrow Account
    Dao,
    /// Eco Escrow Account
    Eco,
    /// Dapp Escrow Account
    Dapp,
    /// Inflation Escrow Account
    Eoa,
}

#[derive(Clone, Copy, Debug, PartialEq, Eq, Structural)]
pub struct AutionRewardModel {
    /// Pay for special block
    pub pay_once: u128,
    /// Pay per block
    pub pay_per_block: u128,
    /// Config
    pub config: AutionRewardConfig,
}

impl Default for AutionRewardModel {
    fn default() -> (r: Self)
        ensures
            r == (AutionRewardModel { pay_once: 0, pay_per_block: 0, config: AutionRewardConfig::zero() }),
    {
        AutionRewardModel { pay_once: 0, pay_per_block: 0, config: AutionRewardConfig::default() }
    }
}

#[derive(Clone, Copy, Debug, PartialEq, Eq, Structural)]
pub struct InflationRateModel {
    /// Config
    pub config: NonFixedPayoutConfig,
}

impl Default for InflationRateModel {
    fn default() -> (r: Self)
        ensures
            r == (InflationRateModel { config: NonFixedPayoutConfig::zero() }),
    {
        InflationRateModel { config: NonFixedPayoutConfig::default() }
    }
}

#[derive(Clone, Copy, Debug, PartialEq, Eq, Structural)]
pub struct FixedPayoutModel {
    /// Config
    pub config: FixedPayoutConfig,
}

impl Default for FixedPayoutModel {
    fn default() -> (r: Self)
        ensures
            r == (FixedPayoutModel { config: FixedPayoutConfig::zero() }),
    {
        FixedPayoutModel { config: FixedPayoutConfig::default() }
    }
}

#[derive(Clone, Copy, Debug, PartialEq, Eq, Structural)]
pub struct NonFixedPayoutModel {
    /// Pay per block
    pub pay_per_block: u128,
    /// Config
    pub config: NonFixedPayoutConfig,
}

impl Default for NonFixedPayoutModel {
    fn default() -> (r: Self)
        ensures
            r == (NonFixedPayoutModel { pay_per_block: 0, config: NonFixedPayoutConfig::zero() }),
    {
        NonFixedPayoutModel { pay_per_block: 0, config: NonFixedPayoutConfig::default() }
    }
}

/// One derived model per stream.
#[derive(Clone, Copy, Debug, PartialEq, Eq, Structural)]
pub struct Model {
    /// Aution Reward model
    pub aution_reward: AutionRewardModel,
    /// Collator Reward model
    pub collator_reward: FixedPayoutModel,
    /// DAO Trust model
    pub dao_trust: NonFixedPayoutModel,
    /// ECO Trust model
    pub eco_trust: NonFixedPayoutModel,
    /// Dapp Trust model
    pub dapp_trust: FixedPayoutModel,
    /// Inflation Rate model
    pub inflation_rate: InflationRateModel,
}

impl Model {
    /// The model in which every amount, percentage and block number is 0.
    pub open spec fn zero() -> Self {
        Model {
            aution_reward: AutionRewardModel {
                pay_once: 0,
                pay_per_block: 0,
                config: AutionRewardConfig::zero(),
            },
            collator_reward: FixedPayoutModel { config: FixedPayoutConfig::zero() },
            dao_trust: NonFixedPayoutModel { pay_per_block: 0, config: NonFixedPayoutConfig::zero() },
            eco_trust: NonFixedPayoutModel { pay_per_block: 0, config: NonFixedPayoutConfig::zero() },
            dapp_trust: FixedPayoutModel { config: FixedPayoutConfig::zero() },
            inflation_rate: InflationRateModel { config: NonFixedPayoutConfig::zero() },
        }
    }
}

impl Default for Model {
    fn default() -> (r: Self)
        ensures
            r == Self::zero(),
    {
        Model {
            aution_reward: AutionRewardModel::default(),
            collator_reward: FixedPayoutModel::default(),
            dao_trust: NonFixedPayoutModel::default(),
            eco_trust: NonFixedPayoutModel::default(),
            dapp_trust: FixedPayoutModel::default(),
            inflation_rate: InflationRateModel::default(),
        }
    }
}

/// Whether the candidate holds unapplied edits or the previous current model.
#[derive(Clone, Copy, Debug, PartialEq, Eq, Structural)]
pub enum Status {
    /// Draft version
    Draft,
    /// Snapshot version, only exist after apply candidate model
    Snapshot,
}

impl Default for Status {
    fn default() -> (r: Self)
        ensures
            r == Status::Draft,
    {
        Status::Draft
    }
}

/// The candidate slot.
#[derive(Clone, Copy, Debug, PartialEq, Eq, Structural)]
pub struct ModelWithStatus {
    /// The candidate model
    pub model: Model,
    /// Status
    pub status: Status,
}

impl Default for ModelWithStatus {
    fn default() -> (r: Self)
        ensures
            r == (ModelWithStatus { model: Model::zero(), status: Status::Draft }),
    {
        ModelWithStatus { model: Model::default(), status: Status::default() }
    }
}

/// A stored contributor: the submitted entry and its share of the current
/// auction reward per block.
#[derive(Clone, Copy, Debug, PartialEq, Eq)]
pub struct ContributorInfo {
    /// Eth address
    pub eth_address: H160,
    /// perthousand of auction reward
    pub perthousand: u32,
    /// Payout
    pub pay_per_block: u128,
}

impl Default for ContributorInfo {
    fn default() -> (r: Self)
        ensures
            is_zero_address(r.eth_address),
            r.perthousand == 0,
            r.pay_per_block == 0,
    {
        ContributorInfo { eth_address: zero_address(), perthousand: 0, pay_per_block: 0 }
    }
}

} // verus!
