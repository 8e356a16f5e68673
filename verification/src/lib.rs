//! Reward distribution core: staged configuration of the issuance streams and
//! the per-block computation of what each stream pays and to whom.
//!
//! [`Pallet`] holds the state and offers the operations; [`state::State`] is
//! the model that every operation is stated against, and [`laws`] holds what
//! follows for every state.

pub mod address;
pub mod laws;
pub mod model;
pub mod pallet;
pub mod parameter;
pub mod quota;
pub mod state;
pub mod storage;

pub use address::{account_preimage, AccountMapping, HashedAddressMapping};
pub use model::{aution_reward_model, non_fixed_payout_model};
pub use pallet::{ensure_root, DispatchError, Error, Event, Origin, Pallet};
pub use parameter::{
    AutionRewardConfig, Contributor, EscrowAccountSetter, FixedPayoutConfig, ModelConfig,
    NonFixedPayoutConfig, PayOnce, Range,
};
pub use quota::{is_active, pay_per_block, quota, quota_per_thousand};
pub use state::{EscrowAccounts, Payout};
pub use storage::{
    AutionRewardModel, ContributorInfo, EscrowType, FixedPayoutModel, InflationRateModel, Model,
    ModelWithStatus, NonFixedPayoutModel, Status,
};
