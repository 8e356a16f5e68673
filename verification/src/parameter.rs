//! Configuration values that an administrator submits: one per issuance
//! stream, plus the contributor and escrow entries.

use crate::address::{is_zero_address, zero_address};
use sp_core::H160;
use vstd::prelude::*;

verus! {

/// Sets the escrow address of one trust.
#[derive(Clone, Copy, Debug, PartialEq, Eq)]
pub enum EscrowAccountSetter {
    /// Dao escrow account
    Dao(H160),
    /// Eco escrow account
    Eco(H160),
    /// Dapp escrow account
    Dapp(H160),
    /// Inflation escrow account
    Eoa(H160),
}

/// Half-open block interval `[start, end)`.
#[derive(Clone, Copy, Debug, PartialEq, Eq, Structural)]
pub struct Range {
    /// Reward start block
    pub start: u32,
    /// Reward end block
    pub end: u32,
}

impl Range {
    /// Whether block `n` lies in the interval.
    pub open spec fn contains(self, n: u32) -> bool {
        self.start <= n && n < self.end
    }

    /// The number of blocks in the interval; 0 when it is empty or inverted.
    pub open spec fn span(self) -> int {
        if self.end > self.start {
            self.end - self.start
        } else {
            0
        }
    }
}

impl Default for Range {
    fn default() -> (r: Self)
        ensures
            r == (Range { start: 0, end: 0 }),
    {
        Range { start: 0, end: 0 }
    }
}

/// A single lump payout at block `at`.
#[derive(Clone, Copy, Debug, PartialEq, Eq, Structural)]
pub struct PayOnce {
    /// Percentage of the stream's total
    pub percentage: u32,
    /// At which block
    pub at: u32,
}

impl Default for PayOnce {
    fn default() -> (r: Self)
        ensures
            r == (PayOnce { percentage: 0, at: 0 }),
    {
        PayOnce { percentage: 0, at: 0 }
    }
}

#[derive(Clone, Copy, Debug, PartialEq, Eq, Structural)]
pub struct AutionRewardConfig {
    /// Percentage of initial total supply
    pub percentage: u32,
    /// Reward active range
    pub range: Range,
    /// Pay for special block
    pub pay_once: PayOnce,
}

impl AutionRewardConfig {
    /// The all-zero configuration.
    pub open spec fn zero() -> Self {
        AutionRewardConfig {
            percentage: 0,
            range: Range { start: 0, end: 0 },
            pay_once: PayOnce { percentage: 0, at: 0 },
        }
    }
}

impl Default for AutionRewardConfig {
    fn default() -> (r: Self)
        ensures
            r == Self::zero(),
    {
        AutionRewardConfig {
            percentage: 0,
            range: Range { start: 0, end: 0 },
            pay_once: PayOnce { percentage: 0, at: 0 },
        }
    }
}

/// A payout that is given in absolute units.
#[derive(Clone, Copy, Debug, PartialEq, Eq, Structural)]
pub struct FixedPayoutConfig {
    /// Reward per block
    pub pay_per_block: u128,
    /// Reward active range
    pub range: Range,
}

impl FixedPayoutConfig {
    /// The all-zero configuration.
    pub open spec fn zero() -> Self {
        FixedPayoutConfig { pay_per_block: 0, range: Range { start: 0, end: 0 } }
    }
}

impl Default for FixedPayoutConfig {
    fn default() -> (r: Self)
        ensures
            r == Self::zero(),
    {
        FixedPayoutConfig { pay_per_block: 0, range: Range { start: 0, end: 0 } }
    }
}

/// A payout that is a percentage of a base amount: of the initial supply for
/// the trusts, of the block's issuance for the inflation rate.
#[derive(Clone, Copy, Debug, PartialEq, Eq, Structural)]
pub struct NonFixedPayoutConfig {
    /// Percentage of the base amount
    pub percentage: u32,
    /// Reward active range
    pub range: Range,
}

impl NonFixedPayoutConfig {
    /// The all-zero configuration.
    pub open spec fn zero() -> Self {
        NonFixedPayoutConfig { percentage: 0, range: Range { start: 0, end: 0 } }
    }
}

impl Default for NonFixedPayoutConfig {
    fn default() -> (r: Self)
        ensures
            r == Self::zero(),
    {
        NonFixedPayoutConfig { percentage: 0, range: Range { start: 0, end: 0 } }
    }
}

/// The configuration of one of the six streams.
#[derive(Clone, Copy, Debug, PartialEq, Eq, Structural)]
pub enum ModelConfig {
    /// Aution Reward configuration
    AutionRewardConfig(AutionRewardConfig),
    /// Collator Reward configuration
    CollatorRewardConfig(FixedPayoutConfig),
    /// DAO Trust configuration
    DaoTrustConfig(NonFixedPayoutConfig),
    /// ECO Trust configuration
    EcoTrustConfig(NonFixedPayoutConfig),
    /// Dapp Trust configuration
    DappTrustConfig(FixedPayoutConfig),
    /// Inflation Rate configuration
    InflationRateConfig(NonFixedPayoutConfig),
}

/// A payee of the auction reward and its share in parts per thousand.
#[derive(Clone, Copy, Debug, PartialEq, Eq)]
pub struct Contributor {
    /// Eth address
    pub eth_address: H160,
    /// perthousand of auction reward
    pub perthousand: u32,
}

impl Default for Contributor {
    fn default() -> (r: Self)
        ensures
            is_zero_address(r.eth_address),
            r.perthousand == 0,
    {
        Contributor { eth_address: zero_address(), perthousand: 0 }
    }
}

} // verus!
