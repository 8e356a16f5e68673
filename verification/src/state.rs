//! The mathematical model of the reward manager: its state as a value, each
//! administrative operation as a function from state to state, and the
//! payouts of a block as a function of the state, the block number and the
//! author's address.

use crate::address::is_zero_address;
use crate::parameter::{Contributor, EscrowAccountSetter, ModelConfig};
use crate::quota::{spec_quota, spec_quota_per_thousand};
use crate::storage::{ContributorInfo, EscrowType, Model, ModelWithStatus, Status};
use sp_core::H160;
use vstd::prelude::*;

verus! {

/// An amount that is issued and credited to an external address.
#[derive(Clone, Copy, Debug, PartialEq, Eq)]
pub struct Payout {
    /// Eth address that is credited
    pub eth_address: H160,
    /// Amount that is issued and credited
    pub amount: u128,
}

/// The escrow registry: one address for each [`EscrowType`].
#[derive(Clone, Copy, Debug, PartialEq, Eq)]
pub struct EscrowAccounts {
    /// Dao Escrow Account
    pub dao: H160,
    /// Eco Escrow Account
    pub eco: H160,
    /// Dapp Escrow Account
    pub dapp: H160,
    /// Inflation Escrow Account
    pub eoa: H160,
}

impl EscrowAccounts {
    /// The address registered for `escrow`.
    pub open spec fn get(self, escrow: EscrowType) -> H160 {
        match escrow {
            EscrowType::Dao => self.dao,
            EscrowType::Eco => self.eco,
            EscrowType::Dapp => self.dapp,
            EscrowType::Eoa => self.eoa,
        }
    }

    /// The registry after `setter` overwrote its slot.
    pub open spec fn set(self, setter: EscrowAccountSetter) -> EscrowAccounts {
        match setter {
            EscrowAccountSetter::Dao(address) => EscrowAccounts { dao: address, ..self },
            EscrowAccountSetter::Eco(address) => EscrowAccounts { eco: address, ..self },
            EscrowAccountSetter::Dapp(address) => EscrowAccounts { dapp: address, ..self },
            EscrowAccountSetter::Eoa(address) => EscrowAccounts { eoa: address, ..self },
        }
    }
}

/// The sum of the shares of a list of contributors, in parts per thousand.
pub open spec fn total_perthousand(shares: Seq<u32>) -> int
    decreases shares.len(),
{
    if shares.len() == 0 {
        0
    } else {
        total_perthousand(shares.drop_last()) + shares.last()
    }
}

/// The shares of submitted contributors, in order.
pub open spec fn submitted_shares(contributors: Seq<Contributor>) -> Seq<u32> {
    Seq::new(contributors.len(), |i: int| contributors[i].perthousand)
}

/// The shares of stored contributors, in order.
pub open spec fn stored_shares(contributors: Seq<ContributorInfo>) -> Seq<u32> {
    Seq::new(contributors.len(), |i: int| contributors[i].perthousand)
}

/// The entries that are stored for submitted contributors when the auction
/// reward pays `rate` per block.
pub open spec fn enrolled(contributors: Seq<Contributor>, rate: u128) -> Seq<ContributorInfo> {
    Seq::new(
        contributors.len(),
        |i: int|
            ContributorInfo {
                eth_address: contributors[i].eth_address,
                perthousand: contributors[i].perthousand,
                pay_per_block: spec_quota_per_thousand(contributors[i].perthousand, rate) as u128,
            },
    )
}

/// The stored contributors with each payout computed anew for `rate`.
pub open spec fn adjusted(contributors: Seq<ContributorInfo>, rate: u128) -> Seq<ContributorInfo> {
    Seq::new(
        contributors.len(),
        |i: int|
            ContributorInfo {
                eth_address: contributors[i].eth_address,
                perthousand: contributors[i].perthousand,
                pay_per_block: spec_quota_per_thousand(contributors[i].perthousand, rate) as u128,
            },
    )
}

/// Each contributor's share of the lump payout `pay_once`.
pub open spec fn once_payouts(contributors: Seq<ContributorInfo>, pay_once: u128) -> Seq<Payout> {
    Seq::new(
        contributors.len(),
        |i: int|
            Payout {
                eth_address: contributors[i].eth_address,
                amount: spec_quota_per_thousand(contributors[i].perthousand, pay_once) as u128,
            },
    )
}

/// Each contributor's stored payout per block.
pub open spec fn block_payouts(contributors: Seq<ContributorInfo>) -> Seq<Payout> {
    Seq::new(
        contributors.len(),
        |i: int|
            Payout {
                eth_address: contributors[i].eth_address,
                amount: contributors[i].pay_per_block,
            },
    )
}

/// One payout of `amount` to `eth_address` if `active`, none otherwise.
pub open spec fn payout_if(active: bool, eth_address: H160, amount: u128) -> Seq<Payout> {
    if active {
        seq![Payout { eth_address, amount }]
    } else {
        Seq::empty()
    }
}

/// The sum of the amounts of `payouts`, without a bound.
pub open spec fn sum_amounts(payouts: Seq<Payout>) -> int
    decreases payouts.len(),
{
    if payouts.len() == 0 {
        0
    } else {
        sum_amounts(payouts.drop_last()) + payouts.last().amount
    }
}

/// `total`, or the largest 128-bit amount where `total` is above it.
pub open spec fn saturated(total: int) -> u128 {
    if total > u128::MAX {
        u128::MAX
    } else {
        total as u128
    }
}

/// The sum of amounts is never negative.
pub proof fn lemma_sum_amounts_nonnegative(payouts: Seq<Payout>)
    ensures
        0 <= sum_amounts(payouts),
    decreases payouts.len(),
{
    if payouts.len() > 0 {
        lemma_sum_amounts_nonnegative(payouts.drop_last());
    }
}

/// Adding a payout to a list adds its amount to the sum, and adding with
/// saturation to the saturated sum gives the saturated sum.
pub proof fn lemma_saturated_sum_push(payouts: Seq<Payout>, payout: Payout)
    ensures
        sum_amounts(payouts.push(payout)) == sum_amounts(payouts) + payout.amount,
        saturated(sum_amounts(payouts.push(payout))) == saturated(
            saturated(sum_amounts(payouts)) + payout.amount,
        ),
{
    assert(payouts.push(payout).drop_last() =~= payouts);
    lemma_sum_amounts_nonnegative(payouts);
}

/// Adding a share to a list adds it to the sum, which is never negative.
pub proof fn lemma_total_perthousand_push(shares: Seq<u32>, share: u32)
    ensures
        total_perthousand(shares.push(share)) == total_perthousand(shares) + share,
        0 <= total_perthousand(shares),
    decreases shares.len(),
{
    assert(shares.push(share).drop_last() =~= shares);
    if shares.len() > 0 {
        lemma_total_perthousand_push(shares.drop_last(), shares.last());
    }
}

/// The state of the reward manager.
pub struct State {
    /// The supply that percentages of the configurations refer to
    pub initial_supply: u128,
    /// The live model, which the per-block engine reads
    pub current: Model,
    /// The candidate model and its status
    pub candidate: ModelWithStatus,
    /// The escrow registry
    pub escrow: EscrowAccounts,
    /// The contributor registry
    pub contributors: Seq<ContributorInfo>,
}

impl State {
    /// What the current auction reward pays per block to all contributors
    /// together.
    pub open spec fn rate(self) -> u128 {
        self.current.aution_reward.pay_per_block
    }

    /// Every contributor's stored payout is its share of the current rate.
    pub open spec fn contributors_in_sync(self) -> bool {
        self.contributors == adjusted(self.contributors, self.rate())
    }

    /// The invariant of the state: the contributors' shares sum to at most
    /// 1000, their payouts follow the current model, and both models are
    /// derived from their configurations.
    pub open spec fn wf(self) -> bool {
        &&& total_perthousand(stored_shares(self.contributors)) <= 1000
        &&& self.contributors_in_sync()
        &&& self.current.derived(self.initial_supply)
        &&& self.candidate.model.derived(self.initial_supply)
    }

    /// The state before any operation: both models all zero, the candidate a
    /// draft, the zero address in every escrow slot, no contributor.
    pub open spec fn is_genesis(self, initial_supply: u128) -> bool {
        &&& self.initial_supply == initial_supply
        &&& self.current == Model::zero()
        &&& self.candidate == (ModelWithStatus { model: Model::zero(), status: Status::Draft })
        &&& is_zero_address(self.escrow.dao)
        &&& is_zero_address(self.escrow.eco)
        &&& is_zero_address(self.escrow.dapp)
        &&& is_zero_address(self.escrow.eoa)
        &&& self.contributors == Seq::<ContributorInfo>::empty()
    }

    /// The state after `config` replaced its stream's slot of the candidate,
    /// which becomes a draft.
    pub open spec fn update_candidate(self, config: ModelConfig) -> State {
        State {
            candidate: ModelWithStatus {
                model: self.candidate.model.with_config(config, self.initial_supply),
                status: Status::Draft,
            },
            ..self
        }
    }

    /// The state with current and candidate model exchanged, the candidate
    /// marked `status`, and the contributors' payouts following the new
    /// current model.
    pub open spec fn swapped(self, status: Status) -> State {
        State {
            current: self.candidate.model,
            candidate: ModelWithStatus { model: self.current, status },
            contributors: adjusted(
                self.contributors,
                self.candidate.model.aution_reward.pay_per_block,
            ),
            ..self
        }
    }

    /// The state after the candidate was applied: the previous current model
    /// is kept as snapshot.
    pub open spec fn apply_model(self) -> State {
        self.swapped(Status::Snapshot)
    }

    /// Whether the candidate holds the snapshot of an apply that nothing has
    /// overwritten.
    pub open spec fn can_rollback(self) -> bool {
        self.candidate.status == Status::Snapshot
    }

    /// The state after the snapshot was put back.
    pub open spec fn rollback_model(self) -> State {
        self.swapped(Status::Draft)
    }

    /// The state after `setter` overwrote its escrow slot.
    pub open spec fn set_escrow_account(self, setter: EscrowAccountSetter) -> State {
        State { escrow: self.escrow.set(setter), ..self }
    }

    /// Whether a list of contributors is accepted: its shares sum to at most
    /// 1000.
    pub open spec fn accepts(new: Seq<Contributor>) -> bool {
        total_perthousand(submitted_shares(new)) <= 1000
    }

    /// The state after `new` replaced the contributor registry.
    pub open spec fn set_contributors(self, new: Seq<Contributor>) -> State {
        State { contributors: enrolled(new, self.rate()), ..self }
    }

    /// The payouts at block `n` that do not depend on what the block issues:
    /// lump auction reward, auction reward per block, collator reward, and the
    /// three trusts, in this order.
    pub open spec fn stream_payouts(self, n: u32, author: Option<H160>) -> Seq<Payout> {
        let model = self.current;
        let once = if n == model.aution_reward.config.pay_once.at {
            once_payouts(self.contributors, model.aution_reward.pay_once)
        } else {
            Seq::empty()
        };
        let per_block = if model.aution_reward.config.range.contains(n) {
            block_payouts(self.contributors)
        } else {
            Seq::empty()
        };
        let collator = match author {
            Some(eth_address) => payout_if(
                model.collator_reward.config.range.contains(n),
                eth_address,
                model.collator_reward.config.pay_per_block,
            ),
            None => Seq::empty(),
        };
        let dao = payout_if(
            model.dao_trust.config.range.contains(n),
            self.escrow.dao,
            model.dao_trust.pay_per_block,
        );
        let eco = payout_if(
            model.eco_trust.config.range.contains(n),
            self.escrow.eco,
            model.eco_trust.pay_per_block,
        );
        let dapp = payout_if(
            model.dapp_trust.config.range.contains(n),
            self.escrow.dapp,
            model.dapp_trust.config.pay_per_block,
        );
        once + per_block + collator + dao + eco + dapp
    }

    /// What the streams issue at block `n` before the inflation surcharge,
    /// saturating at the largest 128-bit amount.
    pub open spec fn issuance(self, n: u32, author: Option<H160>) -> u128 {
        saturated(sum_amounts(self.stream_payouts(n, author)))
    }

    /// The inflation surcharge at block `n`: a quota of what the block has
    /// issued so far, paid to the Eoa escrow.
    pub open spec fn inflation_payout(self, n: u32, author: Option<H160>) -> Seq<Payout> {
        let config = self.current.inflation_rate.config;
        payout_if(
            config.range.contains(n),
            self.escrow.eoa,
            spec_quota(config.percentage, self.issuance(n, author)) as u128,
        )
    }

    /// All payouts of block `n`, in the order in which they are made. The
    /// surcharge comes last, because it depends on the others.
    pub open spec fn payouts(self, n: u32, author: Option<H160>) -> Seq<Payout> {
        self.stream_payouts(n, author) + self.inflation_payout(n, author)
    }
}

} // verus!
