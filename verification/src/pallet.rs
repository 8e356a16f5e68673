//! The reward manager: the stored state and the operations on it. Each
//! operation is checked against the model of [`State`].

use crate::address::zero_address;
use crate::model::{lemma_with_config_derived, lemma_zero_model_derived};
use crate::parameter::{Contributor, EscrowAccountSetter, ModelConfig, Range};
use crate::quota::{is_active, lemma_quota_per_thousand_bounded, quota, quota_per_thousand};
use crate::state::{
    adjusted, block_payouts, enrolled, lemma_saturated_sum_push, lemma_total_perthousand_push,
    once_payouts, payout_if, saturated, stored_shares, submitted_shares, sum_amounts,
    total_perthousand, EscrowAccounts, Payout, State,
};
use crate::storage::{ContributorInfo, EscrowType, Model, ModelWithStatus, Status};
use sp_core::H160;
use sp_runtime::AccountId32;
use vstd::prelude::*;

verus! {

/// Who asks for an operation.
#[derive(Debug, PartialEq, Eq)]
pub enum Origin {
    /// The administrator
    Root,
    /// A signed account
    Signed(AccountId32),
    /// A call that carries no signature
    Unsigned,
}

/// Why the reward manager itself refused an operation.
#[derive(Clone, Copy, Debug, PartialEq, Eq, Structural)]
pub enum Error {
    /// Set over limit 100%
    DistributionOverLimit,
    /// Snapshot has been overwrite
    SnapshotContamination,
}

/// Why an operation failed.
#[derive(Clone, Copy, Debug, PartialEq, Eq, Structural)]
pub enum DispatchError {
    /// The caller is not the administrator
    BadOrigin,
    /// The reward manager refused
    Module(Error),
}

/// What an operation tells the outside once it is done.
#[derive(Clone, Debug, PartialEq, Eq)]
pub enum Event {
    /// Post update event
    UpdateCandidateModelSetting(ModelConfig),
    /// Post apply event
    ApplyCandidateModelSetting(ModelConfig),
    /// Post rollback event
    RollbackToSnapshotModelSetting(ModelConfig),
    /// Set contributors
    SetContributors(Vec<ContributorInfo>),
}

/// Lets the administrator pass and nobody else.
pub fn ensure_root(origin: &Origin) -> (r: Result<(), DispatchError>)
    ensures
        r == (if *origin is Root {
            Ok::<(), DispatchError>(())
        } else {
            Err::<(), DispatchError>(DispatchError::BadOrigin)
        }),
{
    match origin {
        Origin::Root => Ok(()),
        _ => Err(DispatchError::BadOrigin),
    }
}

/// The reward manager's stored state.
#[derive(Clone, Debug)]
pub struct Pallet {
    initial_supply: u128,
    current_setting: Model,
    candidate_setting: ModelWithStatus,
    escrow_accounts: EscrowAccounts,
    contributors: Vec<ContributorInfo>,
}

impl View for Pallet {
    type V = State;

    closed spec fn view(&self) -> State {
        State {
            initial_supply: self.initial_supply,
            current: self.current_setting,
            candidate: self.candidate_setting,
            escrow: self.escrow_accounts,
            contributors: self.contributors@,
        }
    }
}

impl Pallet {
    /// The reward manager at genesis: all-zero models, a draft candidate, the
    /// zero address in every escrow slot, no contributor.
    pub fn new(initial_supply: u128) -> (pallet: Pallet)
        ensures
            pallet@.is_genesis(initial_supply),
            pallet@.wf(),
    {
        let zero = zero_address();
        let pallet = Pallet {
            initial_supply,
            current_setting: Model::default(),
            candidate_setting: ModelWithStatus::default(),
            escrow_accounts: EscrowAccounts { dao: zero, eco: zero, dapp: zero, eoa: zero },
            contributors: Vec::new(),
        };
        proof {
            lemma_zero_model_derived(initial_supply);
            assert(pallet@.contributors =~= adjusted(pallet@.contributors, pallet@.rate()));
        }
        pallet
    }

    /// The reward manager with the given stored values, as they were read
    /// back from where they are kept between two operations.
    pub fn restore(
        initial_supply: u128,
        current_setting: Model,
        candidate_setting: ModelWithStatus,
        escrow_accounts: EscrowAccounts,
        contributors: Vec<ContributorInfo>,
    ) -> (pallet: Pallet)
        ensures
            pallet@ == (State {
                initial_supply,
                current: current_setting,
                candidate: candidate_setting,
                escrow: escrow_accounts,
                contributors: contributors@,
            }),
    {
        Pallet { initial_supply, current_setting, candidate_setting, escrow_accounts, contributors }
    }

    /// The supply that the percentages of the configurations refer to.
    pub fn initial_supply(&self) -> (supply: u128)
        ensures
            supply == self@.initial_supply,
    {
        self.initial_supply
    }

    /// The live model.
    pub fn current_setting(&self) -> (model: Model)
        ensures
            model == self@.current,
    {
        self.current_setting
    }

    /// The candidate model and its status.
    pub fn candidate_setting(&self) -> (candidate: ModelWithStatus)
        ensures
            candidate == self@.candidate,
    {
        self.candidate_setting
    }

    /// The address registered for `escrow`.
    pub fn escrow_account(&self, escrow: EscrowType) -> (address: H160)
        ensures
            address == self@.escrow.get(escrow),
    {
        match escrow {
            EscrowType::Dao => self.escrow_accounts.dao,
            EscrowType::Eco => self.escrow_accounts.eco,
            EscrowType::Dapp => self.escrow_accounts.dapp,
            EscrowType::Eoa => self.escrow_accounts.eoa,
        }
    }

    /// The contributor registry, in the order in which it was submitted.
    pub fn contributors(&self) -> (list: Vec<ContributorInfo>)
        ensures
            list@ == self@.contributors,
    {
        let mut list: Vec<ContributorInfo> = Vec::new();
        let mut i: usize = 0;
        while i < self.contributors.len()
            invariant
                i <= self.contributors@.len(),
                list@ == self.contributors@.take(i as int),
            decreases self.contributors@.len() - i,
        {
            list.push(self.contributors[i]);
            i += 1;
        }
        list
    }

    /// Sets or replaces the configuration of one stream in the candidate,
    /// which takes no effect until it is applied.
    pub fn update_candidate(&mut self, origin: Origin, config: ModelConfig) -> (r: Result<
        Event,
        DispatchError,
    >)
        ensures
            origin is Root ==> r == Ok::<Event, DispatchError>(
                Event::UpdateCandidateModelSetting(config),
            ) && final(self)@ == old(self)@.update_candidate(config),
            !(origin is Root) ==> r == Err::<Event, DispatchError>(DispatchError::BadOrigin)
                && final(self)@ == old(self)@,
            old(self)@.wf() ==> final(self)@.wf(),
    {
        if let Err(e) = ensure_root(&origin) {
            return Err(e);
        }
        self.candidate_setting.model.update(config, self.initial_supply);
        self.candidate_setting.status = Status::Draft;
        proof {
            if old(self)@.wf() {
                lemma_with_config_derived(old(self)@.candidate.model, config, self.initial_supply);
            }
        }
        Ok(Event::UpdateCandidateModelSetting(config))
    }

    /// Recomputes every contributor's payout per block from the current
    /// auction reward.
    pub fn adjust_contributor_payout(&mut self)
        ensures
            final(self)@ == (State {
                contributors: adjusted(old(self)@.contributors, old(self)@.rate()),
                ..old(self)@
            }),
            final(self)@.contributors_in_sync(),
    {
        let over_all = self.current_setting.aution_reward.pay_per_block;
        let ghost before = self.contributors@;
        let n = self.contributors.len();
        let mut i: usize = 0;
        while i < n
            invariant
                i <= n,
                n == before.len(),
                self.contributors@.len() == n,
                self.initial_supply == old(self).initial_supply,
                self.current_setting == old(self).current_setting,
                self.candidate_setting == old(self).candidate_setting,
                self.escrow_accounts == old(self).escrow_accounts,
                over_all == self.current_setting.aution_reward.pay_per_block,
                forall|k: int| 0 <= k < i ==> self.contributors@[k] == adjusted(before, over_all)[k],
                forall|k: int| i <= k < n ==> self.contributors@[k] == before[k],
            decreases n - i,
        {
            let contributor = self.contributors[i];
            let pay_per_block = quota_per_thousand(contributor.perthousand, over_all);
            self.contributors.set(
                i,
                ContributorInfo {
                    eth_address: contributor.eth_address,
                    perthousand: contributor.perthousand,
                    pay_per_block,
                },
            );
            i += 1;
        }
        assert(self.contributors@ =~= adjusted(before, over_all));
        assert(adjusted(self.contributors@, over_all) =~= self.contributors@);
    }

    /// Applies the candidate: it becomes the current model, and the model that
    /// was current is kept in the candidate as snapshot.
    pub fn apply_model(&mut self, origin: Origin) -> (r: Result<(), DispatchError>)
        ensures
            origin is Root ==> r is Ok && final(self)@ == old(self)@.apply_model(),
            !(origin is Root) ==> r == Err::<(), DispatchError>(DispatchError::BadOrigin)
                && final(self)@ == old(self)@,
            old(self)@.wf() ==> final(self)@.wf(),
    {
        if let Err(e) = ensure_root(&origin) {
            return Err(e);
        }
        let snapshot = self.current_setting;
        self.current_setting = self.candidate_setting.model;
        self.candidate_setting.model = snapshot;
        self.candidate_setting.status = Status::Snapshot;
        self.adjust_contributor_payout();
        proof {
            assert(stored_shares(self@.contributors) =~= stored_shares(old(self)@.contributors));
        }
        Ok(())
    }

    /// Puts the snapshot back, which undoes the last apply. Fails with
    /// `SnapshotContamination` unless the candidate holds a snapshot.
    pub fn rollback_model(&mut self, origin: Origin) -> (r: Result<(), DispatchError>)
        ensures
            r is Ok <==> origin is Root && old(self)@.can_rollback(),
            r is Ok ==> final(self)@ == old(self)@.rollback_model(),
            r matches Err(e) ==> final(self)@ == old(self)@ && e == (if origin is Root {
                DispatchError::Module(Error::SnapshotContamination)
            } else {
                DispatchError::BadOrigin
            }),
            old(self)@.wf() ==> final(self)@.wf(),
    {
        if let Err(e) = ensure_root(&origin) {
            return Err(e);
        }
        match self.candidate_setting.status {
            Status::Snapshot => {
                let draft = self.current_setting;
                self.current_setting = self.candidate_setting.model;
                self.candidate_setting.model = draft;
                self.candidate_setting.status = Status::Draft;
                self.adjust_contributor_payout();
                proof {
                    assert(stored_shares(self@.contributors) =~= stored_shares(
                        old(self)@.contributors,
                    ));
                }
                Ok(())
            },
            Status::Draft => Err(DispatchError::Module(Error::SnapshotContamination)),
        }
    }

    /// Sets or replaces the escrow address of one trust.
    pub fn set_escrow_account(&mut self, origin: Origin, account: EscrowAccountSetter) -> (r:
        Result<(), DispatchError>)
        ensures
            origin is Root ==> r is Ok && final(self)@ == old(self)@.set_escrow_account(account),
            !(origin is Root) ==> r == Err::<(), DispatchError>(DispatchError::BadOrigin)
                && final(self)@ == old(self)@,
            old(self)@.wf() ==> final(self)@.wf(),
    {
        if let Err(e) = ensure_root(&origin) {
            return Err(e);
        }
        match account {
            EscrowAccountSetter::Dao(eth_address) => {
                self.escrow_accounts.dao = eth_address;
            },
            EscrowAccountSetter::Eco(eth_address) => {
                self.escrow_accounts.eco = eth_address;
            },
            EscrowAccountSetter::Dapp(eth_address) => {
                self.escrow_accounts.dapp = eth_address;
            },
            EscrowAccountSetter::Eoa(eth_address) => {
                self.escrow_accounts.eoa = eth_address;
            },
        }
        Ok(())
    }

    /// Replaces the contributor registry by `new` and computes each entry's
    /// payout per block. Fails with `DistributionOverLimit`, and changes
    /// nothing, where the shares of `new` sum to more than 1000.
    pub fn set_contributors(&mut self, origin: Origin, new: Vec<Contributor>) -> (r: Result<
        Event,
        DispatchError,
    >)
        ensures
            r is Ok <==> origin is Root && State::accepts(new@),
            r matches Ok(event) ==> final(self)@ == old(self)@.set_contributors(new@) && (
            event matches Event::SetContributors(list) && list@ == final(self)@.contributors),
            r matches Err(e) ==> final(self)@ == old(self)@ && e == (if origin is Root {
                DispatchError::Module(Error::DistributionOverLimit)
            } else {
                DispatchError::BadOrigin
            }),
            old(self)@.wf() ==> final(self)@.wf(),
    {
        if let Err(e) = ensure_root(&origin) {
            return Err(e);
        }
        let mut new_contributors: Vec<ContributorInfo> = Vec::new();
        let mut sum: u32 = 0;
        let mut i: usize = 0;
        while i < new.len()
            invariant
                i <= new@.len(),
                new_contributors@ == enrolled(new@.take(i as int), 0),
                sum as int == saturated_share(
                    total_perthousand(submitted_shares(new@.take(i as int))),
                ),
                0 <= total_perthousand(submitted_shares(new@.take(i as int))),
            decreases new@.len() - i,
        {
            let contributor = new[i];
            proof {
                let shares = submitted_shares(new@.take(i as int));
                assert(submitted_shares(new@.take(i + 1)) =~= shares.push(contributor.perthousand));
                lemma_total_perthousand_push(shares, contributor.perthousand);
                lemma_quota_per_thousand_bounded(contributor.perthousand, 0);
            }
            sum = sum.saturating_add(contributor.perthousand);
            new_contributors.push(
                ContributorInfo {
                    eth_address: contributor.eth_address,
                    perthousand: contributor.perthousand,
                    pay_per_block: 0,
                },
            );
            i += 1;
        }
        assert(new@.take(i as int) =~= new@);
        if sum <= 1000 {
            self.contributors = new_contributors;
            self.adjust_contributor_payout();
            proof {
                assert(self@.contributors =~= enrolled(new@, old(self)@.rate()));
                assert(stored_shares(self@.contributors) =~= submitted_shares(new@));
            }
            Ok(Event::SetContributors(self.contributors()))
        } else {
            Err(DispatchError::Module(Error::DistributionOverLimit))
        }
    }

    /// Whether the collator reward is active at `block_number`, which is when
    /// the address of the block's author matters to [`Pallet::note_author`].
    pub fn pays_collator(&self, block_number: u32) -> (active: bool)
        ensures
            active == self@.current.collator_reward.config.range.contains(block_number),
    {
        is_active(&self.current_setting.collator_reward.config.range, block_number)
    }

    /// The payouts of block `block_number`, in the order in which they are to
    /// be made; `author` is the address of the block's author, if it has one.
    /// Each payout is to be issued and then credited to its address.
    ///
    /// The state is not changed and no block number is remembered: asked
    /// twice for the same block, the reward manager answers twice the same,
    /// and a caller that carries out both answers issues the block's rewards
    /// twice. It is the caller's duty to ask once per block.
    pub fn note_author(&self, block_number: u32, author: Option<H160>) -> (payouts: Vec<Payout>)
        ensures
            payouts@ == self@.payouts(block_number, author),
    {
        let model = self.current_setting;
        let escrow = self.escrow_accounts;
        let mut payouts: Vec<Payout> = Vec::new();
        let mut issuance_this_time: u128 = 0;

        // Aution reward pay once at special block
        if block_number == model.aution_reward.config.pay_once.at {
            pay_once(
                &self.contributors,
                model.aution_reward.pay_once,
                &mut payouts,
                &mut issuance_this_time,
            );
        }
        if is_active(&model.aution_reward.config.range, block_number) {
            pay_contributors(&self.contributors, &mut payouts, &mut issuance_this_time);
        }

        // Collator reward
        if let Some(eth_address) = author {
            pay_stream(
                &model.collator_reward.config.range,
                block_number,
                eth_address,
                model.collator_reward.config.pay_per_block,
                &mut payouts,
                &mut issuance_this_time,
            );
        }

        // Dao trust
        pay_stream(
            &model.dao_trust.config.range,
            block_number,
            escrow.dao,
            model.dao_trust.pay_per_block,
            &mut payouts,
            &mut issuance_this_time,
        );

        // Eco trust
        pay_stream(
            &model.eco_trust.config.range,
            block_number,
            escrow.eco,
            model.eco_trust.pay_per_block,
            &mut payouts,
            &mut issuance_this_time,
        );

        // Dapp trust
        pay_stream(
            &model.dapp_trust.config.range,
            block_number,
            escrow.dapp,
            model.dapp_trust.config.pay_per_block,
            &mut payouts,
            &mut issuance_this_time,
        );

        // Inflation rate
        if is_active(&model.inflation_rate.config.range, block_number) {
            let amount = quota(model.inflation_rate.config.percentage, issuance_this_time);
            payouts.push(Payout { eth_address: escrow.eoa, amount });
        }
        payouts
    }
}

/// The sum of shares as a `u32` holds it: capped at the largest `u32`.
spec fn saturated_share(total: int) -> int {
    if total > u32::MAX {
        u32::MAX as int
    } else {
        total
    }
}

/// Pays every contributor its share of the lump payout `total`.
fn pay_once(
    contributors: &Vec<ContributorInfo>,
    total: u128,
    payouts: &mut Vec<Payout>,
    issued: &mut u128,
)
    requires
        *old(issued) == saturated(sum_amounts(old(payouts)@)),
    ensures
        final(payouts)@ == old(payouts)@ + once_payouts(contributors@, total),
        *final(issued) == saturated(sum_amounts(final(payouts)@)),
{
    let ghost before = payouts@;
    let n = contributors.len();
    let mut i: usize = 0;
    while i < n
        invariant
            i <= n,
            n == contributors@.len(),
            payouts@ == before + once_payouts(contributors@, total).take(i as int),
            *issued == saturated(sum_amounts(payouts@)),
        decreases n - i,
    {
        let contributor = contributors[i];
        let quota = quota_per_thousand(contributor.perthousand, total);
        pay(payouts, issued, contributor.eth_address, quota);
        i += 1;
    }
}

/// Pays every contributor its stored payout per block.
fn pay_contributors(
    contributors: &Vec<ContributorInfo>,
    payouts: &mut Vec<Payout>,
    issued: &mut u128,
)
    requires
        *old(issued) == saturated(sum_amounts(old(payouts)@)),
    ensures
        final(payouts)@ == old(payouts)@ + block_payouts(contributors@),
        *final(issued) == saturated(sum_amounts(final(payouts)@)),
{
    let ghost before = payouts@;
    let n = contributors.len();
    let mut i: usize = 0;
    while i < n
        invariant
            i <= n,
            n == contributors@.len(),
            payouts@ == before + block_payouts(contributors@).take(i as int),
            *issued == saturated(sum_amounts(payouts@)),
        decreases n - i,
    {
        let contributor = contributors[i];
        pay(payouts, issued, contributor.eth_address, contributor.pay_per_block);
        i += 1;
    }
}

/// Pays `amount` to `eth_address` if `range` holds `block_number`.
fn pay_stream(
    range: &Range,
    block_number: u32,
    eth_address: H160,
    amount: u128,
    payouts: &mut Vec<Payout>,
    issued: &mut u128,
)
    requires
        *old(issued) == saturated(sum_amounts(old(payouts)@)),
    ensures
        final(payouts)@ == old(payouts)@ + payout_if(
            range.contains(block_number),
            eth_address,
            amount,
        ),
        *final(issued) == saturated(sum_amounts(final(payouts)@)),
{
    if is_active(range, block_number) {
        pay(payouts, issued, eth_address, amount);
    }
}

/// Records one payout and adds its amount to what the block has issued,
/// saturating at the largest 128-bit amount.
fn pay(payouts: &mut Vec<Payout>, issued: &mut u128, eth_address: H160, amount: u128)
    requires
        *old(issued) == saturated(sum_amounts(old(payouts)@)),
    ensures
        final(payouts)@ == old(payouts)@.push(Payout { eth_address, amount }),
        *final(issued) == saturated(sum_amounts(final(payouts)@)),
{
    proof {
        lemma_saturated_sum_push(payouts@, Payout { eth_address, amount });
    }
    payouts.push(Payout { eth_address, amount });
    *issued = issued.saturating_add(amount);
}

} // verus!
