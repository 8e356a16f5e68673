//! What holds of the model in every state: how apply and rollback undo each
//! other, what the contributors can receive at most, and where the inflation
//! surcharge stands among the payouts of a block.

use crate::model::lemma_with_config_derived;
use crate::parameter::{Contributor, EscrowAccountSetter, ModelConfig};
use crate::quota::{capped, lemma_quota_bounded, lemma_quota_per_thousand_bounded, spec_quota};
use crate::state::{
    adjusted, block_payouts, enrolled, lemma_sum_amounts_nonnegative,
    lemma_total_perthousand_push, once_payouts, saturated, stored_shares, submitted_shares,
    sum_amounts, total_perthousand, Payout, State,
};
use crate::storage::{ContributorInfo, Status};
use sp_core::H160;
use vstd::arithmetic::div_mod::lemma_fundamental_div_mod;
use vstd::prelude::*;

verus! {

/// Apply followed by rollback puts the current model and the candidate model
/// back to what they were before the apply and leaves the candidate a draft;
/// nothing else has changed, provided the contributors' payouts followed the
/// current model before. After the rollback no snapshot is left, so a second
/// rollback is refused.
pub proof fn lemma_apply_then_rollback(s: State)
    ensures
        s.apply_model().can_rollback(),
        s.apply_model().rollback_model().current == s.current,
        s.apply_model().rollback_model().candidate.model == s.candidate.model,
        s.apply_model().rollback_model().candidate.status == Status::Draft,
        s.apply_model().rollback_model().escrow == s.escrow,
        s.apply_model().rollback_model().initial_supply == s.initial_supply,
        s.apply_model().rollback_model().contributors == adjusted(s.contributors, s.rate()),
        s.contributors_in_sync() ==> s.apply_model().rollback_model().contributors
            == s.contributors,
        !s.apply_model().rollback_model().can_rollback(),
{
}

/// A rollback never leaves a snapshot behind, and an update of the candidate
/// overwrites one: in both cases the next rollback is refused.
pub proof fn lemma_snapshot_is_spent(s: State, config: ModelConfig)
    ensures
        !s.rollback_model().can_rollback(),
        !s.update_candidate(config).can_rollback(),
{
}

/// Every operation on the model keeps the invariant of the state; replacing
/// the contributors does so for every list that is accepted.
pub proof fn lemma_operations_keep_wf(
    s: State,
    config: ModelConfig,
    setter: EscrowAccountSetter,
    new: Seq<Contributor>,
)
    requires
        s.wf(),
    ensures
        s.update_candidate(config).wf(),
        s.apply_model().wf(),
        s.rollback_model().wf(),
        s.set_escrow_account(setter).wf(),
        State::accepts(new) ==> s.set_contributors(new).wf(),
{
    lemma_with_config_derived(s.candidate.model, config, s.initial_supply);
    let rate = s.candidate.model.aution_reward.pay_per_block;
    assert(stored_shares(adjusted(s.contributors, rate)) =~= stored_shares(s.contributors));
    assert(adjusted(adjusted(s.contributors, rate), rate) =~= adjusted(s.contributors, rate));
    assert(stored_shares(enrolled(new, s.rate())) =~= submitted_shares(new));
    assert(adjusted(enrolled(new, s.rate()), s.rate()) =~= enrolled(new, s.rate()));
}

/// The sum of the amounts of two lists of payouts, one after the other, is the
/// sum of their sums.
pub proof fn lemma_sum_amounts_concat(first: Seq<Payout>, second: Seq<Payout>)
    ensures
        sum_amounts(first + second) == sum_amounts(first) + sum_amounts(second),
    decreases second.len(),
{
    if second.len() > 0 {
        assert((first + second).drop_last() =~= first + second.drop_last());
        lemma_sum_amounts_concat(first, second.drop_last());
    }
}

/// Shares of an amount, each rounded down, sum to no more than the share of
/// their sum: `floor(a * x / 1000) + floor(a * y / 1000) <= floor(a * (x + y) / 1000)`.
proof fn lemma_floor_superadditive(amount: int, x: int, y: int)
    requires
        0 <= amount,
        0 <= x,
        0 <= y,
    ensures
        (amount * x) / 1000 + (amount * y) / 1000 <= (amount * (x + y)) / 1000,
{
    let a = amount * x;
    let b = amount * y;
    assert(amount * (x + y) == a + b) by (nonlinear_arith)
        requires
            a == amount * x,
            b == amount * y,
    ;
    lemma_fundamental_div_mod(a, 1000);
    lemma_fundamental_div_mod(b, 1000);
    lemma_fundamental_div_mod(a + b, 1000);
}

/// What the contributors receive of `amount` in all is at most the share of
/// `amount` that their shares sum to.
proof fn lemma_shares_within_total(contributors: Seq<ContributorInfo>, amount: u128)
    requires
        total_perthousand(stored_shares(contributors)) <= 1000,
    ensures
        sum_amounts(once_payouts(contributors, amount)) <= (amount * total_perthousand(
            stored_shares(contributors),
        )) / 1000,
        0 <= total_perthousand(stored_shares(contributors)),
    decreases contributors.len(),
{
    let shares = stored_shares(contributors);
    if contributors.len() > 0 {
        let rest = contributors.drop_last();
        let last = contributors.last();
        assert(stored_shares(rest) =~= shares.drop_last());
        assert(once_payouts(rest, amount) =~= once_payouts(contributors, amount).drop_last());
        lemma_total_perthousand_push(shares.drop_last(), shares.last());
        lemma_shares_within_total(rest, amount);
        lemma_quota_per_thousand_bounded(last.perthousand, amount);
        let before = total_perthousand(stored_shares(rest));
        lemma_floor_superadditive(amount as int, before, last.perthousand as int);
    }
}

/// The contributors' shares of a lump payout sum to no more than the payout.
pub proof fn lemma_once_payouts_within_total(s: State, pay_once: u128)
    requires
        s.wf(),
    ensures
        0 <= sum_amounts(once_payouts(s.contributors, pay_once)) <= pay_once,
{
    lemma_shares_within_total(s.contributors, pay_once);
    lemma_sum_amounts_nonnegative(once_payouts(s.contributors, pay_once));
    let total = total_perthousand(stored_shares(s.contributors));
    assert((pay_once * total) / 1000 <= pay_once) by (nonlinear_arith)
        requires
            0 <= total <= 1000,
            0 <= pay_once,
    ;
}

/// The contributors' payouts per block sum to no more than what the current
/// auction reward pays per block.
pub proof fn lemma_block_payouts_within_rate(s: State)
    requires
        s.wf(),
    ensures
        0 <= sum_amounts(block_payouts(s.contributors)) <= s.rate(),
{
    lemma_once_payouts_within_total(s, s.rate());
    assert(block_payouts(s.contributors) =~= once_payouts(s.contributors, s.rate()));
}

/// Where the inflation rate is active, its surcharge is the last payout of
/// the block: it goes to the Eoa escrow and is the quota of everything that
/// the other streams issue in this block. Where it is not active, the block
/// pays the other streams only.
pub proof fn lemma_inflation_comes_last(s: State, n: u32, author: Option<H160>)
    ensures
        s.current.inflation_rate.config.range.contains(n) ==> {
            &&& s.payouts(n, author).len() > 0
            &&& s.payouts(n, author).drop_last() == s.stream_payouts(n, author)
            &&& s.payouts(n, author).last().eth_address == s.escrow.eoa
            &&& s.payouts(n, author).last().amount == spec_quota(
                s.current.inflation_rate.config.percentage,
                saturated(sum_amounts(s.stream_payouts(n, author))),
            )
        },
        !s.current.inflation_rate.config.range.contains(n) ==> s.payouts(n, author)
            == s.stream_payouts(n, author),
{
    lemma_quota_bounded(s.current.inflation_rate.config.percentage, s.issuance(n, author));
}

/// Outside the range of the collator reward the author's address does not
/// matter: the block pays what it pays when no address was resolved.
pub proof fn lemma_author_matters_to_collator_only(s: State, n: u32, author: Option<H160>)
    requires
        !s.current.collator_reward.config.range.contains(n),
    ensures
        s.payouts(n, author) == s.payouts(n, None),
{
}

/// The payouts of a block depend on the state, the block number and the
/// author alone, and asking for them changes nothing. So a caller that
/// carries out the payouts of one block twice issues twice the amount.
pub proof fn lemma_second_run_issues_again(s: State, n: u32, author: Option<H160>)
    ensures
        sum_amounts(s.payouts(n, author) + s.payouts(n, author)) == 2 * sum_amounts(
            s.payouts(n, author),
        ),
{
    lemma_sum_amounts_concat(s.payouts(n, author), s.payouts(n, author));
}

} // verus!
