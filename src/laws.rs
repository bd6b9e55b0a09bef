//! Properties of the distribution that hold across inputs and calls.
use vstd::prelude::*;
use vstd::arithmetic::div_mod::{lemma_div_is_ordered, lemma_div_multiples_vanish, lemma_fundamental_div_mod, lemma_mod_bound};
use vstd::arithmetic::mul::lemma_mul_is_distributive_add;
use crate::distribution::{
    CrankEvents, PageInput, Transfer, day_of, eligible_bps, investor_fee_quote, open_day, page_payouts, page_result,
    take_in_fees,
};
use crate::error::ErrorCode;
use crate::math::{bps_of, fit_u64, pro_rata};
use crate::state::{DailyProgress, InvestorFeePositionOwner, PolicyConfig, SECONDS_PER_DAY};
use crate::streamflow::{
    AccountData, StreamflowStream, lemma_locked_amounts_ok, locked_amounts, locked_at, sum, unsigned_time,
    vested_unclamped,
};

verus! {

/// Zero basis points of any amount is zero.
pub proof fn law_apply_bps_zero(amount: u64)
    ensures
        fit_u64(bps_of(amount as int, 0)) == Ok::<u64, ErrorCode>(0),
{
}

/// A zero total weight gives a zero share, whatever the amount and weight.
pub proof fn law_pro_rata_zero_total_weight(amount: u64, weight: u64)
    ensures
        fit_u64(pro_rata(amount as int, weight as int, 0)) == Ok::<u64, ErrorCode>(0),
{
}

proof fn lemma_floor_div_add(a: int, b: int, d: int)
    requires
        0 <= a,
        0 <= b,
        0 < d,
    ensures
        a / d + b / d <= (a + b) / d,
{
    lemma_fundamental_div_mod(a, d);
    lemma_fundamental_div_mod(b, d);
    lemma_fundamental_div_mod(a + b, d);
    lemma_mod_bound(a, d);
    lemma_mod_bound(b, d);
    lemma_mod_bound(a + b, d);
    let x = a / d + b / d;
    let q = (a + b) / d;
    assert(x <= q) by (nonlinear_arith)
        requires
            a == d * (a / d) + a % d,
            b == d * (b / d) + b % d,
            a + b == d * q + (a + b) % d,
            0 <= a % d,
            0 <= b % d,
            (a + b) % d < d,
            0 < d,
            x == a / d + b / d,
    ;
}

proof fn lemma_sum_nonneg(s: Seq<u64>)
    ensures
        sum(s) >= 0,
    decreases s.len(),
{
    if s.len() > 0 {
        lemma_sum_nonneg(s.drop_last());
    }
}

/// The pro-rata payouts of a page, paid or withheld as dust, add up to no
/// more than the page's fee share of the batch's locked amount.
pub proof fn lemma_page_payouts_bounded(
    locks: Seq<u64>,
    dests: Seq<AccountData>,
    fee: u64,
    locked_total: u64,
    min_payout: u64,
    carry: u64,
)
    requires
        locked_total > 0,
        page_payouts(locks, dests, fee, locked_total, min_payout, carry) is Ok,
    ensures
        ({
            let (paid, dust, _) = page_payouts(locks, dests, fee, locked_total, min_payout, carry)->Ok_0;
            carry <= dust && paid + dust <= carry + (fee * sum(locks)) / (locked_total as int)
        }),
    decreases locks.len(),
{
    if locks.len() > 0 {
        let rest = locks.drop_last();
        let l = locks[locks.len() - 1];
        lemma_page_payouts_bounded(rest, dests, fee, locked_total, min_payout, carry);
        lemma_sum_nonneg(rest);
        let a = fee * sum(rest);
        let b = fee * l;
        assert(a >= 0 && b >= 0) by (nonlinear_arith)
            requires
                fee >= 0,
                sum(rest) >= 0,
                l >= 0,
                a == fee * sum(rest),
                b == fee * l,
        ;
        lemma_floor_div_add(a, b, locked_total as int);
        lemma_mul_is_distributive_add(fee as int, sum(rest), l as int);
    }
}

/// The fee share of a page never exceeds what is available to it.
proof fn lemma_fee_within_available(p: DailyProgress, policy: PolicyConfig, locked_total: u64)
    requires
        policy.wf(),
        investor_fee_quote(p, policy, locked_total) is Ok,
    ensures
        investor_fee_quote(p, policy, locked_total)->Ok_0 <= p.total_quote_claimed_today
            + p.carry_over_lamports,
{
    let available = p.total_quote_claimed_today + p.carry_over_lamports;
    let f = eligible_bps(policy, locked_total)->Ok_0;
    assert(f <= 10000);
    assert(available * f <= available * 10000) by (nonlinear_arith)
        requires
            0 <= available,
            0 <= f <= 10000,
    ;
    lemma_div_is_ordered(available * f, available * 10000, 10000);
    lemma_div_multiples_vanish(available, 10000);
    assert(available * 10000 == 10000 * available) by (nonlinear_arith);
}

/// A page on a record that satisfies its invariant leaves a record that
/// satisfies it.
pub proof fn law_page_preserves_wf(
    p: DailyProgress,
    policy: PolicyConfig,
    owner: InvestorFeePositionOwner,
    input: PageInput,
    total_pages: u16,
    n_investors: nat,
)
    requires
        p.wf(),
        page_result(p, policy, owner, input, total_pages, n_investors) is Ok,
    ensures
        page_result(p, policy, owner, input, total_pages, n_investors)->Ok_0.0.wf(),
{
}

/// Once 24 hours have not yet passed since the current window opened, a
/// call in another day fails with the temporal gate and does not move on.
pub proof fn law_gate_before_next_window(
    p: DailyProgress,
    policy: PolicyConfig,
    owner: InvestorFeePositionOwner,
    input: PageInput,
    total_pages: u16,
    n_investors: nat,
)
    requires
        total_pages > 0,
        n_investors > 0,
        input.now >= 0,
        !p.is_unused(),
        day_of(input.now) != p.day_id,
        input.now < p.window_start + SECONDS_PER_DAY,
    ensures
        page_result(p, policy, owner, input, total_pages, n_investors) == Err::<
            (DailyProgress, Seq<Transfer>, CrankEvents),
            ErrorCode,
        >(ErrorCode::TooEarlyForNextDay),
{
}

/// Once a day is finalized, every further call in that day fails with the
/// state conflict (and so changes nothing and transfers nothing).
pub proof fn law_finalized_day_refuses(
    p: DailyProgress,
    policy: PolicyConfig,
    owner: InvestorFeePositionOwner,
    input: PageInput,
    total_pages: u16,
    n_investors: nat,
)
    requires
        total_pages > 0,
        n_investors > 0,
        input.now >= 0,
        !p.is_unused(),
        p.is_finalized,
        day_of(input.now) == p.day_id,
    ensures
        page_result(p, policy, owner, input, total_pages, n_investors) == Err::<
            (DailyProgress, Seq<Transfer>, CrankEvents),
            ErrorCode,
        >(ErrorCode::DayAlreadyFinalized),
{
}

/// When nothing in the page's batch is locked, the one call pays no investor,
/// jumps the cursor to the last page, and closes the day with every claimed
/// fee going to the creator.
pub proof fn law_zero_locked_closes_day(
    p: DailyProgress,
    policy: PolicyConfig,
    owner: InvestorFeePositionOwner,
    input: PageInput,
    total_pages: u16,
    n_investors: nat,
)
    requires
        p.wf(),
        open_day(p, owner.vault, input.progress_bump, input.now, total_pages, n_investors) is Ok,
        input.treasury_base_amount == 0,
        input.remaining_accounts@.len() == 2 * n_investors,
        locked_amounts(input.remaining_accounts@.take(n_investors as int), unsigned_time(input.now)) is Ok,
        sum(
            locked_amounts(
                input.remaining_accounts@.take(n_investors as int),
                unsigned_time(input.now),
            )->Ok_0,
        ) == 0,
    ensures
        page_result(p, policy, owner, input, total_pages, n_investors) is Ok,
        ({
            let (q, transfers, events) = page_result(p, policy, owner, input, total_pages, n_investors)->Ok_0;
            &&& q.current_page == q.total_pages
            &&& q.is_finalized
            &&& q.investor_distributed_today == 0
            &&& q.creator_distributed_today == q.total_quote_claimed_today
            &&& transfers == (if q.total_quote_claimed_today > 0 {
                seq![Transfer { to: input.creator_quote_ata, amount: q.total_quote_claimed_today }]
            } else {
                Seq::<Transfer>::empty()
            })
            &&& events.payout_page is None
        }),
{
}

/// Conservation: a call that closes the day records investor and creator
/// payouts that together make up exactly the day's claimed fees, whenever
/// the day's pages did not pay investors more than was claimed.
pub proof fn law_closing_conserves_claimed_fees(
    p: DailyProgress,
    policy: PolicyConfig,
    owner: InvestorFeePositionOwner,
    input: PageInput,
    total_pages: u16,
    n_investors: nat,
)
    requires
        p.wf(),
        page_result(p, policy, owner, input, total_pages, n_investors) is Ok,
        page_result(p, policy, owner, input, total_pages, n_investors)->Ok_0.0.is_finalized,
        page_result(p, policy, owner, input, total_pages, n_investors)->Ok_0.0.investor_distributed_today
            <= page_result(p, policy, owner, input, total_pages, n_investors)->Ok_0.0.total_quote_claimed_today,
    ensures
        ({
            let q = page_result(p, policy, owner, input, total_pages, n_investors)->Ok_0.0;
            q.investor_distributed_today + q.creator_distributed_today == q.total_quote_claimed_today
        }),
{
}

/// Conservation for a day processed in one page: the call that opens the
/// day and closes it pays investors and creator exactly the claimed fees.
pub proof fn law_single_page_day_conserves(
    p: DailyProgress,
    policy: PolicyConfig,
    owner: InvestorFeePositionOwner,
    input: PageInput,
    total_pages: u16,
    n_investors: nat,
)
    requires
        p.wf(),
        policy.wf(),
        page_result(p, policy, owner, input, total_pages, n_investors) is Ok,
        open_day(p, owner.vault, input.progress_bump, input.now, total_pages, n_investors)->Ok_0.current_page
            == 0,
        page_result(p, policy, owner, input, total_pages, n_investors)->Ok_0.0.is_finalized,
    ensures
        ({
            let q = page_result(p, policy, owner, input, total_pages, n_investors)->Ok_0.0;
            q.investor_distributed_today + q.creator_distributed_today == q.total_quote_claimed_today
        }),
{
    let opened = open_day(p, owner.vault, input.progress_bump, input.now, total_pages, n_investors)->Ok_0;
    let funded = take_in_fees(opened, input.treasury_quote_amount);
    let accounts = input.remaining_accounts@;
    let t = unsigned_time(input.now);
    let streams = accounts.take(n_investors as int);
    let locks = locked_amounts(streams, t)->Ok_0;
    lemma_locked_amounts_ok(streams, t);
    lemma_sum_nonneg(locks);
    let locked_total = sum(locks) as u64;
    assert(funded.investor_distributed_today == 0);
    assert(funded.carry_over_lamports == 0);
    if locked_total != 0 {
        let fee = investor_fee_quote(funded, policy, locked_total)->Ok_0;
        lemma_fee_within_available(funded, policy, locked_total);
        let dests = accounts.subrange(n_investors as int, accounts.len() as int);
        lemma_page_payouts_bounded(locks, dests, fee, locked_total, policy.min_payout_lamports, 0);
        lemma_div_multiples_vanish(fee as int, locked_total as int);
        assert(fee * sum(locks) == locked_total * fee) by (nonlinear_arith)
            requires
                sum(locks) == locked_total,
        ;
    }
    law_closing_conserves_claimed_fees(p, policy, owner, input, total_pages, n_investors);
}

/// Before its start, an active record locks its whole deposit less what was
/// withdrawn.
pub proof fn law_locked_before_start(s: StreamflowStream, t: u64)
    requires
        s.canceled_at == 0,
        t < s.start_time,
        s.withdrawn_amount <= s.deposited_amount,
    ensures
        locked_at(s.terms(), t) == Ok::<u64, ErrorCode>((s.deposited_amount - s.withdrawn_amount) as u64),
{
}

/// At or after its end (and not before its start), a record locks nothing.
pub proof fn law_nothing_locked_after_end(s: StreamflowStream, t: u64)
    requires
        t >= s.end_time,
        t >= s.start_time || s.canceled_at > 0 || s.withdrawn_amount == s.deposited_amount,
    ensures
        locked_at(s.terms(), t) == Ok::<u64, ErrorCode>(0),
{
}

/// Exactly at the cliff, an active record has released its cliff amount and
/// nothing of the linear part yet.
pub proof fn law_locked_at_cliff(s: StreamflowStream, t: u64)
    requires
        s.canceled_at == 0,
        t == s.start_time + s.cliff,
        t < s.end_time,
        s.cliff_amount <= s.deposited_amount,
    ensures
        locked_at(s.terms(), t) == Ok::<u64, ErrorCode>((s.deposited_amount - s.cliff_amount) as u64),
{
    let periods: int = if s.period == 0 {
        0
    } else {
        (t - s.start_time - s.cliff) / (s.period as int)
    };
    assert(periods == 0);
    assert(periods * s.amount_per_period == 0);
    assert(vested_unclamped(s.terms(), t - s.start_time) == Some(s.cliff_amount as int));
}

/// A cancelled record locks nothing, at any time.
pub proof fn law_cancelled_locks_nothing(s: StreamflowStream, t: u64)
    requires
        s.canceled_at > 0,
    ensures
        locked_at(s.terms(), t) == Ok::<u64, ErrorCode>(0),
{
}

} // verus!
