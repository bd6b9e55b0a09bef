//! One page of the daily distribution: window entry, fee intake, locked-amount
//! aggregation, pro-rata payout with dust carry, and the closing sweep to the
//! creator.
//!
//! A page is computed in full before anything changes: on failure the
//! progress record is left as it was and no transfer is asked for.
use vstd::prelude::*;
use crate::error::ErrorCode;
use crate::events::{CreatorPayoutDayClosed, DailyProgressReset, InvestorPayoutPage, QuoteFeesClaimed};
use crate::math::{apply_bps, bps_of, calculate_f_locked_bps, calculate_pro_rata_share, fit_u64, locked_bps, pro_rata};
use crate::state::{DailyProgress, InvestorFeePositionOwner, PolicyConfig, SECONDS_PER_DAY, window_start_of};
use crate::streamflow::{AccountData, collect_locked_amounts, lemma_locked_amounts_ok, locked_amounts, sum, unsigned_time};
use crate::Pubkey;

verus! {

/// One transfer of quote tokens out of the treasury.
#[derive(Clone, Copy, Debug)]
pub struct Transfer {
    pub to: Pubkey,
    pub amount: u64,
}

/// The records that one page emits, one per phase that took place.
#[derive(Clone, Copy, Debug)]
pub struct CrankEvents {
    pub day_reset: Option<DailyProgressReset>,
    pub fees_claimed: Option<QuoteFeesClaimed>,
    pub payout_page: Option<InvestorPayoutPage>,
    pub day_closed: Option<CreatorPayoutDayClosed>,
}

/// What the host reads before a page runs and hands over as values.
#[derive(Debug)]
pub struct PageInput {
    /// The ledger clock, in unix seconds.
    pub now: i64,
    /// Bump recorded on the progress record when it is first used.
    pub progress_bump: u8,
    /// The treasury's quote balance (after any claim of the fees).
    pub treasury_quote_amount: u64,
    /// The treasury's base balance, which must be empty.
    pub treasury_base_amount: u64,
    /// The creator's destination for the closing remainder.
    pub creator_quote_ata: Pubkey,
    /// The vesting record of each investor of the page, then each investor's
    /// payout destination, in the same order.
    pub remaining_accounts: Vec<AccountData>,
}

/// What a successful page asks the host to carry out and to publish.
#[derive(Debug)]
pub struct CrankOutcome {
    /// Transfers out of the treasury, in order.
    pub transfers: Vec<Transfer>,
    pub events: CrankEvents,
}

/// The day that contains time `now` (for `now >= 0`).
pub open spec fn day_of(now: i64) -> u64 {
    (now / SECONDS_PER_DAY) as u64
}

/// The smaller of two amounts.
pub open spec fn min_u64(a: u64, b: u64) -> u64 {
    if a < b {
        a
    } else {
        b
    }
}

/// Entering the day of `now`: a record never used adopts it at once; another
/// day is adopted only once 24 hours have passed since the current window
/// opened, with every per-day counter reset; the same day goes on as it is.
pub open spec fn enter_day(p: DailyProgress, vault: Pubkey, bump: u8, now: i64, total_pages: u16) -> Result<
    DailyProgress,
    ErrorCode,
> {
    let day = day_of(now);
    if p.day_id == 0 {
        Ok(DailyProgress { bump, vault, total_pages, ..p.reset_spec(day, now) })
    } else if p.day_id != day {
        if now < p.window_start + SECONDS_PER_DAY {
            Err(ErrorCode::TooEarlyForNextDay)
        } else {
            Ok(DailyProgress { total_pages, ..p.reset_spec(day, now) })
        }
    } else {
        Ok(p)
    }
}

/// The checks and the window entry that open a page.
pub open spec fn open_day(
    p: DailyProgress,
    vault: Pubkey,
    bump: u8,
    now: i64,
    total_pages: u16,
    n_investors: nat,
) -> Result<DailyProgress, ErrorCode> {
    if total_pages == 0 {
        Err(ErrorCode::InvalidTotalPages)
    } else if n_investors == 0 {
        Err(ErrorCode::InvalidInvestorPage)
    } else if now < 0 {
        Err(ErrorCode::ArithmeticOverflow)
    } else {
        match enter_day(p, vault, bump, now, total_pages) {
            Err(e) => Err(e),
            Ok(q) => if q.is_finalized {
                Err(ErrorCode::DayAlreadyFinalized)
            } else if !q.within_window(now) {
                Err(ErrorCode::OutsideWindow)
            } else {
                Ok(q)
            },
        }
    }
}

/// The first page of a day records the treasury's balance as the day's
/// claimed fees and starts with no carried dust.
pub open spec fn take_in_fees(p: DailyProgress, quote_amount: u64) -> DailyProgress {
    if p.current_page == 0 {
        DailyProgress { total_quote_claimed_today: quote_amount, carry_over_lamports: 0, ..p }
    } else {
        p
    }
}

/// The investors' eligible share in basis points: the locked fraction,
/// bounded by the policy's share.
pub open spec fn eligible_bps(policy: PolicyConfig, locked_total: u64) -> Result<u64, ErrorCode> {
    if policy.y0_total_streamed == 0 {
        Err(ErrorCode::InvalidY0Amount)
    } else {
        match fit_u64(locked_bps(locked_total as int, policy.y0_total_streamed as int)) {
            Err(e) => Err(e),
            Ok(f) => Ok(min_u64(f, policy.investor_fee_share_bps as u64)),
        }
    }
}

/// What the page may pay to its investors: the eligible share of the claimed
/// fees plus the carried dust, clamped to what the daily cap still allows.
pub open spec fn investor_fee_quote(p: DailyProgress, policy: PolicyConfig, locked_total: u64) -> Result<
    u64,
    ErrorCode,
> {
    match eligible_bps(policy, locked_total) {
        Err(e) => Err(e),
        Ok(bps) => {
            let available = p.total_quote_claimed_today + p.carry_over_lamports;
            if available > u64::MAX {
                Err(ErrorCode::ArithmeticOverflow)
            } else {
                match fit_u64(bps_of(available, bps as int)) {
                    Err(e) => Err(e),
                    Ok(quote) => match policy.daily_cap_lamports {
                        None => Ok(quote),
                        Some(cap) => if p.investor_distributed_today >= cap {
                            Err(ErrorCode::DailyCapReached)
                        } else {
                            Ok(min_u64(quote, (cap - p.investor_distributed_today) as u64))
                        },
                    },
                }
            }
        },
    }
}

/// The pro-rata payouts of the page's investors in order: each at least
/// `min_payout` is transferred to its destination, each below is added to
/// the dust that started at `carry`. The result is the total paid, the dust,
/// and the transfers.
pub open spec fn page_payouts(
    locks: Seq<u64>,
    dests: Seq<AccountData>,
    fee: u64,
    locked_total: u64,
    min_payout: u64,
    carry: u64,
) -> Result<(u64, u64, Seq<Transfer>), ErrorCode>
    decreases locks.len(),
{
    if locks.len() == 0 {
        Ok((0, carry, Seq::empty()))
    } else {
        let k = locks.len() - 1;
        match page_payouts(locks.drop_last(), dests, fee, locked_total, min_payout, carry) {
            Err(e) => Err(e),
            Ok((paid, dust, transfers)) => match fit_u64(
                pro_rata(fee as int, locks[k] as int, locked_total as int),
            ) {
                Err(e) => Err(e),
                Ok(payout) => if payout >= min_payout {
                    if paid + payout > u64::MAX {
                        Err(ErrorCode::ArithmeticOverflow)
                    } else {
                        Ok(
                            (
                                (paid + payout) as u64,
                                dust,
                                transfers.push(Transfer { to: dests[k].key, amount: payout }),
                            ),
                        )
                    }
                } else {
                    if dust + payout > u64::MAX {
                        Err(ErrorCode::ArithmeticOverflow)
                    } else {
                        Ok((paid, (dust + payout) as u64, transfers))
                    }
                },
            },
        }
    }
}

/// The cursor after one more page, saturating at the largest page number.
pub open spec fn next_page(page: u16) -> u16 {
    if page == u16::MAX {
        page
    } else {
        (page + 1) as u16
    }
}

/// The investor part of a page. With nothing locked the page pays no
/// investor and jumps the cursor to the last page; otherwise it pays pro
/// rata, carries the dust, and advances the cursor by one.
pub open spec fn pay_page(
    p: DailyProgress,
    policy: PolicyConfig,
    locks: Seq<u64>,
    dests: Seq<AccountData>,
    now: i64,
    n_investors: nat,
) -> Result<(DailyProgress, Seq<Transfer>, Option<InvestorPayoutPage>), ErrorCode> {
    let locked_total = sum(locks) as u64;
    if locked_total == 0 {
        Ok(
            (
                DailyProgress { current_page: p.total_pages, investor_distributed_today: 0, ..p },
                Seq::empty(),
                None,
            ),
        )
    } else {
        match investor_fee_quote(p, policy, locked_total) {
            Err(e) => Err(e),
            Ok(fee) => match page_payouts(
                locks,
                dests,
                fee,
                locked_total,
                policy.min_payout_lamports,
                p.carry_over_lamports,
            ) {
                Err(e) => Err(e),
                Ok((paid, dust, transfers)) => if p.investor_distributed_today + paid > u64::MAX {
                    Err(ErrorCode::ArithmeticOverflow)
                } else {
                    let q = DailyProgress {
                        investor_distributed_today: (p.investor_distributed_today + paid) as u64,
                        carry_over_lamports: dust,
                        current_page: next_page(p.current_page),
                        last_crank_ts: now,
                        ..p
                    };
                    Ok(
                        (
                            q,
                            transfers,
                            Some(
                                InvestorPayoutPage {
                                    day_id: day_of(now),
                                    page: q.current_page,
                                    investors_paid: #[verifier::truncate] (n_investors as u16),
                                    total_distributed: paid,
                                    dust_carried: dust,
                                    timestamp: now,
                                },
                            ),
                        ),
                    )
                },
            },
        }
    }
}

/// What the creator receives when the day closes: the claimed fees not paid
/// to investors, or nothing.
pub open spec fn creator_remainder(p: DailyProgress) -> u64 {
    if p.total_quote_claimed_today > p.investor_distributed_today {
        (p.total_quote_claimed_today - p.investor_distributed_today) as u64
    } else {
        0
    }
}

/// Closing the day once every declared page is done: the remainder goes to
/// the creator and the day is finalized.
pub open spec fn close_day(p: DailyProgress, creator: Pubkey, now: i64) -> (
    DailyProgress,
    Seq<Transfer>,
    Option<CreatorPayoutDayClosed>,
) {
    if p.current_page >= p.total_pages {
        let rem = creator_remainder(p);
        (
            DailyProgress {
                creator_distributed_today: if rem > 0 {
                    rem
                } else {
                    p.creator_distributed_today
                },
                is_finalized: true,
                ..p
            },
            if rem > 0 {
                seq![Transfer { to: creator, amount: rem }]
            } else {
                Seq::empty()
            },
            Some(
                CreatorPayoutDayClosed {
                    day_id: day_of(now),
                    creator_amount: rem,
                    total_investors_paid: p.investor_distributed_today,
                    total_pages: p.total_pages,
                    timestamp: now,
                },
            ),
        )
    } else {
        (p, Seq::empty(), None)
    }
}

/// The record of a move to a new day, when the page moves the record on from
/// a day that was in use.
pub open spec fn reset_event(p: DailyProgress, vault: Pubkey, now: i64) -> Option<DailyProgressReset> {
    if p.day_id != 0 && p.day_id != day_of(now) {
        Some(DailyProgressReset { vault, old_day_id: p.day_id, new_day_id: day_of(now), timestamp: now })
    } else {
        None
    }
}

/// The record of the fee intake, when the page is the day's first.
pub open spec fn claim_event(opened: DailyProgress, quote_amount: u64, position: Pubkey, now: i64) -> Option<
    QuoteFeesClaimed,
> {
    if opened.current_page == 0 {
        Some(
            QuoteFeesClaimed {
                day_id: day_of(now),
                amount_claimed: quote_amount,
                position,
                timestamp: now,
            },
        )
    } else {
        None
    }
}

/// The whole of one page: the new progress record, the transfers, and the
/// events; or the error that aborts the page.
pub open spec fn page_result(
    p: DailyProgress,
    policy: PolicyConfig,
    owner: InvestorFeePositionOwner,
    input: PageInput,
    total_pages: u16,
    n_investors: nat,
) -> Result<(DailyProgress, Seq<Transfer>, CrankEvents), ErrorCode> {
    let now = input.now;
    match open_day(p, owner.vault, input.progress_bump, now, total_pages, n_investors) {
        Err(e) => Err(e),
        Ok(opened) => {
            let reset = reset_event(p, owner.vault, now);
            let claimed = claim_event(opened, input.treasury_quote_amount, owner.lock_escrow, now);
            let funded = take_in_fees(opened, input.treasury_quote_amount);
            let accounts = input.remaining_accounts@;
            if input.treasury_base_amount != 0 {
                Err(ErrorCode::BaseFeesDetected)
            } else if accounts.len() != 2 * n_investors {
                Err(ErrorCode::InvalidInvestorPage)
            } else {
                match locked_amounts(accounts.take(n_investors as int), unsigned_time(now)) {
                    Err(e) => Err(e),
                    Ok(locks) => match pay_page(
                        funded,
                        policy,
                        locks,
                        accounts.subrange(n_investors as int, accounts.len() as int),
                        now,
                        n_investors,
                    ) {
                        Err(e) => Err(e),
                        Ok((paid, transfers, payout_page)) => {
                            let (closed, creator_transfers, day_closed) = close_day(
                                paid,
                                input.creator_quote_ata,
                                now,
                            );
                            Ok(
                                (
                                    closed,
                                    transfers + creator_transfers,
                                    CrankEvents {
                                        day_reset: reset,
                                        fees_claimed: claimed,
                                        payout_page,
                                        day_closed,
                                    },
                                ),
                            )
                        },
                    },
                }
            }
        },
    }
}

pub(crate) fn open_day_checked(
    p: &DailyProgress,
    vault: &Pubkey,
    bump: u8,
    now: i64,
    total_pages: u16,
    n_investors: usize,
) -> (r: Result<(DailyProgress, Option<DailyProgressReset>), ErrorCode>)
    ensures
        match open_day(*p, *vault, bump, now, total_pages, n_investors as nat) {
            Ok(q) => r == Ok::<(DailyProgress, Option<DailyProgressReset>), ErrorCode>(
                (q, reset_event(*p, *vault, now)),
            ),
            Err(e) => r == Err::<(DailyProgress, Option<DailyProgressReset>), ErrorCode>(e),
        },
{
    if total_pages == 0 {
        return Err(ErrorCode::InvalidTotalPages);
    }
    if n_investors == 0 {
        return Err(ErrorCode::InvalidInvestorPage);
    }
    if now < 0 {
        return Err(ErrorCode::ArithmeticOverflow);
    }
    let day_id: u64 = (now as u64) / 86400;
    assert(day_id == day_of(now));
    assert(window_start_of(day_id) <= now);
    let mut q = *p;
    let mut reset: Option<DailyProgressReset> = None;
    if q.day_id == 0 {
        q.bump = bump;
        q.vault = *vault;
        q.reset_for_new_day(day_id, now);
        q.total_pages = total_pages;
    } else if q.day_id != day_id {
        if (now as i128) < (q.window_start as i128) + (SECONDS_PER_DAY as i128) {
            return Err(ErrorCode::TooEarlyForNextDay);
        }
        reset = Some(
            DailyProgressReset { vault: *vault, old_day_id: q.day_id, new_day_id: day_id, timestamp: now },
        );
        q.reset_for_new_day(day_id, now);
        q.total_pages = total_pages;
    }
    if q.is_finalized {
        return Err(ErrorCode::DayAlreadyFinalized);
    }
    if !q.is_within_window(now) {
        return Err(ErrorCode::OutsideWindow);
    }
    Ok((q, reset))
}

fn compute_investor_fee_quote(p: &DailyProgress, policy: &PolicyConfig, locked_total: u64) -> (r: Result<
    u64,
    ErrorCode,
>)
    ensures
        r == investor_fee_quote(*p, *policy, locked_total),
{
    let f_locked_bps = calculate_f_locked_bps(locked_total, policy.y0_total_streamed)?;
    let share = policy.investor_fee_share_bps as u64;
    let eligible = if f_locked_bps < share {
        f_locked_bps
    } else {
        share
    };
    let total_available = match p.total_quote_claimed_today.checked_add(p.carry_over_lamports) {
        Some(v) => v,
        None => {
            return Err(ErrorCode::ArithmeticOverflow);
        },
    };
    let mut quote = apply_bps(total_available, eligible as u16)?;
    match policy.daily_cap_lamports {
        Some(cap) => {
            let already_paid = p.investor_distributed_today;
            let remaining_cap = cap.saturating_sub(already_paid);
            if remaining_cap < quote {
                quote = remaining_cap;
            }
            if already_paid >= cap {
                return Err(ErrorCode::DailyCapReached);
            }
        },
        None => {},
    }
    Ok(quote)
}

/// A failure of the payouts of a prefix of the page is the failure of the
/// whole page.
proof fn lemma_page_payouts_prefix_err(
    locks: Seq<u64>,
    n: int,
    dests: Seq<AccountData>,
    fee: u64,
    locked_total: u64,
    min_payout: u64,
    carry: u64,
)
    requires
        0 <= n <= locks.len(),
        page_payouts(locks.take(n), dests, fee, locked_total, min_payout, carry) is Err,
    ensures
        page_payouts(locks, dests, fee, locked_total, min_payout, carry) == page_payouts(
            locks.take(n),
            dests,
            fee,
            locked_total,
            min_payout,
            carry,
        ),
    decreases locks.len() - n,
{
    if n < locks.len() {
        assert(locks.take(n + 1).drop_last() =~= locks.take(n));
        lemma_page_payouts_prefix_err(locks, n + 1, dests, fee, locked_total, min_payout, carry);
    } else {
        assert(locks.take(n) =~= locks);
    }
}

fn pay_page_exec(
    p: DailyProgress,
    policy: &PolicyConfig,
    locks: &Vec<u64>,
    locked_total: u64,
    dests: &[AccountData],
    now: i64,
    day_id: u64,
    n_investors: usize,
) -> (r: Result<(DailyProgress, Vec<Transfer>, Option<InvestorPayoutPage>), ErrorCode>)
    requires
        locked_total == sum(locks@),
        dests@.len() == locks@.len(),
        day_id == day_of(now),
    ensures
        match pay_page(p, *policy, locks@, dests@, now, n_investors as nat) {
            Ok((q, transfers, event)) => r is Ok && r->Ok_0.0 == q && r->Ok_0.1@ == transfers && r->Ok_0.2
                == event,
            Err(e) => r is Err && r->Err_0 == e,
        },
{
    if locked_total == 0 {
        let mut q = p;
        q.current_page = q.total_pages;
        q.investor_distributed_today = 0;
        return Ok((q, Vec::new(), None));
    }
    let fee = compute_investor_fee_quote(&p, policy, locked_total)?;
    let min_payout = policy.min_payout_lamports;
    let carry = p.carry_over_lamports;
    let mut paid: u64 = 0;
    let mut dust: u64 = carry;
    let mut transfers: Vec<Transfer> = Vec::new();
    let mut i: usize = 0;
    assert(locks@.take(0) =~= Seq::<u64>::empty());
    while i < locks.len()
        invariant
            0 <= i <= locks@.len(),
            dests@.len() == locks@.len(),
            locked_total == sum(locks@),
            locked_total != 0,
            investor_fee_quote(p, *policy, locked_total) == Ok::<u64, ErrorCode>(fee),
            min_payout == policy.min_payout_lamports,
            carry == p.carry_over_lamports,
            page_payouts(locks@.take(i as int), dests@, fee, locked_total, min_payout, carry) == Ok::<
                (u64, u64, Seq<Transfer>),
                ErrorCode,
            >((paid, dust, transfers@)),
        decreases locks@.len() - i,
    {
        assert(locks@.take(i + 1).drop_last() =~= locks@.take(i as int));
        let payout = match calculate_pro_rata_share(fee, locks[i], locked_total) {
            Ok(v) => v,
            Err(e) => {
                proof {
                    lemma_page_payouts_prefix_err(locks@, i + 1, dests@, fee, locked_total, min_payout, carry);
                }
                return Err(e);
            },
        };
        if payout >= min_payout {
            paid = match paid.checked_add(payout) {
                Some(v) => v,
                None => {
                    proof {
                        lemma_page_payouts_prefix_err(locks@, i + 1, dests@, fee, locked_total, min_payout, carry);
                    }
                    return Err(ErrorCode::ArithmeticOverflow);
                },
            };
            transfers.push(Transfer { to: dests[i].key, amount: payout });
        } else {
            dust = match dust.checked_add(payout) {
                Some(v) => v,
                None => {
                    proof {
                        lemma_page_payouts_prefix_err(locks@, i + 1, dests@, fee, locked_total, min_payout, carry);
                    }
                    return Err(ErrorCode::ArithmeticOverflow);
                },
            };
        }
        i = i + 1;
    }
    assert(locks@.take(i as int) =~= locks@);
    let distributed = match p.investor_distributed_today.checked_add(paid) {
        Some(v) => v,
        None => {
            return Err(ErrorCode::ArithmeticOverflow);
        },
    };
    let mut q = p;
    q.investor_distributed_today = distributed;
    q.carry_over_lamports = dust;
    q.current_page = q.current_page.saturating_add(1);
    q.last_crank_ts = now;
    let event = InvestorPayoutPage {
        day_id,
        page: q.current_page,
        investors_paid: #[verifier::truncate] (n_investors as u16),
        total_distributed: paid,
        dust_carried: dust,
        timestamp: now,
    };
    Ok((q, transfers, Some(event)))
}

fn close_day_exec(
    p: DailyProgress,
    creator: &Pubkey,
    now: i64,
    day_id: u64,
    transfers: &mut Vec<Transfer>,
) -> (r: (DailyProgress, Option<CreatorPayoutDayClosed>))
    requires
        day_id == day_of(now),
    ensures
        r.0 == close_day(p, *creator, now).0,
        final(transfers)@ == old(transfers)@ + close_day(p, *creator, now).1,
        r.1 == close_day(p, *creator, now).2,
{
    if p.current_page >= p.total_pages {
        let remainder = p.total_quote_claimed_today.saturating_sub(p.investor_distributed_today);
        let mut q = p;
        if remainder > 0 {
            transfers.push(Transfer { to: *creator, amount: remainder });
            q.creator_distributed_today = remainder;
        }
        q.is_finalized = true;
        let event = CreatorPayoutDayClosed {
            day_id,
            creator_amount: remainder,
            total_investors_paid: p.investor_distributed_today,
            total_pages: p.total_pages,
            timestamp: now,
        };
        assert(final(transfers)@ =~= old(transfers)@ + close_day(p, *creator, now).1);
        (q, Some(event))
    } else {
        assert(final(transfers)@ =~= old(transfers)@ + close_day(p, *creator, now).1);
        (p, None)
    }
}

/// Runs one page of the day's distribution against `progress`.
///
/// On success the record holds the page's result, and the outcome lists the
/// transfers that the host must make, in order, and the events to publish.
/// On failure the record is unchanged and nothing is to be transferred.
pub fn crank_page(
    progress: &mut DailyProgress,
    policy: &PolicyConfig,
    owner: &InvestorFeePositionOwner,
    input: &PageInput,
    total_pages: u16,
    n_investors: usize,
) -> (r: Result<CrankOutcome, ErrorCode>)
    ensures
        match page_result(*old(progress), *policy, *owner, *input, total_pages, n_investors as nat) {
            Ok((q, transfers, events)) => r is Ok && *final(progress) == q && r->Ok_0.transfers@
                == transfers && r->Ok_0.events == events,
            Err(e) => r is Err && r->Err_0 == e && *final(progress) == *old(progress),
        },
{
    let now = input.now;
    let (opened, day_reset) = open_day_checked(
        progress,
        &owner.vault,
        input.progress_bump,
        now,
        total_pages,
        n_investors,
    )?;
    let day_id: u64 = (now as u64) / 86400;
    let fees_claimed = if opened.current_page == 0 {
        Some(
            QuoteFeesClaimed {
                day_id,
                amount_claimed: input.treasury_quote_amount,
                position: owner.lock_escrow,
                timestamp: now,
            },
        )
    } else {
        None
    };
    let mut funded = opened;
    if funded.current_page == 0 {
        funded.total_quote_claimed_today = input.treasury_quote_amount;
        funded.carry_over_lamports = 0;
    }
    if input.treasury_base_amount != 0 {
        return Err(ErrorCode::BaseFeesDetected);
    }
    let accounts = input.remaining_accounts.as_slice();
    if accounts.len() as u128 != 2 * (n_investors as u128) {
        return Err(ErrorCode::InvalidInvestorPage);
    }
    let (streams, destinations) = accounts.split_at(n_investors);
    let (locks, locked_total) = collect_locked_amounts(streams, now)?;
    proof {
        lemma_locked_amounts_ok(streams@, unsigned_time(now));
    }
    let (paid, mut transfers, payout_page) = pay_page_exec(
        funded,
        policy,
        &locks,
        locked_total,
        destinations,
        now,
        day_id,
        n_investors,
    )?;
    let (closed, day_closed) = close_day_exec(paid, &input.creator_quote_ata, now, day_id, &mut transfers);
    *progress = closed;
    Ok(
        CrankOutcome {
            transfers,
            events: CrankEvents { day_reset, fees_claimed, payout_page, day_closed },
        },
    )
}

} // verus!
