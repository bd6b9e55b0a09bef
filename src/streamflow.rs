//! Vesting records of the external streaming program: decoding them from
//! account bytes and evaluating how much of each is still locked.
use vstd::prelude::*;
use crate::error::ErrorCode;
use crate::Pubkey;

verus! {

/// The streaming program's id, in its base58 spelling.
pub const STREAMFLOW_PROGRAM_ID: &'static str = "strmRqUCoQUgGUan5YhzUZa6KqdzwX5L6FpUxfmKg5m";

/// The streaming program's id as raw key bytes: the owner that every vesting
/// record account must have.
pub const STREAMFLOW_PROGRAM_KEY: [u8; 32] = [
    13, 9, 173, 48, 111, 241, 94, 119, 221, 49, 25, 188, 214, 231, 48, 241,
    93, 5, 29, 124, 9, 122, 122, 29, 0, 234, 65, 14, 238, 72, 231, 32,
];

/// Number of bytes that an encoded record occupies.
pub const STREAM_ENCODED_LEN: usize = 391;

/// A vesting record of the external streaming program (cliff + linear law).
#[derive(Clone, Copy, Debug)]
pub struct StreamflowStream {
    /// Magic bytes that identify the account type.
    pub magic: u64,
    pub version: u64,
    pub created_at: u64,
    /// Amount of tokens already withdrawn by the recipient.
    pub withdrawn_amount: u64,
    /// When the stream was cancelled; 0 while it is active.
    pub canceled_at: u64,
    /// When the stream ends.
    pub end_time: u64,
    pub last_withdrawn_at: u64,
    pub sender: Pubkey,
    pub sender_tokens: Pubkey,
    pub recipient: Pubkey,
    pub recipient_tokens: Pubkey,
    pub mint: Pubkey,
    pub escrow_tokens: Pubkey,
    /// When vesting starts.
    pub start_time: u64,
    /// Total amount deposited into the stream.
    pub deposited_amount: u64,
    /// Length of one linear vesting period, in seconds.
    pub period: u64,
    /// Amount released per elapsed period.
    pub amount_per_period: u64,
    /// Seconds after `start_time` before anything vests.
    pub cliff: u64,
    /// Amount released at once when the cliff passes.
    pub cliff_amount: u64,
    pub cancelable_by_sender: bool,
    pub cancelable_by_recipient: bool,
    pub automatic_withdrawal: bool,
    pub transferable_by_sender: bool,
    pub transferable_by_recipient: bool,
    pub can_topup: bool,
    pub stream_name: [u8; 64],
    pub can_pause: bool,
    pub pause_cumulative: u64,
    pub last_rate_change_time: u64,
    pub funds_unlocked_at_last_rate_change: u64,
}

/// The fields of a vesting record that decide how much of it is locked.
pub struct VestingTerms {
    pub withdrawn_amount: u64,
    pub canceled_at: u64,
    pub end_time: u64,
    pub start_time: u64,
    pub deposited_amount: u64,
    pub period: u64,
    pub amount_per_period: u64,
    pub cliff: u64,
    pub cliff_amount: u64,
}

impl StreamflowStream {
    pub open spec fn terms(&self) -> VestingTerms {
        VestingTerms {
            withdrawn_amount: self.withdrawn_amount,
            canceled_at: self.canceled_at,
            end_time: self.end_time,
            start_time: self.start_time,
            deposited_amount: self.deposited_amount,
            period: self.period,
            amount_per_period: self.amount_per_period,
            cliff: self.cliff,
            cliff_amount: self.cliff_amount,
        }
    }
}

/// What vests at elapsed time `elapsed` (seconds since start), before the
/// clamp to the deposit; `None` when the linear part or the sum overflows.
pub open spec fn vested_unclamped(s: VestingTerms, elapsed: int) -> Option<int> {
    if elapsed < s.cliff {
        Some(0)
    } else {
        let periods: int = if s.period == 0 { 0 } else { (elapsed - s.cliff) / (s.period as int) };
        let linear = periods * s.amount_per_period;
        if linear > u64::MAX || s.cliff_amount + linear > u64::MAX {
            None
        } else {
            Some(s.cliff_amount + linear)
        }
    }
}

/// The amount of stream `s` still locked at time `t`.
pub open spec fn locked_at(s: VestingTerms, t: u64) -> Result<u64, ErrorCode> {
    if s.canceled_at > 0 {
        Ok(0)
    } else if t < s.start_time {
        if s.withdrawn_amount <= s.deposited_amount {
            Ok((s.deposited_amount - s.withdrawn_amount) as u64)
        } else {
            Err(ErrorCode::ArithmeticUnderflow)
        }
    } else if t >= s.end_time {
        Ok(0)
    } else {
        match vested_unclamped(s, t - s.start_time) {
            None => Err(ErrorCode::ArithmeticOverflow),
            Some(v) => Ok(
                (s.deposited_amount - (if v < s.deposited_amount {
                    v
                } else {
                    s.deposited_amount as int
                })) as u64,
            ),
        }
    }
}

/// A timestamp read as unsigned seconds (two's-complement reinterpretation).
pub open spec fn unsigned_time(t: i64) -> u64 {
    #[verifier::truncate]
    (t as u64)
}

impl StreamflowStream {
    /// The magic number that identifies a streaming-program record.
    pub const MAGIC: u64 = 0x1a23f45e67b89c0d;

    /// The amount that is still locked at `current_time` (taken as an unsigned
    /// timestamp). A cancelled stream locks nothing; before the start the whole
    /// deposit less withdrawals is locked; at or after the end nothing is; in
    /// between the deposit less what vested under the cliff + linear law.
    pub fn calculate_locked_at_timestamp(&self, current_time: i64) -> (r: Result<u64, ErrorCode>)
        ensures
            r == locked_at(self.terms(), unsigned_time(current_time)),
    {
        let current_time = #[verifier::truncate] (current_time as u64);
        if self.canceled_at > 0 {
            return Ok(0);
        }
        if current_time < self.start_time {
            return match self.deposited_amount.checked_sub(self.withdrawn_amount) {
                Some(v) => Ok(v),
                None => Err(ErrorCode::ArithmeticUnderflow),
            };
        }
        if current_time >= self.end_time {
            return Ok(0);
        }
        let time_elapsed = current_time - self.start_time;
        let vested: u64 = if time_elapsed < self.cliff {
            0
        } else {
            let time_after_cliff = time_elapsed - self.cliff;
            let periods_elapsed: u64 = match time_after_cliff.checked_div(self.period) {
                Some(p) => p,
                None => 0,
            };
            let linear_vested = match periods_elapsed.checked_mul(self.amount_per_period) {
                Some(v) => v,
                None => {
                    return Err(ErrorCode::ArithmeticOverflow);
                },
            };
            let total = match self.cliff_amount.checked_add(linear_vested) {
                Some(v) => v,
                None => {
                    return Err(ErrorCode::ArithmeticOverflow);
                },
            };
            if total < self.deposited_amount {
                total
            } else {
                self.deposited_amount
            }
        };
        match self.deposited_amount.checked_sub(vested) {
            Some(v) => Ok(v),
            None => Err(ErrorCode::ArithmeticUnderflow),
        }
    }

    /// Checks the structural magic number.
    pub fn validate(&self) -> (r: Result<(), ErrorCode>)
        ensures
            r == (if self.magic == Self::MAGIC {
                Ok::<(), ErrorCode>(())
            } else {
                Err(ErrorCode::StreamflowAccountMismatch)
            }),
    {
        if self.magic == Self::MAGIC {
            Ok(())
        } else {
            Err(ErrorCode::StreamflowAccountMismatch)
        }
    }
}

/// An account as the host hands it over: its key, the program that owns it,
/// and its raw data.
#[derive(Debug)]
pub struct AccountData {
    pub key: Pubkey,
    pub owner: Pubkey,
    pub data: Vec<u8>,
}

/// The little-endian unsigned integer held by `d[o..o + 8]`.
pub open spec fn le_u64(d: Seq<u8>, o: int) -> int {
    d[o] + 256 * (d[o + 1] + 256 * (d[o + 2] + 256 * (d[o + 3] + 256 * (d[o + 4] + 256 * (d[o + 5]
        + 256 * (d[o + 6] + 256 * d[o + 7]))))))
}

/// A boolean is one byte that holds 0 or 1.
pub open spec fn bool_ok(d: Seq<u8>, o: int) -> bool {
    d[o] <= 1
}

/// The record's encoding: fixed-width little-endian integers, 32-byte keys,
/// one byte per boolean, and a 64-byte name, in declaration order.
pub open spec fn encodes(s: StreamflowStream, d: Seq<u8>) -> bool {
    &&& s.magic == le_u64(d, 0)
    &&& s.version == le_u64(d, 8)
    &&& s.created_at == le_u64(d, 16)
    &&& s.withdrawn_amount == le_u64(d, 24)
    &&& s.canceled_at == le_u64(d, 32)
    &&& s.end_time == le_u64(d, 40)
    &&& s.last_withdrawn_at == le_u64(d, 48)
    &&& s.sender@ == d.subrange(56, 88)
    &&& s.sender_tokens@ == d.subrange(88, 120)
    &&& s.recipient@ == d.subrange(120, 152)
    &&& s.recipient_tokens@ == d.subrange(152, 184)
    &&& s.mint@ == d.subrange(184, 216)
    &&& s.escrow_tokens@ == d.subrange(216, 248)
    &&& s.start_time == le_u64(d, 248)
    &&& s.deposited_amount == le_u64(d, 256)
    &&& s.period == le_u64(d, 264)
    &&& s.amount_per_period == le_u64(d, 272)
    &&& s.cliff == le_u64(d, 280)
    &&& s.cliff_amount == le_u64(d, 288)
    &&& s.cancelable_by_sender == (d[296] == 1)
    &&& s.cancelable_by_recipient == (d[297] == 1)
    &&& s.automatic_withdrawal == (d[298] == 1)
    &&& s.transferable_by_sender == (d[299] == 1)
    &&& s.transferable_by_recipient == (d[300] == 1)
    &&& s.can_topup == (d[301] == 1)
    &&& s.stream_name@ == d.subrange(302, 366)
    &&& s.can_pause == (d[366] == 1)
    &&& s.pause_cumulative == le_u64(d, 367)
    &&& s.last_rate_change_time == le_u64(d, 375)
    &&& s.funds_unlocked_at_last_rate_change == le_u64(d, 383)
}

/// Whether an account holds a genuine record: owned by the streaming program,
/// long enough, every boolean byte valid, and the magic number in place.
pub open spec fn is_stream_record(owner: Pubkey, d: Seq<u8>) -> bool {
    &&& owner@ == STREAMFLOW_PROGRAM_KEY@
    &&& d.len() >= STREAM_ENCODED_LEN
    &&& bool_ok(d, 296) && bool_ok(d, 297) && bool_ok(d, 298)
    &&& bool_ok(d, 299) && bool_ok(d, 300) && bool_ok(d, 301)
    &&& bool_ok(d, 366)
    &&& le_u64(d, 0) == StreamflowStream::MAGIC
}

/// Compares two keys byte by byte.
fn keys_equal(a: &Pubkey, b: &Pubkey) -> (r: bool)
    ensures
        r == (a@ == b@),
{
    let mut i: usize = 0;
    while i < 32
        invariant
            0 <= i <= 32,
            forall|j: int| 0 <= j < i ==> a@[j] == b@[j],
        decreases 32 - i,
    {
        if a[i] != b[i] {
            return false;
        }
        i = i + 1;
    }
    assert(a@ =~= b@);
    true
}

fn read_u64_le(d: &[u8], o: usize) -> (v: u64)
    requires
        o + 8 <= d@.len(),
    ensures
        v == le_u64(d@, o as int),
{
    d[o] as u64 + 256 * (d[o + 1] as u64 + 256 * (d[o + 2] as u64 + 256 * (d[o + 3] as u64 + 256 * (
    d[o + 4] as u64 + 256 * (d[o + 5] as u64 + 256 * (d[o + 6] as u64 + 256 * d[o + 7] as u64))))))
}

fn read_key(d: &[u8], o: usize) -> (k: Pubkey)
    requires
        o + 32 <= d@.len(),
    ensures
        k@ == d@.subrange(o as int, o + 32),
{
    let len = d.len();
    let mut k: Pubkey = [0u8; 32];
    let mut i: usize = 0;
    while i < 32
        invariant
            0 <= i <= 32,
            o + 32 <= len == d@.len(),
            k@.len() == 32,
            forall|j: int| 0 <= j < i ==> k@[j] == d@[o + j],
        decreases 32 - i,
    {
        k[i] = d[o + i];
        i = i + 1;
    }
    assert(k@ =~= d@.subrange(o as int, o + 32));
    k
}

fn read_name(d: &[u8], o: usize) -> (n: [u8; 64])
    requires
        o + 64 <= d@.len(),
    ensures
        n@ == d@.subrange(o as int, o + 64),
{
    let len = d.len();
    let mut n = [0u8; 64];
    let mut i: usize = 0;
    while i < 64
        invariant
            0 <= i <= 64,
            o + 64 <= len == d@.len(),
            n@.len() == 64,
            forall|j: int| 0 <= j < i ==> n@[j] == d@[o + j],
        decreases 64 - i,
    {
        n[i] = d[o + i];
        i = i + 1;
    }
    assert(n@ =~= d@.subrange(o as int, o + 64));
    n
}

/// Decodes a vesting record from an account, rejecting any account that the
/// streaming program does not own, that is too short or malformed, or whose
/// magic number is wrong.
pub fn parse_streamflow_stream(account: &AccountData) -> (r: Result<StreamflowStream, ErrorCode>)
    ensures
        r is Ok <==> is_stream_record(account.owner, account.data@),
        match r {
            Ok(s) => encodes(s, account.data@),
            Err(e) => e == ErrorCode::StreamflowAccountMismatch,
        },
{
    if !keys_equal(&account.owner, &STREAMFLOW_PROGRAM_KEY) {
        return Err(ErrorCode::StreamflowAccountMismatch);
    }
    let d = account.data.as_slice();
    if d.len() < STREAM_ENCODED_LEN {
        return Err(ErrorCode::StreamflowAccountMismatch);
    }
    if d[296] > 1 || d[297] > 1 || d[298] > 1 || d[299] > 1 || d[300] > 1 || d[301] > 1 || d[366] > 1 {
        return Err(ErrorCode::StreamflowAccountMismatch);
    }
    let stream = StreamflowStream {
        magic: read_u64_le(d, 0),
        version: read_u64_le(d, 8),
        created_at: read_u64_le(d, 16),
        withdrawn_amount: read_u64_le(d, 24),
        canceled_at: read_u64_le(d, 32),
        end_time: read_u64_le(d, 40),
        last_withdrawn_at: read_u64_le(d, 48),
        sender: read_key(d, 56),
        sender_tokens: read_key(d, 88),
        recipient: read_key(d, 120),
        recipient_tokens: read_key(d, 152),
        mint: read_key(d, 184),
        escrow_tokens: read_key(d, 216),
        start_time: read_u64_le(d, 248),
        deposited_amount: read_u64_le(d, 256),
        period: read_u64_le(d, 264),
        amount_per_period: read_u64_le(d, 272),
        cliff: read_u64_le(d, 280),
        cliff_amount: read_u64_le(d, 288),
        cancelable_by_sender: d[296] == 1,
        cancelable_by_recipient: d[297] == 1,
        automatic_withdrawal: d[298] == 1,
        transferable_by_sender: d[299] == 1,
        transferable_by_recipient: d[300] == 1,
        can_topup: d[301] == 1,
        stream_name: read_name(d, 302),
        can_pause: d[366] == 1,
        pause_cumulative: read_u64_le(d, 367),
        last_rate_change_time: read_u64_le(d, 375),
        funds_unlocked_at_last_rate_change: read_u64_le(d, 383),
    };
    match stream.validate() {
        Ok(()) => Ok(stream),
        Err(e) => Err(e),
    }
}

/// The vesting terms that the record bytes `d` encode.
pub open spec fn record_terms(d: Seq<u8>) -> VestingTerms {
    VestingTerms {
        withdrawn_amount: le_u64(d, 24) as u64,
        canceled_at: le_u64(d, 32) as u64,
        end_time: le_u64(d, 40) as u64,
        start_time: le_u64(d, 248) as u64,
        deposited_amount: le_u64(d, 256) as u64,
        period: le_u64(d, 264) as u64,
        amount_per_period: le_u64(d, 272) as u64,
        cliff: le_u64(d, 280) as u64,
        cliff_amount: le_u64(d, 288) as u64,
    }
}

/// The amount that account `a` locks at time `t`: a decoding failure, or the
/// locked amount of the record that it holds.
#[verifier::opaque]
pub open spec fn record_locked(a: AccountData, t: u64) -> Result<u64, ErrorCode> {
    if is_stream_record(a.owner, a.data@) {
        locked_at(record_terms(a.data@), t)
    } else {
        Err(ErrorCode::StreamflowAccountMismatch)
    }
}

/// The sum of a sequence of amounts.
pub open spec fn sum(s: Seq<u64>) -> int
    decreases s.len(),
{
    if s.len() == 0 {
        0
    } else {
        sum(s.drop_last()) + s.last()
    }
}

/// The locked amount of each account in turn, with a running total that must
/// stay within `u64`; the first failure in account order is the result.
pub open spec fn locked_amounts(accounts: Seq<AccountData>, t: u64) -> Result<Seq<u64>, ErrorCode>
    decreases accounts.len(),
{
    if accounts.len() == 0 {
        Ok(Seq::empty())
    } else {
        match locked_amounts(accounts.drop_last(), t) {
            Err(e) => Err(e),
            Ok(ls) => match record_locked(accounts.last(), t) {
                Err(e) => Err(e),
                Ok(l) => if sum(ls) + l > u64::MAX {
                    Err(ErrorCode::ArithmeticOverflow)
                } else {
                    Ok(ls.push(l))
                },
            },
        }
    }
}

/// A failure on a prefix of the accounts is the failure on all of them.
proof fn lemma_locked_amounts_prefix_err(accounts: Seq<AccountData>, n: int, t: u64)
    requires
        0 <= n <= accounts.len(),
        locked_amounts(accounts.take(n), t) is Err,
    ensures
        locked_amounts(accounts, t) == locked_amounts(accounts.take(n), t),
    decreases accounts.len() - n,
{
    if n < accounts.len() {
        let next = accounts.take(n + 1);
        assert(next.drop_last() =~= accounts.take(n));
        lemma_locked_amounts_prefix_err(accounts, n + 1, t);
    } else {
        assert(accounts.take(n) =~= accounts);
    }
}

/// A successful run has one amount per account, each within the total.
pub proof fn lemma_locked_amounts_ok(accounts: Seq<AccountData>, t: u64)
    requires
        locked_amounts(accounts, t) is Ok,
    ensures
        locked_amounts(accounts, t)->Ok_0.len() == accounts.len(),
        sum(locked_amounts(accounts, t)->Ok_0) <= u64::MAX,
    decreases accounts.len(),
{
    if accounts.len() > 0 {
        lemma_locked_amounts_ok(accounts.drop_last(), t);
        let ls = locked_amounts(accounts.drop_last(), t)->Ok_0;
        let l = record_locked(accounts.last(), t)->Ok_0;
        assert(ls.push(l).drop_last() =~= ls);
    }
}

/// Decodes one account and evaluates its locked amount at `current_time`.
pub fn account_locked_amount(account: &AccountData, current_time: i64) -> (r: Result<u64, ErrorCode>)
    ensures
        r == record_locked(*account, unsigned_time(current_time)),
{
    reveal(record_locked);
    let stream = parse_streamflow_stream(account)?;
    assert(stream.terms() == record_terms(account.data@));
    stream.calculate_locked_at_timestamp(current_time)
}

/// Evaluates the locked amount of every account at `current_time`, with
/// their total.
pub(crate) fn collect_locked_amounts(accounts: &[AccountData], current_time: i64) -> (r: Result<
    (Vec<u64>, u64),
    ErrorCode,
>)
    ensures
        match r {
            Ok((v, total)) => locked_amounts(accounts@, unsigned_time(current_time)) == Ok::<
                Seq<u64>,
                ErrorCode,
            >(v@) && total == sum(v@),
            Err(e) => locked_amounts(accounts@, unsigned_time(current_time)) == Err::<Seq<u64>, ErrorCode>(e),
        },
{
    let ghost t = unsigned_time(current_time);
    let mut amounts: Vec<u64> = Vec::new();
    let mut total: u64 = 0;
    let mut i: usize = 0;
    while i < accounts.len()
        invariant
            0 <= i <= accounts@.len(),
            t == unsigned_time(current_time),
            locked_amounts(accounts@.take(i as int), t) == Ok::<Seq<u64>, ErrorCode>(amounts@),
            total == sum(amounts@),
        decreases accounts@.len() - i,
    {
        let ghost prefix = accounts@.take(i + 1);
        assert(prefix.drop_last() =~= accounts@.take(i as int));
        assert(prefix.last() == accounts@[i as int]);
        let locked = match account_locked_amount(&accounts[i], current_time) {
            Ok(l) => l,
            Err(e) => {
                proof {
                    lemma_locked_amounts_prefix_err(accounts@, i + 1, t);
                }
                return Err(e);
            },
        };
        total = match total.checked_add(locked) {
            Some(v) => v,
            None => {
                proof {
                    lemma_locked_amounts_prefix_err(accounts@, i + 1, t);
                }
                return Err(ErrorCode::ArithmeticOverflow);
            },
        };
        let ghost before = amounts@;
        amounts.push(locked);
        proof {
            assert(amounts@.drop_last() =~= before);
        }
        i = i + 1;
    }
    assert(accounts@.take(i as int) =~= accounts@);
    Ok((amounts, total))
}

/// The total amount locked across the accounts at `current_time`; fails on
/// the first account that is not a valid record, whose evaluation fails, or
/// at which the running total overflows.
pub fn calculate_total_locked(stream_accounts: &[AccountData], current_time: i64) -> (r: Result<
    u64,
    ErrorCode,
>)
    ensures
        match locked_amounts(stream_accounts@, unsigned_time(current_time)) {
            Ok(amounts) => r == Ok::<u64, ErrorCode>(sum(amounts) as u64),
            Err(e) => r == Err::<u64, ErrorCode>(e),
        },
{
    let (_amounts, total) = collect_locked_amounts(stream_accounts, current_time)?;
    Ok(total)
}

} // verus!
