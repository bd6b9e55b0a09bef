//! Fixed-point policy math: floor-rounded basis points and pro-rata shares.
use vstd::prelude::*;
use crate::error::ErrorCode;

verus! {

/// Basis points that make up the whole (100%).
pub const MAX_BPS: u16 = 10000;

/// An exact value as a `u64`, or an overflow error when it does not fit.
pub open spec fn fit_u64(v: int) -> Result<u64, ErrorCode> {
    if 0 <= v <= u64::MAX {
        Ok(v as u64)
    } else {
        Err(ErrorCode::ArithmeticOverflow)
    }
}

/// `floor(amount * weight / total_weight)`, and zero for an empty total weight.
pub open spec fn pro_rata(amount: int, weight: int, total_weight: int) -> int {
    if total_weight == 0 {
        0
    } else {
        (amount * weight) / total_weight
    }
}

/// `floor(amount * bps / 10000)`.
pub open spec fn bps_of(amount: int, bps: int) -> int {
    (amount * bps) / 10000
}

/// `floor(locked_total * 10000 / y0)`: the locked fraction in basis points.
pub open spec fn locked_bps(locked_total: int, y0: int) -> int {
    (locked_total * 10000) / y0
}

proof fn lemma_u64_product_fits_u128(a: u64, b: u64)
    ensures
        0 <= (a as int) * (b as int) <= u128::MAX,
{
    assert(0 <= (a as int) * (b as int) <= (u64::MAX as int) * (u64::MAX as int)) by (nonlinear_arith)
        requires
            0 <= a <= u64::MAX,
            0 <= b <= u64::MAX,
    ;
}

/// Pro-rata share with floor division: `floor(total_amount * individual_weight / total_weight)`.
/// A zero total weight gives a zero share.
pub fn calculate_pro_rata_share(total_amount: u64, individual_weight: u64, total_weight: u64) -> (r:
    Result<u64, ErrorCode>)
    ensures
        r == fit_u64(pro_rata(total_amount as int, individual_weight as int, total_weight as int)),
{
    if total_weight == 0 {
        return Ok(0);
    }
    proof {
        lemma_u64_product_fits_u128(total_amount, individual_weight);
    }
    let product: u128 = (total_amount as u128) * (individual_weight as u128);
    let result: u128 = product / (total_weight as u128);
    if result <= u64::MAX as u128 {
        Ok(result as u64)
    } else {
        Err(ErrorCode::ArithmeticOverflow)
    }
}

/// Applies basis points to an amount: `floor(amount * bps / 10000)`.
pub fn apply_bps(amount: u64, bps: u16) -> (r: Result<u64, ErrorCode>)
    ensures
        r == fit_u64(bps_of(amount as int, bps as int)),
{
    proof {
        lemma_u64_product_fits_u128(amount, bps as u64);
    }
    let product: u128 = (amount as u128) * (bps as u128);
    let result: u128 = product / 10000u128;
    if result <= u64::MAX as u128 {
        Ok(result as u64)
    } else {
        Err(ErrorCode::ArithmeticOverflow)
    }
}

/// The locked fraction of the initial allocation, in basis points:
/// `floor(locked_total * 10000 / y0)`. A zero `y0` is rejected.
pub fn calculate_f_locked_bps(locked_total: u64, y0: u64) -> (r: Result<u64, ErrorCode>)
    ensures
        y0 == 0 ==> r == Err::<u64, ErrorCode>(ErrorCode::InvalidY0Amount),
        y0 != 0 ==> r == fit_u64(locked_bps(locked_total as int, y0 as int)),
{
    if y0 == 0 {
        return Err(ErrorCode::InvalidY0Amount);
    }
    proof {
        lemma_u64_product_fits_u128(locked_total, 10000);
    }
    let product: u128 = (locked_total as u128) * 10000u128;
    let result: u128 = product / (y0 as u128);
    if result <= u64::MAX as u128 {
        Ok(result as u64)
    } else {
        Err(ErrorCode::ArithmeticOverflow)
    }
}

} // verus!
