use vstd::prelude::*;

verus! {

/// One whole in basis points (100%).
pub const BPS_DENOMINATOR: u64 = 10_000;

/// Seconds in a 365-day year.
pub const SECONDS_PER_YEAR: i64 = 31_536_000;

/// Division rounding toward zero, as Rust's `/` on signed integers does (for `b != 0`).
pub open spec fn trunc_div(a: int, b: int) -> int {
    let q = abs_int(a) / abs_int(b);
    if (a >= 0) == (b > 0) {
        q
    } else {
        -q
    }
}

pub open spec fn abs_int(a: int) -> int {
    if a >= 0 {
        a
    } else {
        -a
    }
}

/// `a - b`, or 0 where that would be negative.
pub open spec fn sat_sub(a: int, b: int) -> int {
    if a >= b {
        a - b
    } else {
        0
    }
}

pub open spec fn min_int(a: int, b: int) -> int {
    if a <= b {
        a
    } else {
        b
    }
}

pub open spec fn fits_u64(x: int) -> bool {
    0 <= x <= u64::MAX
}

pub open spec fn fits_i64(x: int) -> bool {
    i64::MIN <= x <= i64::MAX
}

/// The share of `value` given by `bps` basis points, rounded down.
pub open spec fn bps_share(value: int, bps: int) -> int {
    value * bps / 10_000
}

/// `value * bps / 10_000` when the product fits in `u64`; `None` when it overflows.
pub fn checked_bps_share(value: u64, bps: u64) -> (r: Option<u64>)
    ensures
        r is Some <==> fits_u64(value * bps),
        r matches Some(x) ==> x == bps_share(value as int, bps as int),
{
    match value.checked_mul(bps) {
        Some(p) => Some(p / BPS_DENOMINATOR),
        None => None,
    }
}

/// A basis-point share of a value is at most the value when `bps <= 10_000`.
pub proof fn lemma_bps_share_bounded(value: int, bps: int)
    requires
        0 <= value,
        0 <= bps <= 10_000,
    ensures
        0 <= bps_share(value, bps) <= value,
{
    assert(0 <= value * bps <= value * 10_000) by (nonlinear_arith)
        requires
            0 <= value,
            0 <= bps <= 10_000,
    ;
}

/// `a / b` rounding toward zero, for a divisor of either sign.
pub fn signed_div(a: i64, b: i64) -> (q: i64)
    requires
        b != 0,
        !(b == -1 && a == i64::MIN),
    ensures
        q == trunc_div(a as int, b as int),
{
    let ua: u64 = if a >= 0 {
        a as u64
    } else {
        (-(a as i128)) as u64
    };
    let ub: u64 = if b >= 0 {
        b as u64
    } else {
        (-(b as i128)) as u64
    };
    let uq: u64 = ua / ub;
    assert(uq <= ua) by (nonlinear_arith)
        requires
            ub >= 1,
            uq == ua / ub,
    ;
    assert(ub >= 2 ==> uq * 2 <= ua) by (nonlinear_arith)
        requires
            uq == ua / ub,
    ;
    if (a >= 0) == (b > 0) {
        uq as i64
    } else {
        (-(uq as i128)) as i64
    }
}

/// The calendar year counter derived from a timestamp (whole 365-day years since the epoch),
/// as the fund stores it.
pub open spec fn year_of(ts: int) -> i16 {
    trunc_div(ts, SECONDS_PER_YEAR as int) as i16
}

/// Computes `year_of(ts)`.
pub fn year_index(ts: i64) -> (y: i16)
    ensures
        y == year_of(ts as int),
{
    (ts / SECONDS_PER_YEAR) as i16
}

} // verus!

verus! {

/// Part of a payout drawn from principal: principal is used first.
pub open spec fn principal_part(amount: int, principal: int) -> int {
    min_int(amount, principal)
}

/// Part of a payout drawn from yield, once principal is exhausted.
pub open spec fn yield_part(amount: int, principal: int) -> int {
    amount - principal_part(amount, principal)
}

/// Splits `amount` into the part taken from `principal` and the rest, taken from yield.
pub fn split_payout(amount: u64, principal: u64) -> (parts: (u64, u64))
    ensures
        parts.0 == principal_part(amount as int, principal as int),
        parts.1 == yield_part(amount as int, principal as int),
        parts.0 + parts.1 == amount,
{
    let from_principal = if amount < principal {
        amount
    } else {
        principal
    };
    (from_principal, amount - from_principal)
}

} // verus!
