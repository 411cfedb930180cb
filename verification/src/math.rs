use vstd::prelude::*;
use crate::errors::ErrorCode;

verus! {

/// `amount * numerator / denominator`, rounded down, over unbounded integers.
pub open spec fn proportional(amount: int, numerator: int, denominator: int) -> int {
    (amount * numerator) / denominator
}

/// `amount * numerator / denominator`, rounded down and computed without
/// intermediate overflow; refused when the denominator is zero or the result
/// does not fit in 64 bits.
pub fn get_proportional_amount(amount: u64, numerator: u64, denominator: u64) -> (r: Result<u64, ErrorCode>)
    ensures
        denominator == 0 ==> r == Err::<u64, ErrorCode>(ErrorCode::CalculationArithmeticException),
        denominator != 0 && proportional(amount as int, numerator as int, denominator as int) > u64::MAX
            ==> r == Err::<u64, ErrorCode>(ErrorCode::CalculationArithmeticException),
        denominator != 0 && proportional(amount as int, numerator as int, denominator as int) <= u64::MAX
            ==> r == Ok::<u64, ErrorCode>(proportional(amount as int, numerator as int, denominator as int) as u64),
{
    if denominator == 0 {
        return Err(ErrorCode::CalculationArithmeticException);
    }
    let a = amount as u128;
    let n = numerator as u128;
    let d = denominator as u128;
    assert(a * n <= u64::MAX * u64::MAX) by (nonlinear_arith)
        requires a <= u64::MAX, n <= u64::MAX;
    let p = a * n;
    let q = p / d;
    if q > u64::MAX as u128 {
        Err(ErrorCode::CalculationArithmeticException)
    } else {
        Ok(q as u64)
    }
}

/// A proportional share is never more than the whole when the ratio is at most one.
pub proof fn lemma_proportional_le_amount(amount: int, numerator: int, denominator: int)
    requires
        0 <= amount,
        0 <= numerator <= denominator,
        0 < denominator,
    ensures
        0 <= proportional(amount, numerator, denominator) <= amount,
{
    assert(amount * numerator <= amount * denominator) by (nonlinear_arith)
        requires 0 <= amount, numerator <= denominator;
    assert(0 <= amount * numerator) by (nonlinear_arith)
        requires 0 <= amount, 0 <= numerator;
    assert((amount * numerator) / denominator <= (amount * denominator) / denominator) by (nonlinear_arith)
        requires amount * numerator <= amount * denominator, 0 < denominator;
    assert((amount * denominator) / denominator == amount) by (nonlinear_arith)
        requires 0 < denominator;
    assert(0 <= (amount * numerator) / denominator) by (nonlinear_arith)
        requires 0 <= amount * numerator, 0 < denominator;
}

/// `x / 2` rounded up (`u64::div_ceil(x, 2)`).
pub fn div_ceil_2(x: u64) -> (r: u64)
    ensures
        r == (x as int + 1) / 2,
{
    x / 2 + x % 2
}

/// The part of a token's net operation reserve above zero, as an amount
/// (`u64::try_from(net.max(0))`).
pub fn reserve_surplus(net_operation_reserved_amount: i128) -> (r: Result<u64, ErrorCode>)
    ensures
        net_operation_reserved_amount <= 0 ==> r == Ok::<u64, ErrorCode>(0),
        0 < net_operation_reserved_amount <= u64::MAX ==> r == Ok::<u64, ErrorCode>(net_operation_reserved_amount as u64),
        net_operation_reserved_amount > u64::MAX ==> r == Err::<u64, ErrorCode>(ErrorCode::CalculationArithmeticException),
{
    if net_operation_reserved_amount <= 0 {
        Ok(0)
    } else if net_operation_reserved_amount <= u64::MAX as i128 {
        Ok(net_operation_reserved_amount as u64)
    } else {
        Err(ErrorCode::CalculationArithmeticException)
    }
}

/// The part of a token's net operation reserve below zero, as a positive
/// amount (`u64::try_from(-net.min(0))`).
pub fn reserve_deficit(net_operation_reserved_amount: i128) -> (r: Result<u64, ErrorCode>)
    ensures
        net_operation_reserved_amount >= 0 ==> r == Ok::<u64, ErrorCode>(0),
        0 < -net_operation_reserved_amount <= u64::MAX ==> r == Ok::<u64, ErrorCode>((-net_operation_reserved_amount) as u64),
        -net_operation_reserved_amount > u64::MAX ==> r == Err::<u64, ErrorCode>(ErrorCode::CalculationArithmeticException),
{
    if net_operation_reserved_amount >= 0 {
        Ok(0)
    } else if net_operation_reserved_amount >= -(u64::MAX as i128) {
        Ok((-net_operation_reserved_amount) as u64)
    } else {
        Err(ErrorCode::CalculationArithmeticException)
    }
}

} // verus!
