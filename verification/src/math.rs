use vstd::prelude::*;
use cosmwasm_std::{CheckedMultiplyRatioError, Uint128};
use crate::error::{ContractError, ErrorKind};

verus! {

/// The exact value of `floor(a * b / d)`, for `d != 0`.
pub open spec fn ratio(a: u128, b: u128, d: u128) -> int
    recommends
        d != 0,
{
    (a as int * b as int) / (d as int)
}

/// What `mul_ratio_u128` yields: the floored quotient where it exists and fits
/// 128 bits, and an overflow otherwise (a zero denominator included).
pub open spec fn spec_mul_ratio(a: u128, b: u128, d: u128) -> Result<u128, ErrorKind> {
    if d != 0 && ratio(a, b, d) <= u128::MAX {
        Ok(ratio(a, b, d) as u128)
    } else {
        Err(ErrorKind::ArithmeticOverflow)
    }
}

pub open spec fn spec_add_u128(a: u128, b: u128) -> Result<u128, ErrorKind> {
    if a + b <= u128::MAX {
        Ok((a + b) as u128)
    } else {
        Err(ErrorKind::ArithmeticOverflow)
    }
}

pub open spec fn spec_sub_u128(a: u128, b: u128) -> Result<u128, ErrorKind> {
    if b <= a {
        Ok((a - b) as u128)
    } else {
        Err(ErrorKind::ArithmeticUnderflow)
    }
}

pub open spec fn spec_add_u64(a: u64, b: u64) -> Result<u64, ErrorKind> {
    if a + b <= u64::MAX {
        Ok((a + b) as u64)
    } else {
        Err(ErrorKind::ArithmeticOverflow)
    }
}

/// Whether an executable result is the one a specification names: the same
/// value on success, the same class of failure otherwise.
pub open spec fn agrees<T>(r: Result<T, ContractError>, s: Result<T, ErrorKind>) -> bool {
    match r {
        Ok(x) => s == Ok::<T, ErrorKind>(x),
        Err(e) => s == Err::<T, ErrorKind>(e.kind()),
    }
}

/// Why a ratio has no 128-bit value.
#[derive(Clone, Copy, Debug, PartialEq, Eq, Structural)]
pub enum RatioFault {
    DivideByZero,
    Overflow,
}

/// `cosmwasm_std::Uint128::checked_multiply_ratio`, on plain integers. The
/// contract claims what its source shows: with a zero denominator it reports a
/// division by zero; otherwise it multiplies in 256 bits, divides with
/// flooring, and reports an overflow exactly when the quotient exceeds 128 bits.
#[verifier::external_body]
fn checked_multiply_ratio(a: u128, b: u128, d: u128) -> (r: Result<u128, RatioFault>)
    ensures
        match r {
            Ok(x) => d != 0 && x == ratio(a, b, d),
            Err(RatioFault::DivideByZero) => d == 0,
            Err(RatioFault::Overflow) => d != 0 && ratio(a, b, d) > u128::MAX,
        },
{
    match Uint128::new(a).checked_multiply_ratio(b, d) {
        Ok(x) => Ok(x.u128()),
        Err(CheckedMultiplyRatioError::DivideByZero) => Err(RatioFault::DivideByZero),
        Err(CheckedMultiplyRatioError::Overflow) => Err(RatioFault::Overflow),
    }
}

/// `floor(a * b / d)`, computed without losing the high bits of the product.
pub fn mul_ratio_u128(a: u128, b: u128, d: u128) -> (r: Result<u128, ContractError>)
    ensures
        agrees(r, spec_mul_ratio(a, b, d)),
{
    match checked_multiply_ratio(a, b, d) {
        Ok(x) => Ok(x),
        Err(_) => Err(ContractError::ArithmeticOverflow),
    }
}

/// `a + b`, or an overflow.
pub fn add_u128(a: u128, b: u128) -> (r: Result<u128, ContractError>)
    ensures
        agrees(r, spec_add_u128(a, b)),
{
    if a <= u128::MAX - b {
        Ok(a + b)
    } else {
        Err(ContractError::ArithmeticOverflow)
    }
}

/// `a - b`, or an underflow.
pub fn sub_u128(a: u128, b: u128) -> (r: Result<u128, ContractError>)
    ensures
        agrees(r, spec_sub_u128(a, b)),
{
    if b <= a {
        Ok(a - b)
    } else {
        Err(ContractError::ArithmeticUnderflow)
    }
}

/// `a + b`, or an overflow.
pub fn add_u64(a: u64, b: u64) -> (r: Result<u64, ContractError>)
    ensures
        agrees(r, spec_add_u64(a, b)),
{
    if a <= u64::MAX - b {
        Ok(a + b)
    } else {
        Err(ContractError::ArithmeticOverflow)
    }
}

/// A ratio whose multiplier does not exceed its denominator does not exceed
/// the multiplicand.
pub proof fn lemma_ratio_bounded(a: u128, b: u128, d: u128)
    requires
        d != 0,
        b <= d,
    ensures
        0 <= ratio(a, b, d) <= a,
{
    let ai = a as int;
    let bi = b as int;
    let di = d as int;
    assert(0 <= ai * bi <= ai * di) by (nonlinear_arith)
        requires 0 <= ai, 0 <= bi <= di;
    assert(0 <= (ai * bi) / di <= ai) by (nonlinear_arith)
        requires 0 <= ai * bi <= ai * di, di > 0;
}

} // verus!
