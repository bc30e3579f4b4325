use vstd::prelude::*;
use crate::error::{ContractError, ErrorKind};
use crate::math::{
    add_u128, agrees, lemma_ratio_bounded, mul_ratio_u128, ratio, spec_add_u128, spec_mul_ratio,
    spec_sub_u128, sub_u128,
};

verus! {

/// The platform's fee, in parts per million.
pub const PLATFORM_FEE_PCT: u128 = 10_000;

/// The denominator of a fee rate.
pub const FEE_RATE_SCALE: u128 = 1_000_000;

/// What a migration commits: the fee taken in the quote token, and the base
/// and quote amounts that go into the new pair.
#[derive(Clone, Copy, Debug, PartialEq, Eq, Structural)]
pub struct PairAmounts {
    pub fee: u128,
    pub base: u128,
    pub quote: u128,
}

/// The share of `x` that a fee of `rate` parts per million takes.
pub open spec fn spec_fee(x: u128, rate: u128) -> Result<u128, ErrorKind> {
    spec_mul_ratio(x, rate, FEE_RATE_SCALE)
}

/// The base amount that keeps the closing price: `b * q / (q + v)`.
pub open spec fn spec_priced_base(b: u128, q: u128, v: u128) -> Result<u128, ErrorKind> {
    match spec_add_u128(q, v) {
        Err(e) => Err(e),
        Ok(d) => spec_mul_ratio(b, q, d),
    }
}

/// The amounts for a quote amount `q0`, a base amount `b0` and a virtual
/// liquidity `v0` at a fee of `rate` parts per million. The three fee shares
/// are taken first, then the three reductions, then the priced base amount;
/// the first step that fails decides the failure.
///
/// The quote amount left is the base amount less the quote fee, not the
/// quote amount less it. This is how the amounts have always been computed;
/// it looks like a defect, and is kept until that is settled.
pub open spec fn spec_pair_amounts(q0: u128, b0: u128, v0: u128, rate: u128) -> Result<
    PairAmounts,
    ErrorKind,
> {
    match (spec_fee(q0, rate), spec_fee(b0, rate), spec_fee(v0, rate)) {
        (Err(e), _, _) => Err(e),
        (_, Err(e), _) => Err(e),
        (_, _, Err(e)) => Err(e),
        (Ok(q_fee), Ok(b_red), Ok(v_red)) => match (
            spec_sub_u128(b0, b_red),
            spec_sub_u128(b0, q_fee),
            spec_sub_u128(v0, v_red),
        ) {
            (Err(e), _, _) => Err(e),
            (_, Err(e), _) => Err(e),
            (_, _, Err(e)) => Err(e),
            (Ok(b), Ok(q), Ok(v)) => match spec_priced_base(b, q, v) {
                Err(e) => Err(e),
                Ok(base) => Ok(PairAmounts { fee: q_fee, base, quote: q }),
            },
        },
    }
}

/// `b * q / (q + v)`, or the failure of the sum or of the ratio.
pub fn priced_base(b: u128, q: u128, v: u128) -> (r: Result<u128, ContractError>)
    ensures
        agrees(r, spec_priced_base(b, q, v)),
        r matches Ok(x) ==> x <= b,
{
    let d = add_u128(q, v)?;
    let x = mul_ratio_u128(b, q, d)?;
    proof {
        lemma_ratio_bounded(b, q, d);
    }
    Ok(x)
}

/// The fee and the pair amounts at a fee of `rate` parts per million.
pub fn pair_amounts_at_rate(q0: u128, b0: u128, v0: u128, rate: u128) -> (r: Result<
    PairAmounts,
    ContractError,
>)
    ensures
        agrees(r, spec_pair_amounts(q0, b0, v0, rate)),
        r matches Ok(p) ==> p.base <= b0 && p.quote <= b0 && p.quote == b0 - p.fee,
        r matches Ok(p) ==> rate <= FEE_RATE_SCALE ==> p.fee <= q0,
{
    let q_fee_amount = mul_ratio_u128(q0, rate, FEE_RATE_SCALE)?;
    let b_reduction_amount = mul_ratio_u128(b0, rate, FEE_RATE_SCALE)?;
    let v_reduction_amount = mul_ratio_u128(v0, rate, FEE_RATE_SCALE)?;

    let b = sub_u128(b0, b_reduction_amount)?;
    let q = sub_u128(b0, q_fee_amount)?;
    let v = sub_u128(v0, v_reduction_amount)?;

    let b_pair_amount = priced_base(b, q, v)?;
    proof {
        if rate <= FEE_RATE_SCALE {
            lemma_ratio_bounded(q0, rate, FEE_RATE_SCALE);
        }
    }
    Ok(PairAmounts { fee: q_fee_amount, base: b_pair_amount, quote: q })
}

/// The fee and the pair amounts at the platform's fee rate.
pub fn prepare_pair_token_amounts(q0: u128, b0: u128, v0: u128) -> (r: Result<
    PairAmounts,
    ContractError,
>)
    ensures
        agrees(r, spec_pair_amounts(q0, b0, v0, PLATFORM_FEE_PCT)),
        r matches Ok(p) ==> p.fee <= q0 && p.base <= b0 && p.quote <= b0 && p.quote == b0 - p.fee,
{
    pair_amounts_at_rate(q0, b0, v0, PLATFORM_FEE_PCT)
}

/// At a fee rate of at most the whole, amounts that exist are bounded by the
/// inputs: the fee by the quote amount, the base amount by the base amount,
/// and the quote amount by the base amount it is taken from.
pub proof fn lemma_pair_amounts_bounded(q0: u128, b0: u128, v0: u128, rate: u128)
    requires
        rate <= FEE_RATE_SCALE,
    ensures
        spec_pair_amounts(q0, b0, v0, rate) matches Ok(p) ==> p.fee <= q0 && p.base <= b0
            && p.quote <= b0,
        spec_pair_amounts(q0, b0, v0, rate) matches Err(e) ==> e == ErrorKind::ArithmeticOverflow
            || e == ErrorKind::ArithmeticUnderflow,
{
    lemma_ratio_bounded(q0, rate, FEE_RATE_SCALE);
    lemma_ratio_bounded(b0, rate, FEE_RATE_SCALE);
    lemma_ratio_bounded(v0, rate, FEE_RATE_SCALE);
    if let Ok(p) = spec_pair_amounts(q0, b0, v0, rate) {
        let b = (b0 - ratio(b0, rate, FEE_RATE_SCALE)) as u128;
        let v = (v0 - ratio(v0, rate, FEE_RATE_SCALE)) as u128;
        lemma_ratio_bounded(b, p.quote, (p.quote + v) as u128);
    }
}

/// Amounts that exist, in closed form: the fee is the quote amount's share,
/// the quote amount is the base amount less that fee, and the base amount is
/// the reduced base amount times the quote amount over the sum of the quote
/// amount and the reduced liquidity, floored. So the pair opens at the
/// closing price, up to the rounding of one unit of the base amount.
pub proof fn lemma_pair_amounts_formula(q0: u128, b0: u128, v0: u128, rate: u128)
    ensures
        spec_pair_amounts(q0, b0, v0, rate) matches Ok(p) ==> {
            let b = b0 - ratio(b0, rate, FEE_RATE_SCALE);
            let v = v0 - ratio(v0, rate, FEE_RATE_SCALE);
            &&& p.fee == ratio(q0, rate, FEE_RATE_SCALE)
            &&& p.quote == b0 - p.fee
            &&& 0 <= b && 0 <= v && 0 < p.quote + v
            &&& p.base == (b * p.quote) / (p.quote + v)
            &&& p.base * (p.quote + v) <= b * p.quote < (p.base + 1) * (p.quote + v)
        },
{
    if let Ok(p) = spec_pair_amounts(q0, b0, v0, rate) {
        let b = b0 - ratio(b0, rate, FEE_RATE_SCALE);
        let v = v0 - ratio(v0, rate, FEE_RATE_SCALE);
        let x = b * p.quote;
        let d = p.quote + v;
        assert(0 <= x) by (nonlinear_arith)
            requires
                0 <= b,
                0 <= p.quote,
                x == b * p.quote,
        ;
        assert((x / d) * d <= x < (x / d + 1) * d) by (nonlinear_arith)
            requires
                0 <= x,
                0 < d,
        ;
    }
}

/// Where the base amount less the quote fee does not exceed the quote amount,
/// the quote amount committed does not exceed it either.
pub proof fn lemma_pair_quote_bounded(q0: u128, b0: u128, v0: u128, rate: u128)
    requires
        rate <= FEE_RATE_SCALE,
        b0 - ratio(q0, rate, FEE_RATE_SCALE) <= q0,
    ensures
        spec_pair_amounts(q0, b0, v0, rate) matches Ok(p) ==> p.quote <= q0,
{
    lemma_ratio_bounded(q0, rate, FEE_RATE_SCALE);
}

/// The order of strings: by the code points of their characters, the first
/// difference deciding, and a prefix before what it is a prefix of.
pub open spec fn lex_le(a: Seq<char>, b: Seq<char>) -> bool
    decreases a.len(),
{
    if a.len() == 0 {
        true
    } else if b.len() == 0 {
        false
    } else if a[0] != b[0] {
        (a[0] as u32) < (b[0] as u32)
    } else {
        lex_le(a.drop_first(), b.drop_first())
    }
}

/// Two strings in ascending order.
pub open spec fn spec_sorted_pair(a: Seq<char>, b: Seq<char>) -> (Seq<char>, Seq<char>) {
    if lex_le(a, b) {
        (a, b)
    } else {
        (b, a)
    }
}

/// `<=` on `str`, from std's `PartialOrd`. The contract claims what std
/// documents of it: strings are ordered lexicographically by their bytes,
/// which orders them by the code points of their characters.
#[verifier::external_body]
fn str_le(a: &str, b: &str) -> (r: bool)
    ensures
        r == lex_le(a@, b@),
{
    a <= b
}

/// Puts two strings in ascending order.
pub fn sorted_pair(a: String, b: String) -> (r: (String, String))
    ensures
        (r.0@, r.1@) == spec_sorted_pair(a@, b@),
{
    if str_le(a.as_str(), b.as_str()) {
        (a, b)
    } else {
        (b, a)
    }
}

} // verus!
