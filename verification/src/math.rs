//! Ratio arithmetic and decimal text, taken from cosmwasm-std.

use vstd::prelude::*;

verus! {

/// floor(a * num / den) over the integers.
pub open spec fn mul_div(a: int, num: int, den: int) -> int {
    (a * num) / den
}

/// Basis points: the denominator of every fee and cap share.
pub const BPS: u128 = 10_000u128;

/// Calls `cosmwasm_std::Uint128::checked_multiply_ratio`, which computes
/// `a * num / den` in 256-bit arithmetic, floored. It fails when `den` is
/// zero or when the quotient exceeds `u128::MAX`; both failures come back
/// as `None`.
#[verifier::external_body]
pub(crate) fn checked_multiply_ratio(a: u128, num: u128, den: u128) -> (r: Option<u128>)
    ensures
        den == 0 ==> r is None,
        den != 0 ==> (r is Some <==> mul_div(a as int, num as int, den as int) <= u128::MAX),
        r matches Some(v) ==> v == mul_div(a as int, num as int, den as int),
{
    match cosmwasm_std::Uint128::new(a).checked_multiply_ratio(num, den) {
        Ok(v) => Some(v.u128()),
        Err(_) => None,
    }
}

/// Calls `cosmwasm_std::Uint128::multiply_ratio`: `a * num / den`, floored.
/// It panics on a zero denominator or a quotient above `u128::MAX`; those
/// inputs are excluded.
#[verifier::external_body]
pub(crate) fn multiply_ratio(a: u128, num: u128, den: u128) -> (r: u128)
    requires
        den != 0,
        mul_div(a as int, num as int, den as int) <= u128::MAX,
    ensures
        r == mul_div(a as int, num as int, den as int),
{
    cosmwasm_std::Uint128::new(a).multiply_ratio(num, den).u128()
}

/// What `cosmwasm_std::Decimal::from_str` yields for a decimal string, as
/// 18-decimal atomics (`None` when the string is rejected).
pub uninterp spec fn decimal_from_str(s: Seq<char>) -> Option<u128>;

/// Calls `cosmwasm_std::Decimal::from_str` (`str::parse::<Decimal>`) and
/// returns the atomics of the result; a parse error comes back as `None`.
/// The contract only names the result.
#[verifier::external_body]
pub(crate) fn parse_decimal(s: &str) -> (r: Option<u128>)
    ensures
        r == decimal_from_str(s@),
{
    match s.parse::<cosmwasm_std::Decimal>() {
        Ok(d) => Some(d.atomics().u128()),
        Err(_) => None,
    }
}

/// The text `cosmwasm_std::Decimal`'s `Display` writes for the decimal with
/// these atomics.
pub uninterp spec fn decimal_text(atomics: u128) -> Seq<char>;

/// Calls `Display` (through `to_string`) of `cosmwasm_std::Decimal` on the
/// decimal with the given atomics. The contract only names the result.
#[verifier::external_body]
pub(crate) fn decimal_to_string(atomics: u128) -> (r: String)
    ensures
        r@ == decimal_text(atomics),
{
    cosmwasm_std::Decimal::new(cosmwasm_std::Uint128::new(atomics)).to_string()
}

/// Flooring division never gives more than the exact quotient: multiplying
/// back never exceeds the dividend.
pub proof fn lemma_mul_div_floor(a: int, num: int, den: int)
    requires
        a >= 0,
        num >= 0,
        den > 0,
    ensures
        0 <= mul_div(a, num, den),
        mul_div(a, num, den) * den <= a * num,
        a * num < (mul_div(a, num, den) + 1) * den,
{
    let q = mul_div(a, num, den);
    assert(a * num >= 0) by (nonlinear_arith)
        requires
            a >= 0,
            num >= 0,
    ;
    vstd::arithmetic::div_mod::lemma_fundamental_div_mod(a * num, den);
    assert(q * den <= a * num) by (nonlinear_arith)
        requires
            q == (a * num) / den,
            den > 0,
            a * num == den * ((a * num) / den) + (a * num) % den,
            0 <= (a * num) % den < den,
    ;
    assert(a * num < (q + 1) * den) by (nonlinear_arith)
        requires
            q == (a * num) / den,
            den > 0,
            a * num == den * ((a * num) / den) + (a * num) % den,
            0 <= (a * num) % den < den,
    ;
    vstd::arithmetic::div_mod::lemma_div_pos_is_pos(a * num, den);
}

/// Scaling by a share of at most one never increases the amount.
pub proof fn lemma_mul_div_share_le(a: int, num: int, den: int)
    requires
        a >= 0,
        0 <= num <= den,
        den > 0,
    ensures
        0 <= mul_div(a, num, den) <= a,
{
    lemma_mul_div_floor(a, num, den);
    assert(mul_div(a, num, den) <= a) by (nonlinear_arith)
        requires
            mul_div(a, num, den) * den <= a * num,
            0 <= num <= den,
            a >= 0,
            den > 0,
    ;
}

/// The floored quotient grows with the dividend's first factor.
pub proof fn lemma_mul_div_monotonic(a: int, b: int, num: int, den: int)
    requires
        0 <= a <= b,
        num >= 0,
        den > 0,
    ensures
        mul_div(a, num, den) <= mul_div(b, num, den),
{
    assert(a * num <= b * num) by (nonlinear_arith)
        requires
            0 <= a <= b,
            num >= 0,
    ;
    vstd::arithmetic::div_mod::lemma_div_is_ordered(a * num, b * num, den);
}

} // verus!
