//! The pricing curve and the trading fee.

use vstd::prelude::*;

use crate::error::ErrorCode;

verus! {

/// The fee is `FEE_NUMERATOR / FEE_DENOMINATOR` of the amount traded: 0.3%.
pub const FEE_NUMERATOR: u64 = 3;

/// See `FEE_NUMERATOR`.
pub const FEE_DENOMINATOR: u64 = 1000;

/// The fee on a trade of `amount` units, rounded down.
pub open spec fn fee_of(amount: nat) -> nat {
    (amount * FEE_NUMERATOR as nat / FEE_DENOMINATOR as nat) as nat
}

/// The shares that `amount_in` units buy on a side that holds `side_supply` shares.
///
/// An empty side issues shares one for one. Otherwise the side hands out the part
/// `amount_in / (total_liquidity + amount_in)` of what it holds, rounded down.
pub open spec fn output_amount(amount_in: nat, total_liquidity: nat, side_supply: nat) -> nat {
    if side_supply == 0 {
        amount_in
    } else {
        (amount_in * side_supply / (total_liquidity + amount_in)) as nat
    }
}

/// Whether computing `output_amount` in 64 bits overflows or divides by zero.
pub open spec fn output_faults(amount_in: nat, total_liquidity: nat, side_supply: nat) -> bool {
    side_supply != 0 && (amount_in * side_supply > u64::MAX || total_liquidity + amount_in
        > u64::MAX || total_liquidity + amount_in == 0)
}

/// A side that holds no shares issues as many as the units paid, whatever the liquidity.
pub proof fn lemma_output_on_empty_side(amount_in: nat, total_liquidity: nat)
    ensures
        output_amount(amount_in, total_liquidity, 0) == amount_in,
        !output_faults(amount_in, total_liquidity, 0),
{
}

/// A side never hands out more than it holds.
pub proof fn lemma_output_within_supply(amount_in: nat, total_liquidity: nat, side_supply: nat)
    requires
        side_supply > 0,
        total_liquidity + amount_in > 0,
    ensures
        output_amount(amount_in, total_liquidity, side_supply) <= side_supply,
{
    let d = (total_liquidity + amount_in) as int;
    let x = (amount_in * side_supply) as int;
    assert(x <= side_supply * d) by (nonlinear_arith)
        requires
            x == amount_in * side_supply,
            d == total_liquidity + amount_in,
    ;
    assert(x / d <= side_supply) by (nonlinear_arith)
        requires
            d > 0,
            0 <= x <= side_supply * d,
    ;
}

/// On a side that holds shares, but fewer than the liquidity and the payment together, a trade
/// of at least one unit buys fewer shares than the units paid.
pub proof fn lemma_output_below_input(amount_in: nat, total_liquidity: nat, side_supply: nat)
    requires
        amount_in > 0,
        side_supply > 0,
        side_supply < total_liquidity + amount_in,
    ensures
        0 <= output_amount(amount_in, total_liquidity, side_supply) < amount_in,
{
    let d = (total_liquidity + amount_in) as int;
    let a = amount_in as int;
    let s = side_supply as int;
    assert((a * s) / d < a) by (nonlinear_arith)
        requires
            a > 0,
            0 < s < d,
    ;
}

/// On a side that holds at least as many shares as the liquidity and the payment together, a
/// trade buys at least as many shares as the units paid.
pub proof fn lemma_output_reaches_input(amount_in: nat, total_liquidity: nat, side_supply: nat)
    requires
        amount_in > 0,
        side_supply >= total_liquidity + amount_in,
    ensures
        output_amount(amount_in, total_liquidity, side_supply) >= amount_in,
{
    let d = (total_liquidity + amount_in) as int;
    let a = amount_in as int;
    let s = side_supply as int;
    assert((a * s) / d >= a) by (nonlinear_arith)
        requires
            a > 0,
            d >= a,
            s >= d,
    ;
}

/// With no liquidity recorded, a side that holds shares hands out all of them, whatever is paid.
pub proof fn lemma_output_without_liquidity(amount_in: nat, side_supply: nat)
    requires
        amount_in > 0,
        side_supply > 0,
    ensures
        output_amount(amount_in, 0, side_supply) == side_supply,
{
    let a = amount_in as int;
    let s = side_supply as int;
    assert((a * s) / a == s) by (nonlinear_arith)
        requires
            a > 0,
    ;
}

/// The shares bought by `amount_in` units on a side that holds `total_supply` shares, or
/// `ArithmeticFault` where the 64-bit computation overflows or divides by zero.
pub fn calculate_output_amount(amount_in: u64, total_liquidity: u64, total_supply: u64) -> (result:
    Result<u64, ErrorCode>)
    ensures
        result is Err <==> output_faults(
            amount_in as nat,
            total_liquidity as nat,
            total_supply as nat,
        ),
        result is Err ==> result == Err::<u64, ErrorCode>(ErrorCode::ArithmeticFault),
        result is Ok ==> result->Ok_0 == output_amount(
            amount_in as nat,
            total_liquidity as nat,
            total_supply as nat,
        ),
        total_supply == 0 ==> result == Ok::<u64, ErrorCode>(amount_in),
        result is Ok && total_supply > 0 ==> result->Ok_0 <= total_supply,
        result is Ok && total_supply > 0 && amount_in > 0 ==> (result->Ok_0 < amount_in
            <==> total_supply < total_liquidity + amount_in),
        result is Ok && total_supply > 0 && amount_in > 0 && total_liquidity == 0
            ==> result->Ok_0 == total_supply,
{
    if total_supply == 0 {
        return Ok(amount_in);
    }
    let product: u64 = match amount_in.checked_mul(total_supply) {
        Some(product) => product,
        None => {
            return Err(ErrorCode::ArithmeticFault);
        },
    };
    let divisor: u64 = match total_liquidity.checked_add(amount_in) {
        Some(divisor) => divisor,
        None => {
            return Err(ErrorCode::ArithmeticFault);
        },
    };
    match product.checked_div(divisor) {
        Some(out) => {
            proof {
                lemma_output_within_supply(
                    amount_in as nat,
                    total_liquidity as nat,
                    total_supply as nat,
                );
                if amount_in > 0 {
                    if total_supply < total_liquidity + amount_in {
                        lemma_output_below_input(
                            amount_in as nat,
                            total_liquidity as nat,
                            total_supply as nat,
                        );
                    } else {
                        lemma_output_reaches_input(
                            amount_in as nat,
                            total_liquidity as nat,
                            total_supply as nat,
                        );
                    }
                    if total_liquidity == 0 {
                        lemma_output_without_liquidity(amount_in as nat, total_supply as nat);
                    }
                }
            }
            Ok(out)
        },
        None => Err(ErrorCode::ArithmeticFault),
    }
}

} // verus!
