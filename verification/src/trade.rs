//! Trading: a participant pays units of the platform's asset and receives shares of one side.

use vstd::prelude::*;

use crate::error::ErrorCode;
use crate::market::{Market, MarketView};
use crate::pricing::{
    calculate_output_amount,
    fee_of,
    output_amount,
    output_faults,
    FEE_DENOMINATOR,
    FEE_NUMERATOR,
};

verus! {

/// What an accepted trade moves on the ledger.
///
/// `amount` units go from the trader into the market's custody, the fee among them, and
/// `shares_out` shares of the chosen side go to the trader.
#[derive(Debug, Clone, Copy, PartialEq, Eq, Structural)]
pub struct TradeReceipt {
    /// The units that the trader pays, fee included.
    pub amount: u64,
    /// The part of `amount` kept as fee.
    pub fee: u64,
    /// The part of `amount` that buys shares.
    pub amount_after_fee: u64,
    /// The side bought.
    pub is_yes: bool,
    /// The shares that the trader receives.
    pub shares_out: u64,
}

/// What is left of `amount` units once the fee is taken.
pub open spec fn amount_after_fee(amount: nat) -> nat {
    (amount - fee_of(amount)) as nat
}

/// The shares that a trade of `amount` units buys on one side of `market`.
pub open spec fn shares_bought(market: MarketView, amount: nat, is_yes: bool) -> nat {
    output_amount(amount_after_fee(amount), market.total_liquidity, market.pool(is_yes))
}

/// The shares that such a trade takes out of the side's pool: all that it buys, but for an empty
/// pool, which has nothing to hand out and issues the shares instead.
pub open spec fn shares_drawn(market: MarketView, amount: nat, is_yes: bool) -> nat {
    if market.pool(is_yes) == 0 {
        0
    } else {
        shares_bought(market, amount, is_yes)
    }
}

/// Why `market` refuses a trade of `amount` units, if it does. The tests are made in this order:
/// a resolved market, an empty trade, a fee that overflows, a price that overflows.
pub open spec fn trade_refusal(market: MarketView, amount: nat, is_yes: bool) -> Option<ErrorCode> {
    if market.resolved {
        Some(ErrorCode::MarketAlreadyResolved)
    } else if amount == 0 {
        Some(ErrorCode::InvalidAmount)
    } else if amount * FEE_NUMERATOR as nat > u64::MAX {
        Some(ErrorCode::ArithmeticFault)
    } else if output_faults(amount_after_fee(amount), market.total_liquidity, market.pool(is_yes)) {
        Some(ErrorCode::ArithmeticFault)
    } else {
        None
    }
}

/// The market after an accepted trade: the pool of the chosen side has handed out its shares,
/// and nothing else has changed.
pub open spec fn after_trade(market: MarketView, amount: nat, is_yes: bool) -> MarketView {
    market.with_pool(
        is_yes,
        (market.pool(is_yes) - shares_drawn(market, amount, is_yes)) as nat,
    )
}

/// The fee never exceeds the amount, and a trade of at least one unit leaves at least one unit
/// to buy shares with.
pub proof fn lemma_fee_bounds(amount: nat)
    ensures
        fee_of(amount) <= amount,
        fee_of(amount) + amount_after_fee(amount) == amount,
        amount > 0 ==> amount_after_fee(amount) > 0,
{
}

/// A pool never hands out more than it holds.
pub proof fn lemma_drawn_within_pool(market: MarketView, amount: nat, is_yes: bool)
    requires
        amount > 0,
    ensures
        shares_drawn(market, amount, is_yes) <= market.pool(is_yes),
{
    if market.pool(is_yes) > 0 {
        crate::pricing::lemma_output_within_supply(
            amount_after_fee(amount),
            market.total_liquidity,
            market.pool(is_yes),
        );
    }
}

/// Trades `amount` units for shares of one side of `market`.
///
/// A refused trade leaves the market as it was. An accepted one returns what is to move on the
/// ledger and takes the shares out of the pool of the chosen side. An empty pool has nothing to
/// take: the shares it sells are issued, and it stays empty.
pub fn trade_shares(market: &mut Market, amount: u64, is_yes: bool) -> (result: Result<
    TradeReceipt,
    ErrorCode,
>)
    ensures
        match trade_refusal(old(market)@, amount as nat, is_yes) {
            Some(refusal) => result == Err::<TradeReceipt, ErrorCode>(refusal) && *final(market)
                == *old(market),
            None => result == Ok::<TradeReceipt, ErrorCode>(
                TradeReceipt {
                    amount,
                    fee: fee_of(amount as nat) as u64,
                    amount_after_fee: amount_after_fee(amount as nat) as u64,
                    is_yes,
                    shares_out: shares_bought(old(market)@, amount as nat, is_yes) as u64,
                },
            ) && final(market)@ == after_trade(old(market)@, amount as nat, is_yes),
        },
        old(market).resolved ==> result == Err::<TradeReceipt, ErrorCode>(
            ErrorCode::MarketAlreadyResolved,
        ),
        !old(market).resolved && amount == 0 ==> result == Err::<TradeReceipt, ErrorCode>(
            ErrorCode::InvalidAmount,
        ),
        result is Ok ==> result->Ok_0.fee + result->Ok_0.amount_after_fee == amount,
        final(market).resolved == old(market).resolved,
        final(market).outcome == old(market).outcome,
        final(market).total_liquidity == old(market).total_liquidity,
        old(market).wf() ==> final(market).wf(),
{
    if market.resolved {
        return Err(ErrorCode::MarketAlreadyResolved);
    }
    if amount == 0 {
        return Err(ErrorCode::InvalidAmount);
    }
    let scaled: u64 = match amount.checked_mul(FEE_NUMERATOR) {
        Some(scaled) => scaled,
        None => {
            return Err(ErrorCode::ArithmeticFault);
        },
    };
    let fee: u64 = scaled / FEE_DENOMINATOR;
    proof {
        lemma_fee_bounds(amount as nat);
    }
    let net: u64 = amount - fee;
    let supply: u64 = if is_yes {
        market.yes_pool_balance
    } else {
        market.no_pool_balance
    };
    let shares_out: u64 = match calculate_output_amount(net, market.total_liquidity, supply) {
        Ok(shares_out) => shares_out,
        Err(fault) => {
            return Err(fault);
        },
    };
    if supply > 0 {
        if is_yes {
            market.yes_pool_balance = supply - shares_out;
        } else {
            market.no_pool_balance = supply - shares_out;
        }
    }
    Ok(TradeReceipt { amount, fee, amount_after_fee: net, is_yes, shares_out })
}

} // verus!
