//! Resolution: once its end time has come, a market is settled by the sign of an oracle price.

use vstd::prelude::*;

use crate::clock::unix_timestamp;
use crate::error::ErrorCode;
use crate::market::{Market, MarketView};
use crate::oracle::{feed_price, read_feed_price};

verus! {

/// Why `market` refuses to be resolved at time `now` with the oracle reading `price`, if it
/// does. The tests are made in this order: a resolved market, a time before the end, no price.
pub open spec fn resolution_refusal(market: MarketView, now: int, price: Option<i64>) -> Option<
    ErrorCode,
> {
    if market.resolved {
        Some(ErrorCode::MarketAlreadyResolved)
    } else if now < market.end_time {
        Some(ErrorCode::MarketNotEnded)
    } else if price is None {
        Some(ErrorCode::InvalidPriceFeed)
    } else {
        None
    }
}

/// The market once resolved by `price`: the outcome is yes exactly when the price is not
/// negative.
pub open spec fn after_resolution(market: MarketView, price: i64) -> MarketView {
    MarketView { resolved: true, outcome: price >= 0, ..market }
}

/// Whether `result` and `after` are what resolving `before` at time `now` with the oracle
/// reading `price` gives: a refusal and the market as it was, or the market resolved.
pub open spec fn resolves_as(
    before: Market,
    after: Market,
    result: Result<(), ErrorCode>,
    now: int,
    price: Option<i64>,
) -> bool {
    match resolution_refusal(before@, now, price) {
        Some(refusal) => result == Err::<(), ErrorCode>(refusal) && after == before,
        None => result == Ok::<(), ErrorCode>(()) && after@ == after_resolution(
            before@,
            price->0,
        ),
    }
}

/// Resolves `market` at time `now`, given what the oracle said: `Some` price, or `None` where
/// it had none to give.
pub fn resolve_with_price(market: &mut Market, now: i64, price: Option<i64>) -> (result: Result<
    (),
    ErrorCode,
>)
    ensures
        resolves_as(*old(market), *final(market), result, now as int, price),
        old(market).resolved ==> result == Err::<(), ErrorCode>(ErrorCode::MarketAlreadyResolved),
        !old(market).resolved && now < old(market).end_time ==> result == Err::<(), ErrorCode>(
            ErrorCode::MarketNotEnded,
        ),
        !old(market).resolved && now >= old(market).end_time && price is None ==> result == Err::<
            (),
            ErrorCode,
        >(ErrorCode::InvalidPriceFeed),
        !old(market).resolved && now >= old(market).end_time && price is Some ==> result is Ok
            && final(market).resolved && final(market).outcome == (price->0 >= 0),
        result is Err ==> *final(market) == *old(market),
        old(market).wf() ==> final(market).wf(),
{
    if market.resolved {
        return Err(ErrorCode::MarketAlreadyResolved);
    }
    if now < market.end_time {
        return Err(ErrorCode::MarketNotEnded);
    }
    match price {
        Some(price) => {
            market.outcome = price >= 0;
            market.resolved = true;
            Ok(())
        },
        None => Err(ErrorCode::InvalidPriceFeed),
    }
}

/// Resolves `market` at time `now` by the Pyth price account whose bytes are `price_feed`.
///
/// The feed is read only where the market is unresolved and its end time has come.
pub fn resolve_market_at(market: &mut Market, now: i64, price_feed: &[u8]) -> (result: Result<
    (),
    ErrorCode,
>)
    ensures
        resolves_as(*old(market), *final(market), result, now as int, feed_price(price_feed@)),
        old(market).resolved ==> result == Err::<(), ErrorCode>(ErrorCode::MarketAlreadyResolved),
        !old(market).resolved && now < old(market).end_time ==> result == Err::<(), ErrorCode>(
            ErrorCode::MarketNotEnded,
        ),
        result is Err ==> *final(market) == *old(market),
        result is Ok ==> !old(market).resolved && final(market).resolved,
        old(market).wf() ==> final(market).wf(),
{
    if market.resolved {
        return Err(ErrorCode::MarketAlreadyResolved);
    }
    if now < market.end_time {
        return Err(ErrorCode::MarketNotEnded);
    }
    let price: Option<i64> = match read_feed_price(price_feed) {
        Ok(price) => Some(price),
        Err(_) => None,
    };
    resolve_with_price(market, now, price)
}

/// Resolves `market` now, by the chain's clock, and by the Pyth price account whose bytes are
/// `price_feed`.
///
/// The clock is read only where the market is unresolved. Where it cannot be read, the market
/// stays as it was and the answer is `ClockUnavailable`; else the market is resolved as
/// `resolve_market_at` does it at the time read.
pub fn resolve_market(market: &mut Market, price_feed: &[u8]) -> (result: Result<(), ErrorCode>)
    ensures
        old(market).resolved ==> result == Err::<(), ErrorCode>(ErrorCode::MarketAlreadyResolved),
        (!old(market).resolved && result == Err::<(), ErrorCode>(ErrorCode::ClockUnavailable)
            && *final(market) == *old(market)) || (exists|now: i64|
            resolves_as(
                *old(market),
                *final(market),
                result,
                now as int,
                feed_price(price_feed@),
            )),
        result is Err ==> *final(market) == *old(market),
        result is Ok ==> !old(market).resolved && final(market).resolved,
        old(market).wf() ==> final(market).wf(),
{
    if market.resolved {
        proof {
            // A resolved market answers the same at every time.
            let any_time: i64 = 0;
            assert(resolves_as(
                *market,
                *market,
                Err(ErrorCode::MarketAlreadyResolved),
                any_time as int,
                feed_price(price_feed@),
            ));
        }
        return Err(ErrorCode::MarketAlreadyResolved);
    }
    let now: i64 = match unix_timestamp() {
        Ok(now) => now,
        Err(_) => {
            return Err(ErrorCode::ClockUnavailable);
        },
    };
    resolve_market_at(market, now, price_feed)
}

} // verus!
