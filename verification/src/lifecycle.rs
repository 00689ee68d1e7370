//! The life of a market: created, traded on, resolved. What holds of every market whatever is
//! asked of it, and in whatever order.

use vstd::prelude::*;

use crate::error::ErrorCode;
use crate::market::MarketView;
use crate::pricing::output_amount;
use crate::resolution::{after_resolution, resolution_refusal};
use crate::trade::{
    after_trade,
    amount_after_fee,
    lemma_drawn_within_pool,
    shares_bought,
    shares_drawn,
    trade_refusal,
};

verus! {

/// One request made of a market.
pub enum Operation {
    /// A trade of `amount` units for shares of one side.
    Trade { amount: u64, is_yes: bool },
    /// A resolution at time `now`, with what the oracle said.
    Resolve { now: i64, price: Option<i64> },
}

/// Why `market` refuses `op`, if it does.
pub open spec fn refusal(market: MarketView, op: Operation) -> Option<ErrorCode> {
    match op {
        Operation::Trade { amount, is_yes } => trade_refusal(market, amount as nat, is_yes),
        Operation::Resolve { now, price } => resolution_refusal(market, now as int, price),
    }
}

/// The market after `op` was asked of it: as it was, where `op` is refused.
pub open spec fn step(market: MarketView, op: Operation) -> MarketView {
    if refusal(market, op) is Some {
        market
    } else {
        match op {
            Operation::Trade { amount, is_yes } => after_trade(market, amount as nat, is_yes),
            Operation::Resolve { now, price } => after_resolution(market, price->0),
        }
    }
}

/// The market after the requests `ops` were asked of it one after the other.
pub open spec fn run(market: MarketView, ops: Seq<Operation>) -> MarketView
    decreases ops.len(),
{
    if ops.len() == 0 {
        market
    } else {
        step(run(market, ops.drop_last()), ops.last())
    }
}

/// A request is accepted only by an unresolved market, and a resolution only from the end time
/// on. An accepted resolution resolves the market; nothing else does.
pub proof fn lemma_step_gates(market: MarketView, op: Operation)
    ensures
        refusal(market, op) is None ==> !market.resolved,
        refusal(market, op) is None && op is Resolve ==> op->now >= market.end_time && step(
            market,
            op,
        ).resolved,
        op is Trade ==> step(market, op).resolved == market.resolved && step(market, op).outcome
            == market.outcome,
        market.resolved ==> step(market, op).resolved,
{
}

/// A resolved market refuses every request with `MarketAlreadyResolved` and stays as it is.
pub proof fn lemma_resolved_is_final(market: MarketView, op: Operation)
    requires
        market.resolved,
    ensures
        refusal(market, op) == Some(ErrorCode::MarketAlreadyResolved),
        step(market, op) == market,
{
}

/// Whatever is asked of a resolved market, and however often, it stays as it is: resolved, with
/// the outcome it has, and every one of the requests is refused with `MarketAlreadyResolved`.
pub proof fn lemma_resolved_stays(market: MarketView, ops: Seq<Operation>)
    requires
        market.resolved,
    ensures
        run(market, ops) == market,
        forall|i: int|
            0 <= i < ops.len() ==> #[trigger] refusal(run(market, ops.take(i)), ops[i]) == Some(
                ErrorCode::MarketAlreadyResolved,
            ),
    decreases ops.len(),
{
    if ops.len() > 0 {
        lemma_resolved_stays(market, ops.drop_last());
        assert forall|i: int| 0 <= i < ops.len() implies #[trigger] refusal(
            run(market, ops.take(i)),
            ops[i],
        ) == Some(ErrorCode::MarketAlreadyResolved) by {
            lemma_resolved_stays(market, ops.take(i));
        }
    }
}

/// Requests asked after others: the market runs through the first, then through the rest.
pub proof fn lemma_run_split(market: MarketView, first: Seq<Operation>, rest: Seq<Operation>)
    ensures
        run(market, first + rest) == run(run(market, first), rest),
    decreases rest.len(),
{
    if rest.len() == 0 {
        assert(first + rest =~= first);
    } else {
        lemma_run_split(market, first, rest.drop_last());
        assert((first + rest).drop_last() =~= first + rest.drop_last());
        assert((first + rest).last() == rest.last());
    }
}

/// A market is resolved at most once: from the moment that a run of requests has resolved it,
/// no further request changes it.
pub proof fn lemma_resolved_once(market: MarketView, first: Seq<Operation>, rest: Seq<Operation>)
    requires
        run(market, first).resolved,
    ensures
        run(market, first + rest) == run(market, first),
{
    lemma_run_split(market, first, rest);
    lemma_resolved_stays(run(market, first), rest);
}

/// No request changes the terms of a market (its question, its end time, its liquidity), no
/// pool ever grows, and a well-formed market stays well-formed.
pub proof fn lemma_run_keeps_terms(market: MarketView, ops: Seq<Operation>)
    ensures
        run(market, ops).question == market.question,
        run(market, ops).end_time == market.end_time,
        run(market, ops).bump == market.bump,
        run(market, ops).total_liquidity == market.total_liquidity,
        run(market, ops).yes_pool_balance <= market.yes_pool_balance,
        run(market, ops).no_pool_balance <= market.no_pool_balance,
        market.resolved ==> run(market, ops).resolved,
        market.wf() ==> run(market, ops).wf(),
    decreases ops.len(),
{
    if ops.len() > 0 {
        lemma_run_keeps_terms(market, ops.drop_last());
        let before = run(market, ops.drop_last());
        match ops.last() {
            Operation::Trade { amount, is_yes } => {
                if amount > 0 {
                    lemma_drawn_within_pool(before, amount as nat, is_yes);
                }
            },
            Operation::Resolve { now, price } => {},
        }
    }
}

/// Two trades made one after the other. The second is priced against the pools as the first
/// left them, and where both buy the same side, the pool has handed out the shares of both: no
/// trade is lost.
pub proof fn lemma_trades_in_turn(
    market: MarketView,
    first_amount: u64,
    first_is_yes: bool,
    second_amount: u64,
    second_is_yes: bool,
)
    requires
        trade_refusal(market, first_amount as nat, first_is_yes) is None,
    ensures
        ({
            let between = after_trade(market, first_amount as nat, first_is_yes);
            let drawn = shares_drawn(market, first_amount as nat, first_is_yes);
            &&& drawn <= market.pool(first_is_yes)
            &&& between.pool(first_is_yes) == market.pool(first_is_yes) - drawn
            &&& between.pool(!first_is_yes) == market.pool(!first_is_yes)
            &&& shares_bought(between, second_amount as nat, second_is_yes) == output_amount(
                amount_after_fee(second_amount as nat),
                market.total_liquidity,
                between.pool(second_is_yes),
            )
            &&& trade_refusal(between, second_amount as nat, second_is_yes) is None
                && second_is_yes == first_is_yes ==> after_trade(
                between,
                second_amount as nat,
                second_is_yes,
            ).pool(first_is_yes) == market.pool(first_is_yes) - drawn - shares_drawn(
                between,
                second_amount as nat,
                second_is_yes,
            )
        }),
{
    lemma_drawn_within_pool(market, first_amount as nat, first_is_yes);
    let between = after_trade(market, first_amount as nat, first_is_yes);
    if second_amount > 0 {
        lemma_drawn_within_pool(between, second_amount as nat, second_is_yes);
    }
}

} // verus!
