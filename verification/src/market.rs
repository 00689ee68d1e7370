//! The market record and its creation.

use vstd::prelude::*;
use vstd::utf8::encode_utf8;

use crate::error::ErrorCode;
use crate::platform::Platform;

verus! {

/// The most bytes of UTF-8 that a market record has room for in its question.
pub const MAX_QUESTION_LEN: usize = 200;

/// One binary market.
///
/// `resolved` starts false and turns true once, for good; `outcome` means something only from
/// then on. `total_liquidity` is read by every trade and written by none. The two pool balances
/// are the shares that the market holds of each side, as the ledger last showed them.
#[derive(Debug, Clone, PartialEq, Eq)]
pub struct Market {
    pub question: String,
    pub end_time: i64,
    pub bump: u8,
    pub resolved: bool,
    pub outcome: bool,
    pub total_liquidity: u64,
    pub yes_pool_balance: u64,
    pub no_pool_balance: u64,
}

/// A market as a mathematical value.
pub struct MarketView {
    pub question: Seq<char>,
    pub end_time: int,
    pub bump: u8,
    pub resolved: bool,
    pub outcome: bool,
    pub total_liquidity: nat,
    pub yes_pool_balance: nat,
    pub no_pool_balance: nat,
}

impl MarketView {
    /// The shares held of one side.
    pub open spec fn pool(self, is_yes: bool) -> nat {
        if is_yes {
            self.yes_pool_balance
        } else {
            self.no_pool_balance
        }
    }

    /// This market with `balance` shares held of one side.
    pub open spec fn with_pool(self, is_yes: bool, balance: nat) -> MarketView {
        if is_yes {
            MarketView { yes_pool_balance: balance, ..self }
        } else {
            MarketView { no_pool_balance: balance, ..self }
        }
    }

    /// A market as it is right after its creation.
    pub open spec fn fresh(question: Seq<char>, end_time: int, bump: u8) -> MarketView {
        MarketView {
            question,
            end_time,
            bump,
            resolved: false,
            outcome: false,
            total_liquidity: 0,
            yes_pool_balance: 0,
            no_pool_balance: 0,
        }
    }

    /// What holds of every market that was created and then only traded on and resolved: its
    /// question fits the record, and no outcome is set before it is resolved.
    pub open spec fn wf(self) -> bool {
        &&& encode_utf8(self.question).len() <= MAX_QUESTION_LEN
        &&& !self.resolved ==> !self.outcome
    }
}

impl View for Market {
    type V = MarketView;

    open spec fn view(&self) -> MarketView {
        MarketView {
            question: self.question@,
            end_time: self.end_time as int,
            bump: self.bump,
            resolved: self.resolved,
            outcome: self.outcome,
            total_liquidity: self.total_liquidity as nat,
            yes_pool_balance: self.yes_pool_balance as nat,
            no_pool_balance: self.no_pool_balance as nat,
        }
    }
}

impl Market {
    /// See [`MarketView::wf`].
    pub open spec fn wf(&self) -> bool {
        self@.wf()
    }

    /// The outcome of the market, which it has only once it is resolved.
    pub fn settled_outcome(&self) -> (outcome: Option<bool>)
        ensures
            outcome == if self.resolved {
                Some(self.outcome)
            } else {
                None
            },
    {
        if self.resolved {
            Some(self.outcome)
        } else {
            None
        }
    }
}

/// Creates a market on `question` that may be resolved from `end_time` on, and counts it in the
/// registry. The market starts unresolved, with no liquidity and two empty pools.
///
/// A question of more than `MAX_QUESTION_LEN` bytes is refused; so is a market that the
/// registry's counter cannot count. A refusal leaves the registry as it was.
pub fn create_market(platform: &mut Platform, question: String, end_time: i64, bump: u8) -> (result:
    Result<Market, ErrorCode>)
    ensures
        final(platform).authority == old(platform).authority,
        final(platform).bump == old(platform).bump,
        encode_utf8(question@).len() > MAX_QUESTION_LEN ==> result == Err::<Market, ErrorCode>(
            ErrorCode::QuestionTooLong,
        ),
        encode_utf8(question@).len() <= MAX_QUESTION_LEN && old(platform).total_markets
            == u64::MAX ==> result == Err::<Market, ErrorCode>(ErrorCode::ArithmeticFault),
        encode_utf8(question@).len() <= MAX_QUESTION_LEN && old(platform).total_markets
            < u64::MAX ==> result is Ok,
        result is Err ==> final(platform).total_markets == old(platform).total_markets,
        result is Ok ==> final(platform).total_markets == old(platform).total_markets + 1,
        result matches Ok(market) ==> market@ == MarketView::fresh(question@, end_time as int, bump)
            && market.wf(),
{
    if question.as_str().as_bytes().len() > MAX_QUESTION_LEN {
        return Err(ErrorCode::QuestionTooLong);
    }
    let counted: u64 = match platform.total_markets.checked_add(1) {
        Some(counted) => counted,
        None => {
            return Err(ErrorCode::ArithmeticFault);
        },
    };
    platform.total_markets = counted;
    Ok(
        Market {
            question,
            end_time,
            bump,
            resolved: false,
            outcome: false,
            total_liquidity: 0,
            yes_pool_balance: 0,
            no_pool_balance: 0,
        },
    )
}

} // verus!
