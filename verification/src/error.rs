use vstd::prelude::*;

verus! {

/// The reasons for which an operation is refused.
#[derive(Debug, Clone, Copy, PartialEq, Eq, Structural)]
pub enum ErrorCode {
    /// The market has been resolved: it takes no trade and no second resolution.
    MarketAlreadyResolved,
    /// A trade of no units.
    InvalidAmount,
    /// Resolution was asked for before the market's end time.
    MarketNotEnded,
    /// The price feed account holds no price that can be read.
    InvalidPriceFeed,
    /// A 64-bit computation overflowed, or divided by zero.
    ArithmeticFault,
    /// The question does not fit the space a market record has for it.
    QuestionTooLong,
    /// The current time could not be read.
    ClockUnavailable,
}

impl ErrorCode {
    /// The text of `message`.
    pub open spec fn message_text(self) -> Seq<char> {
        match self {
            ErrorCode::MarketAlreadyResolved => "Market is already resolved"@,
            ErrorCode::InvalidAmount => "Invalid amount"@,
            ErrorCode::MarketNotEnded => "Market has not ended"@,
            ErrorCode::InvalidPriceFeed => "Invalid price feed"@,
            ErrorCode::ArithmeticFault => "Arithmetic overflow or division by zero"@,
            ErrorCode::QuestionTooLong => "Question is too long"@,
            ErrorCode::ClockUnavailable => "Clock is unavailable"@,
        }
    }

    /// A sentence for the one who asked.
    pub fn message(self) -> (text: &'static str)
        ensures
            text@ == self.message_text(),
    {
        match self {
            ErrorCode::MarketAlreadyResolved => "Market is already resolved",
            ErrorCode::InvalidAmount => "Invalid amount",
            ErrorCode::MarketNotEnded => "Market has not ended",
            ErrorCode::InvalidPriceFeed => "Invalid price feed",
            ErrorCode::ArithmeticFault => "Arithmetic overflow or division by zero",
            ErrorCode::QuestionTooLong => "Question is too long",
            ErrorCode::ClockUnavailable => "Clock is unavailable",
        }
    }
}

} // verus!
