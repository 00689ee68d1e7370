//! A binary prediction market: the records of a platform and its markets, the pricing of outcome
//! shares, and the rules by which a market is traded on and resolved.
//!
//! Every operation is a function from the records it touches to their next state. An operation
//! either applies whole or fails and leaves the records as they were. Moving balances on the
//! ledger is left to the caller: a trade answers with what is to move.
//!
//! - [`platform`] and [`market`]: the records, and how they are created.
//! - [`pricing`]: the curve that turns units paid into shares, and the fee.
//! - [`trade`] and [`resolution`]: the two things asked of a market.
//! - [`lifecycle`]: what holds of a market through any sequence of requests.
//! - [`oracle`] and [`clock`]: the price feed and the time, as outside code reports them.

pub mod clock;
pub mod error;
pub mod lifecycle;
pub mod market;
pub mod oracle;
pub mod platform;
pub mod pricing;
pub mod resolution;
pub mod trade;

pub use error::ErrorCode;
pub use market::{create_market, Market, MarketView, MAX_QUESTION_LEN};
pub use platform::{initialize_platform, Platform};
pub use pricing::calculate_output_amount;
pub use resolution::{resolve_market, resolve_market_at, resolve_with_price};
pub use trade::{trade_shares, TradeReceipt};
