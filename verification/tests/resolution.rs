use pump_poly::{resolve_market, resolve_market_at, resolve_with_price, ErrorCode, Market};
use pyth_sdk_solana::state::{AccountType, PriceAccount, PriceInfo, PriceStatus, MAGIC, VERSION_2};

const END: i64 = 1_700_000_000;

fn market() -> Market {
    Market {
        question: String::from("Will it rain tomorrow?"),
        end_time: END,
        bump: 254,
        resolved: false,
        outcome: false,
        total_liquidity: 10_000,
        yes_pool_balance: 5000,
        no_pool_balance: 6000,
    }
}

fn resolved(outcome: bool) -> Market {
    Market { resolved: true, outcome, ..market() }
}

fn price_account(price: i64, status: PriceStatus, prev_price: i64) -> PriceAccount {
    PriceAccount {
        magic: MAGIC,
        ver: VERSION_2,
        atype: AccountType::Price as u32,
        prev_price,
        agg: PriceInfo { price, status, ..PriceInfo::default() },
        ..PriceAccount::default()
    }
}

fn feed(price: i64) -> Vec<u8> {
    bytemuck::bytes_of(&price_account(price, PriceStatus::Trading, 0)).to_vec()
}

#[test]
fn resolution_before_the_end_is_refused() {
    let mut m = market();
    assert_eq!(resolve_with_price(&mut m, END - 1, Some(5)), Err(ErrorCode::MarketNotEnded));
    assert_eq!(resolve_with_price(&mut m, END - 1, Some(-5)), Err(ErrorCode::MarketNotEnded));
    assert_eq!(resolve_with_price(&mut m, END - 1, None), Err(ErrorCode::MarketNotEnded));
    assert_eq!(resolve_with_price(&mut m, i64::MIN, Some(5)), Err(ErrorCode::MarketNotEnded));
    assert_eq!(m, market());
}

#[test]
fn positive_price_resolves_to_yes() {
    let mut m = market();
    assert_eq!(resolve_with_price(&mut m, END + 1, Some(5)), Ok(()));
    assert_eq!(m, resolved(true));
}

#[test]
fn zero_price_resolves_to_yes() {
    let mut m = market();
    assert_eq!(resolve_with_price(&mut m, END + 1, Some(0)), Ok(()));
    assert_eq!(m, resolved(true));
}

#[test]
fn negative_price_resolves_to_no() {
    let mut m = market();
    assert_eq!(resolve_with_price(&mut m, END + 1, Some(-1)), Ok(()));
    assert_eq!(m, resolved(false));
    let mut m = market();
    assert_eq!(resolve_with_price(&mut m, i64::MAX, Some(i64::MIN)), Ok(()));
    assert_eq!(m, resolved(false));
}

#[test]
fn resolution_at_the_end_time_is_accepted() {
    let mut m = market();
    assert_eq!(resolve_with_price(&mut m, END, Some(1)), Ok(()));
    assert!(m.resolved);
}

#[test]
fn missing_price_is_refused() {
    let mut m = market();
    assert_eq!(resolve_with_price(&mut m, END, None), Err(ErrorCode::InvalidPriceFeed));
    assert_eq!(m, market());
}

#[test]
fn resolved_market_refuses_resolution() {
    let mut m = resolved(true);
    assert_eq!(resolve_with_price(&mut m, END + 1, Some(-5)), Err(ErrorCode::MarketAlreadyResolved));
    assert_eq!(resolve_with_price(&mut m, END - 1, Some(-5)), Err(ErrorCode::MarketAlreadyResolved));
    assert_eq!(resolve_with_price(&mut m, END + 1, None), Err(ErrorCode::MarketAlreadyResolved));
    assert_eq!(m, resolved(true));
    let mut m = resolved(false);
    assert_eq!(resolve_with_price(&mut m, END + 1, Some(5)), Err(ErrorCode::MarketAlreadyResolved));
    assert_eq!(m, resolved(false));
}

#[test]
fn market_resolves_once() {
    let mut m = market();
    assert_eq!(resolve_with_price(&mut m, END, Some(-3)), Ok(()));
    assert_eq!(resolve_with_price(&mut m, END, Some(3)), Err(ErrorCode::MarketAlreadyResolved));
    assert_eq!(m, resolved(false));
}

#[test]
fn feed_with_positive_price_resolves_to_yes() {
    let mut m = market();
    assert_eq!(resolve_market_at(&mut m, END, &feed(5)), Ok(()));
    assert_eq!(m, resolved(true));
}

#[test]
fn feed_with_negative_price_resolves_to_no() {
    let mut m = market();
    assert_eq!(resolve_market_at(&mut m, END, &feed(-5)), Ok(()));
    assert_eq!(m, resolved(false));
}

#[test]
fn feed_with_zero_price_resolves_to_yes() {
    let mut m = market();
    assert_eq!(resolve_market_at(&mut m, END, &feed(0)), Ok(()));
    assert_eq!(m, resolved(true));
}

#[test]
fn feed_that_is_not_trading_reports_its_last_trading_price() {
    let account = price_account(5, PriceStatus::Halted, -7);
    let mut m = market();
    assert_eq!(resolve_market_at(&mut m, END, bytemuck::bytes_of(&account)), Ok(()));
    assert_eq!(m, resolved(false));
    let account = price_account(-5, PriceStatus::Unknown, 7);
    let mut m = market();
    assert_eq!(resolve_market_at(&mut m, END, bytemuck::bytes_of(&account)), Ok(()));
    assert_eq!(m, resolved(true));
}

#[test]
fn feed_is_read_wherever_its_bytes_lie() {
    let bytes = feed(-5);
    let mut shifted: Vec<u8> = vec![0u8; bytes.len() + 8];
    for offset in 0..8usize {
        shifted[offset..offset + bytes.len()].copy_from_slice(&bytes);
        let mut m = market();
        assert_eq!(resolve_market_at(&mut m, END, &shifted[offset..offset + bytes.len()]), Ok(()));
        assert_eq!(m, resolved(false));
    }
}

#[test]
fn longer_account_is_read_by_its_head() {
    let mut bytes = feed(9);
    bytes.extend_from_slice(&[0xffu8; 13]);
    let mut m = market();
    assert_eq!(resolve_market_at(&mut m, END, &bytes), Ok(()));
    assert_eq!(m, resolved(true));
}

#[test]
fn bytes_that_are_no_price_account_are_refused() {
    let mut m = market();
    assert_eq!(resolve_market_at(&mut m, END, &[]), Err(ErrorCode::InvalidPriceFeed));
    assert_eq!(resolve_market_at(&mut m, END, &[1, 2, 3]), Err(ErrorCode::InvalidPriceFeed));
    let mut short = feed(5);
    short.pop();
    assert_eq!(resolve_market_at(&mut m, END, &short), Err(ErrorCode::InvalidPriceFeed));
    let zeroes: Vec<u8> = vec![0u8; feed(5).len()];
    assert_eq!(resolve_market_at(&mut m, END, &zeroes), Err(ErrorCode::InvalidPriceFeed));
    assert_eq!(m, market());
}

#[test]
fn account_of_another_kind_or_version_is_refused() {
    let mut m = market();
    let mut account = price_account(5, PriceStatus::Trading, 0);
    account.atype = AccountType::Product as u32;
    assert_eq!(
        resolve_market_at(&mut m, END, bytemuck::bytes_of(&account)),
        Err(ErrorCode::InvalidPriceFeed)
    );
    let mut account = price_account(5, PriceStatus::Trading, 0);
    account.ver = 1;
    assert_eq!(
        resolve_market_at(&mut m, END, bytemuck::bytes_of(&account)),
        Err(ErrorCode::InvalidPriceFeed)
    );
    let mut account = price_account(5, PriceStatus::Trading, 0);
    account.magic = 0;
    assert_eq!(
        resolve_market_at(&mut m, END, bytemuck::bytes_of(&account)),
        Err(ErrorCode::InvalidPriceFeed)
    );
    assert_eq!(m, market());
}

#[test]
fn time_is_tested_before_the_feed() {
    let mut m = market();
    assert_eq!(resolve_market_at(&mut m, END - 1, &feed(5)), Err(ErrorCode::MarketNotEnded));
    assert_eq!(resolve_market_at(&mut m, END - 1, &[]), Err(ErrorCode::MarketNotEnded));
    assert_eq!(m, market());
}

#[test]
fn resolved_market_refuses_any_feed() {
    let mut m = resolved(true);
    assert_eq!(resolve_market_at(&mut m, END, &feed(-5)), Err(ErrorCode::MarketAlreadyResolved));
    assert_eq!(resolve_market_at(&mut m, END - 1, &[]), Err(ErrorCode::MarketAlreadyResolved));
    assert_eq!(resolve_market(&mut m, &feed(-5)), Err(ErrorCode::MarketAlreadyResolved));
    assert_eq!(m, resolved(true));
}

#[test]
fn without_a_clock_nothing_is_resolved() {
    let mut m = market();
    assert_eq!(resolve_market(&mut m, &feed(5)), Err(ErrorCode::ClockUnavailable));
    assert_eq!(m, market());
}

#[test]
fn outcome_shows_only_once_resolved() {
    let mut m = market();
    assert_eq!(m.settled_outcome(), None);
    m.outcome = true;
    assert_eq!(m.settled_outcome(), None);
    assert_eq!(resolved(true).settled_outcome(), Some(true));
    assert_eq!(resolved(false).settled_outcome(), Some(false));
}
