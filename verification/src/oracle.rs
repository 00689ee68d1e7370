//! The price oracle: what a Pyth price account says.

use pyth_sdk_solana::state::load_price_account;
use pyth_sdk_solana::PythError;
use vstd::prelude::*;

verus! {

/// `pyth_sdk_solana::PythError`: why bytes are not a price account. The library reads nothing
/// in it.
#[verifier::external_type_specification]
#[verifier::external_body]
pub struct ExPythError(PythError);

/// The price that a Pyth price account of these bytes reports, or `None` where the bytes are no
/// price account. This names what `pyth_sdk_solana` computes from the bytes; the library does
/// not say how.
pub uninterp spec fn feed_price(data: Seq<u8>) -> Option<i64>;

/// Reads the price out of the bytes of a Pyth price account.
///
/// The bytes are parsed by `pyth_sdk_solana::state::load_price_account`, the account is turned
/// into a feed by `PriceAccount::to_price_feed`, and the feed's price is taken by
/// `PriceFeed::get_price_unchecked`, which checks neither its age nor its confidence. The claim
/// is only that the result is a function of the bytes, named `feed_price`.
///
/// The parser demands bytes aligned as a price account is, so they are first copied into
/// storage of 64-bit words. The feed's identifier, which comes from the account's address, is
/// not read, so no address is asked for.
#[verifier::external_body]
pub(crate) fn read_feed_price(data: &[u8]) -> (price: Result<i64, PythError>)
    ensures
        match price {
            Ok(value) => feed_price(data@) == Some(value),
            Err(_) => feed_price(data@) is None,
        },
{
    let words: Vec<u64> = bytemuck::pod_collect_to_vec(data);
    let aligned: &[u8] = &bytemuck::cast_slice(&words)[..data.len()];
    let account = load_price_account(aligned)?;
    Ok(account.to_price_feed(&Default::default()).get_price_unchecked().price)
}

} // verus!
