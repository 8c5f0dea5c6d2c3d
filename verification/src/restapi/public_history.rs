//! The limits of a request for the recent trades of a market.

use vstd::prelude::*;

verus! {

/// The number of trades returned when a request names no usable limit.
pub const DEFAULT_TRADE_LIMIT: usize = 20;

/// The largest number of trades one request can get.
pub const MAX_TRADE_LIMIT: usize = 100;

/// The number of trades to return for a request that asked for `requested`.
pub open spec fn limit_for(requested: Option<usize>) -> usize {
    match requested {
        Some(asked) => if asked < MAX_TRADE_LIMIT {
            asked
        } else {
            MAX_TRADE_LIMIT
        },
        None => DEFAULT_TRADE_LIMIT,
    }
}

/// Whether trades can be listed for `market`. Every market is accepted.
pub fn check_market_exists(_market: &str) -> (exists: bool)
    ensures
        exists,
{
    true
}

/// Bounds the number of trades a request gets: what it asked for, at most
/// `MAX_TRADE_LIMIT`, and `DEFAULT_TRADE_LIMIT` where it named no number.
pub fn trade_limit(requested: Option<usize>) -> (limit: usize)
    ensures
        limit == limit_for(requested),
        limit <= MAX_TRADE_LIMIT,
{
    match requested {
        Some(asked) => if asked < MAX_TRADE_LIMIT {
            asked
        } else {
            MAX_TRADE_LIMIT
        },
        None => DEFAULT_TRADE_LIMIT,
    }
}

} // verus!
