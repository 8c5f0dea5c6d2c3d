//! Orders as the exchange receives them, the commitments the settlement layer
//! takes, and the rule that splits a market identifier into its two assets.

use vstd::prelude::*;
use vstd::string::*;

verus! {

/// The character between the base asset and the quote asset of a market.
pub const SEPARATOR: char = '_';

/// The side of an order.
#[derive(Clone, Copy, Debug, PartialEq, Eq, Structural)]
pub enum OrderSide {
    /// Sells the base asset for the quote asset.
    Ask,
    /// Buys the base asset with the quote asset.
    Bid,
}

/// The side that the number `raw` stands for on the wire: 0 for ask, 1 for
/// bid, none for any other number.
pub open spec fn side_of(raw: i32) -> Option<OrderSide> {
    if raw == 0 {
        Some(OrderSide::Ask)
    } else if raw == 1 {
        Some(OrderSide::Bid)
    } else {
        None
    }
}

impl OrderSide {
    /// Reads a side from its number on the wire.
    pub fn from_i32(raw: i32) -> (side: Option<OrderSide>)
        ensures
            side == side_of(raw),
    {
        if raw == 0 {
            Some(OrderSide::Ask)
        } else if raw == 1 {
            Some(OrderSide::Bid)
        } else {
            None
        }
    }
}

/// A request to put an order on a market.
#[derive(Clone, Debug)]
pub struct OrderPutRequest {
    /// The market, as base asset, separator, quote asset.
    pub market: String,
    /// The side, by its number on the wire.
    pub order_side: i32,
    /// The amount of the base asset, as a decimal number.
    pub amount: String,
    /// The price of one unit of the base asset in the quote asset.
    pub price: String,
}

/// What an order commits its owner to, in the fixed-width form the settlement
/// layer takes: the tokens by their inner ids, the totals as integers at the
/// save precision of their assets.
#[derive(Clone, Copy, Debug, PartialEq, Eq, Structural)]
pub struct OrderCommitment {
    pub token_buy: u64,
    pub token_sell: u64,
    pub total_buy: u64,
    pub total_sell: u64,
}

/// Why an order cannot be committed.
#[derive(Clone, Copy, Debug, PartialEq, Eq, Structural)]
pub enum OrderError {
    /// The market is not two asset identifiers around one separator.
    Market,
    /// The base asset is not registered.
    BaseToken,
    /// The quote asset is not registered.
    QuoteToken,
    /// The amount is no decimal number.
    Amount,
    /// The price is no decimal number.
    Price,
    /// The side is neither ask nor bid.
    Side,
    /// A total is negative or too large for its fixed-width form.
    Total,
}

/// The text of the message for `error`.
pub open spec fn message_of(error: OrderError) -> Seq<char> {
    match error {
        OrderError::Market => "market error"@,
        OrderError::BaseToken => "market base_token error"@,
        OrderError::QuoteToken => "market quote_token error"@,
        OrderError::Amount => "amount error"@,
        OrderError::Price => "price error"@,
        OrderError::Side => "market error"@,
        OrderError::Total => "total error"@,
    }
}

impl OrderError {
    /// A short description of the failure.
    pub fn message(&self) -> (text: String)
        ensures
            text@ == message_of(*self),
    {
        match self {
            OrderError::Market => String::from_str("market error"),
            OrderError::BaseToken => String::from_str("market base_token error"),
            OrderError::QuoteToken => String::from_str("market quote_token error"),
            OrderError::Amount => String::from_str("amount error"),
            OrderError::Price => String::from_str("price error"),
            OrderError::Side => String::from_str("market error"),
            OrderError::Total => String::from_str("total error"),
        }
    }
}

/// Whether `market` holds exactly one separator, at index `at`.
pub open spec fn separated_at(market: Seq<char>, at: int) -> bool {
    &&& 0 <= at < market.len()
    &&& market[at] == SEPARATOR
    &&& forall|other: int| 0 <= other < market.len() && other != at ==> market[other] != SEPARATOR
}

/// Whether `market` holds exactly one separator.
pub open spec fn is_pair(market: Seq<char>) -> bool {
    exists|at: int| separated_at(market, at)
}

/// The index of the one separator of a market that is a pair.
pub open spec fn separator_index(market: Seq<char>) -> int {
    choose|at: int| separated_at(market, at)
}

/// The base asset of a market that is a pair: what stands before the
/// separator.
pub open spec fn base_of(market: Seq<char>) -> Seq<char> {
    market.subrange(0, separator_index(market))
}

/// The quote asset of a market that is a pair: what stands after the
/// separator.
pub open spec fn quote_of(market: Seq<char>) -> Seq<char> {
    market.subrange(separator_index(market) + 1, market.len() as int)
}

/// A market has at most one index at which it is separated.
pub proof fn lemma_separator_unique(market: Seq<char>, first: int, second: int)
    requires
        separated_at(market, first),
        separated_at(market, second),
    ensures
        first == second,
{
}

/// A pair is its base asset, the separator and its quote asset, and neither
/// asset holds a separator.
pub proof fn lemma_pair_parts(market: Seq<char>)
    requires
        is_pair(market),
    ensures
        market == base_of(market) + seq![SEPARATOR] + quote_of(market),
        !base_of(market).contains(SEPARATOR),
        !quote_of(market).contains(SEPARATOR),
{
    let at = separator_index(market);
    assert(separated_at(market, at));
    assert(market =~= base_of(market) + seq![SEPARATOR] + quote_of(market));
    if base_of(market).contains(SEPARATOR) {
        let i = choose|i: int| 0 <= i < base_of(market).len() && base_of(market)[i] == SEPARATOR;
        assert(market[i] == SEPARATOR);
    }
    if quote_of(market).contains(SEPARATOR) {
        let i = choose|i: int|
            0 <= i < quote_of(market).len() && quote_of(market)[i] == SEPARATOR;
        assert(market[at + 1 + i] == SEPARATOR);
    }
}

/// Splits a market identifier into its base and quote asset identifiers.
/// `None` unless the identifier holds exactly one separator; either part may
/// be empty.
pub fn split_market(market: &str) -> (parts: Option<(&str, &str)>)
    ensures
        match parts {
            Some((base, quote)) => is_pair(market@) && base@ == base_of(market@) && quote@
                == quote_of(market@),
            None => !is_pair(market@),
        },
{
    let length = market.unicode_len();
    let mut found: Option<usize> = None;
    let mut index: usize = 0;
    while index < length
        invariant
            index <= length,
            length == market@.len(),
            match found {
                Some(at) => at < index && market@[at as int] == SEPARATOR && forall|other: int|
                    0 <= other < index && other != at ==> market@[other] != SEPARATOR,
                None => forall|other: int| 0 <= other < index ==> market@[other] != SEPARATOR,
            },
        decreases length - index,
    {
        if market.get_char(index) == SEPARATOR {
            match found {
                Some(at) => {
                    proof {
                        assert forall|any: int| !separated_at(market@, any) by {
                            if separated_at(market@, any) {
                                if any == at as int {
                                    assert(market@[index as int] == SEPARATOR);
                                } else {
                                    assert(market@[at as int] == SEPARATOR);
                                }
                            }
                        }
                    }
                    return None;
                },
                None => {
                    found = Some(index);
                },
            }
        }
        index = index + 1;
    }
    match found {
        Some(at) => {
            proof {
                assert(separated_at(market@, at as int));
                lemma_separator_unique(market@, at as int, separator_index(market@));
            }
            let base = market.substring_char(0, at);
            let quote = market.substring_char(at + 1, length);
            Some((base, quote))
        },
        None => {
            proof {
                assert forall|any: int| !separated_at(market@, any) by {}
            }
            None
        },
    }
}

} // verus!
