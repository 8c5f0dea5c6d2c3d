use exchange_persist::market::{split_market, OrderError, OrderSide};

#[test]
fn split_market_of_a_pair() {
    assert_eq!(split_market("ETH_USDT"), Some(("ETH", "USDT")));
    assert_eq!(split_market("a_b"), Some(("a", "b")));
}

#[test]
fn split_market_allows_empty_parts() {
    assert_eq!(split_market("_USDT"), Some(("", "USDT")));
    assert_eq!(split_market("ETH_"), Some(("ETH", "")));
    assert_eq!(split_market("_"), Some(("", "")));
}

#[test]
fn split_market_refuses_no_separator() {
    assert_eq!(split_market("ETHUSDT"), None);
    assert_eq!(split_market(""), None);
    assert_eq!(split_market("ETH-USDT"), None);
}

#[test]
fn split_market_refuses_more_than_one_separator() {
    assert_eq!(split_market("ETH_USDT_X"), None);
    assert_eq!(split_market("__"), None);
    assert_eq!(split_market("_ETH_"), None);
}

#[test]
fn split_market_counts_characters_not_bytes() {
    assert_eq!(split_market("\u{20ac}UR_\u{a5}EN"), Some(("\u{20ac}UR", "\u{a5}EN")));
}

#[test]
fn side_from_its_number() {
    assert_eq!(OrderSide::from_i32(0), Some(OrderSide::Ask));
    assert_eq!(OrderSide::from_i32(1), Some(OrderSide::Bid));
    assert_eq!(OrderSide::from_i32(2), None);
    assert_eq!(OrderSide::from_i32(-1), None);
    assert_eq!(OrderSide::from_i32(i32::MAX), None);
}

#[test]
fn error_messages() {
    assert_eq!(OrderError::Market.message(), "market error");
    assert_eq!(OrderError::BaseToken.message(), "market base_token error");
    assert_eq!(OrderError::QuoteToken.message(), "market quote_token error");
    assert_eq!(OrderError::Amount.message(), "amount error");
    assert_eq!(OrderError::Price.message(), "price error");
    assert_eq!(OrderError::Side.message(), "market error");
    assert_eq!(OrderError::Total.message(), "total error");
}
