//! The asset registry: the precision and the token identity of every asset
//! the exchange trades, and the rule that turns an order into the commitment
//! that the settlement layer takes.

use crate::decimal::{
    decimal_from_str,
    decimal_product,
    encode,
    encoding,
    multiply_decimals,
    parse_decimal,
    DecimalValue,
};
use crate::market::{
    base_of,
    is_pair,
    quote_of,
    side_of,
    split_market,
    OrderCommitment,
    OrderError,
    OrderPutRequest,
    OrderSide,
};
use vstd::hash_map::StringHashMap;
use vstd::prelude::*;

verus! {

/// One asset as the configuration names it.
#[derive(Clone, Debug)]
pub struct Asset {
    /// The identifier by which markets name the asset.
    pub id: String,
    /// The token id of the asset on the settlement layer.
    pub rollup_token_id: i32,
    /// The number of decimal places kept when an amount is stored.
    pub prec_save: u32,
    /// The number of decimal places shown to users.
    pub prec_show: u32,
}

/// What the registry knows of an asset.
#[derive(Clone, Copy, Debug, PartialEq, Eq, Hash, Structural)]
pub struct AssetInfo {
    pub prec_save: u32,
    pub prec_show: u32,
    pub inner_id: u32,
}

/// The registry of assets, by identifier.
pub struct AssetManager {
    pub assets: StringHashMap<AssetInfo>,
}

/// The registry entry that a configured asset gives rise to. The token id is
/// taken as an unsigned number of the same 32 bits.
pub open spec fn info_of(asset: Asset) -> AssetInfo {
    AssetInfo {
        prec_save: asset.prec_save,
        prec_show: asset.prec_show,
        inner_id: asset.rollup_token_id as u32,
    }
}

/// The registry `base` after the assets of `items` were entered one after
/// the other, each under its identifier.
pub open spec fn registered(base: Map<Seq<char>, AssetInfo>, items: Seq<Asset>) -> Map<
    Seq<char>,
    AssetInfo,
>
    decreases items.len(),
{
    if items.len() == 0 {
        base
    } else {
        registered(base, items.drop_last()).insert(items.last().id@, info_of(items.last()))
    }
}

/// Whether `at` is the last place in `items` that names the asset `id`.
pub open spec fn last_entry(items: Seq<Asset>, id: Seq<char>, at: int) -> bool {
    &&& 0 <= at < items.len()
    &&& items[at].id@ == id
    &&& forall|later: int| at < later < items.len() ==> items[later].id@ != id
}

/// Whether `items` names the asset `id` anywhere.
pub open spec fn names(items: Seq<Asset>, id: Seq<char>) -> bool {
    exists|at: int| 0 <= at < items.len() && #[trigger] items[at].id@ == id
}

/// The commitment of an order on two known assets, given the amount and the
/// product of amount and price. An ask sells the base asset for the quote
/// asset, a bid buys it; the amount counts in the base asset and the product
/// in the quote asset, each at the save precision of its asset.
pub open spec fn settlement(
    base: AssetInfo,
    quote: AssetInfo,
    side: OrderSide,
    amount: DecimalValue,
    total: Option<DecimalValue>,
) -> Result<OrderCommitment, OrderError> {
    match total {
        None => Err(OrderError::Total),
        Some(total) => match (encoding(amount, base.prec_save), encoding(total, quote.prec_save)) {
            (Some(base_total), Some(quote_total)) => match side {
                OrderSide::Ask => Ok(
                    OrderCommitment {
                        token_buy: quote.inner_id as u64,
                        token_sell: base.inner_id as u64,
                        total_buy: quote_total,
                        total_sell: base_total,
                    },
                ),
                OrderSide::Bid => Ok(
                    OrderCommitment {
                        token_buy: base.inner_id as u64,
                        token_sell: quote.inner_id as u64,
                        total_buy: base_total,
                        total_sell: quote_total,
                    },
                ),
            },
            _ => Err(OrderError::Total),
        },
    }
}

/// The product of amount and price, where both are numbers.
pub open spec fn product_of(amount: Option<DecimalValue>, price: Option<DecimalValue>) -> Option<
    DecimalValue,
> {
    match (amount, price) {
        (Some(amount), Some(price)) => decimal_product(amount, price),
        _ => None,
    }
}

/// The outcome of committing an order, given what its amount and price were
/// read as and what their product is. The checks come in this order: the
/// market, the base asset, the quote asset, the amount, the price, the side,
/// the totals.
pub open spec fn order_commitment(
    assets: Map<Seq<char>, AssetInfo>,
    market: Seq<char>,
    side: i32,
    amount: Option<DecimalValue>,
    price: Option<DecimalValue>,
    total: Option<DecimalValue>,
) -> Result<OrderCommitment, OrderError> {
    if !is_pair(market) {
        Err(OrderError::Market)
    } else if !assets.contains_key(base_of(market)) {
        Err(OrderError::BaseToken)
    } else if !assets.contains_key(quote_of(market)) {
        Err(OrderError::QuoteToken)
    } else if amount is None {
        Err(OrderError::Amount)
    } else if price is None {
        Err(OrderError::Price)
    } else if side_of(side) is None {
        Err(OrderError::Side)
    } else {
        settlement(
            assets[base_of(market)],
            assets[quote_of(market)],
            side_of(side)->Some_0,
            amount->Some_0,
            total,
        )
    }
}

/// The token id of a configured asset is its number where that is not
/// negative, and its number plus two to the power 32 where it is.
pub proof fn lemma_inner_id(raw: i32)
    ensures
        raw >= 0 ==> raw as u32 == raw,
        raw < 0 ==> raw as u32 == raw + 0x1_0000_0000,
{
    assert(raw >= 0 ==> raw as u32 == raw) by (bit_vector);
    assert(raw < 0 ==> raw as u32 == raw + 0x1_0000_0000) by (bit_vector);
}

/// An asset that `items` does not name is in the registry as it was before.
pub proof fn lemma_registered_keeps(base: Map<Seq<char>, AssetInfo>, items: Seq<Asset>, id: Seq<char>)
    requires
        !names(items, id),
    ensures
        registered(base, items).contains_key(id) == base.contains_key(id),
        base.contains_key(id) ==> registered(base, items)[id] == base[id],
    decreases items.len(),
{
    if items.len() > 0 {
        let rest = items.drop_last();
        assert(items[items.len() - 1].id@ != id);
        assert forall|at: int| 0 <= at < rest.len() implies #[trigger] rest[at].id@ != id by {
            assert(rest[at] == items[at]);
        }
        lemma_registered_keeps(base, rest, id);
    }
}

/// The last entry wins: an asset that `items` names stands in the registry
/// with what the last place that names it says.
pub proof fn lemma_registered_last_wins(
    base: Map<Seq<char>, AssetInfo>,
    items: Seq<Asset>,
    id: Seq<char>,
    at: int,
)
    requires
        last_entry(items, id, at),
    ensures
        registered(base, items).contains_key(id),
        registered(base, items)[id] == info_of(items[at]),
    decreases items.len(),
{
    if at < items.len() - 1 {
        let rest = items.drop_last();
        assert(rest[at] == items[at]);
        assert forall|later: int| at < later < rest.len() implies rest[later].id@ != id by {
            assert(rest[later] == items[later]);
        }
        lemma_registered_last_wins(base, rest, id, at);
        assert(items[items.len() - 1].id@ != id);
    }
}

fn entry_of(asset: &Asset) -> (info: AssetInfo)
    ensures
        info == info_of(*asset),
{
    AssetInfo {
        prec_save: asset.prec_save,
        prec_show: asset.prec_show,
        inner_id: #[verifier::truncate]
        (asset.rollup_token_id as u32),
    }
}

/// Commits an order on two known assets, given its amount and the product of
/// amount and price.
pub fn settle(
    base: &AssetInfo,
    quote: &AssetInfo,
    side: OrderSide,
    amount: DecimalValue,
    total: Option<DecimalValue>,
) -> (outcome: Result<OrderCommitment, OrderError>)
    ensures
        outcome == settlement(*base, *quote, side, amount, total),
{
    let total = match total {
        Some(total) => total,
        None => {
            return Err(OrderError::Total);
        },
    };
    let base_total = match encode(amount, base.prec_save) {
        Some(encoded) => encoded,
        None => {
            return Err(OrderError::Total);
        },
    };
    let quote_total = match encode(total, quote.prec_save) {
        Some(encoded) => encoded,
        None => {
            return Err(OrderError::Total);
        },
    };
    match side {
        OrderSide::Ask => Ok(
            OrderCommitment {
                token_buy: quote.inner_id as u64,
                token_sell: base.inner_id as u64,
                total_buy: quote_total,
                total_sell: base_total,
            },
        ),
        OrderSide::Bid => Ok(
            OrderCommitment {
                token_buy: base.inner_id as u64,
                token_sell: quote.inner_id as u64,
                total_buy: base_total,
                total_sell: quote_total,
            },
        ),
    }
}

impl View for AssetManager {
    type V = Map<Seq<char>, AssetInfo>;

    open spec fn view(&self) -> Map<Seq<char>, AssetInfo> {
        self.assets@
    }
}

impl AssetManager {
    /// Builds the registry of the configured assets. Where two of them share
    /// an identifier, the later one stands.
    pub fn new(asset_config: &[Asset]) -> (manager: Result<AssetManager, OrderError>)
        ensures
            manager is Ok,
            manager->Ok_0@ == registered(Map::empty(), asset_config@),
    {
        let mut manager = AssetManager { assets: StringHashMap::new() };
        manager.append(asset_config);
        Ok(manager)
    }

    /// Enters the configured assets into the registry, each in place of what
    /// stood under its identifier before.
    pub fn append(&mut self, asset_config: &[Asset])
        ensures
            final(self)@ == registered(old(self)@, asset_config@),
    {
        let mut index: usize = 0;
        while index < asset_config.len()
            invariant
                index <= asset_config.len(),
                self@ == registered(old(self)@, asset_config@.subrange(0, index as int)),
            decreases asset_config.len() - index,
        {
            let item = &asset_config[index];
            proof {
                let taken = asset_config@.subrange(0, index + 1);
                assert(taken.drop_last() =~= asset_config@.subrange(0, index as int));
                assert(taken.last() == asset_config@[index as int]);
            }
            self.assets.insert(item.id.clone(), entry_of(item));
            index = index + 1;
        }
        proof {
            assert(asset_config@.subrange(0, index as int) =~= asset_config@);
        }
    }

    /// Whether the asset `id` is registered.
    pub fn asset_exist(&self, id: &str) -> (exists: bool)
        ensures
            exists == self@.contains_key(id@),
    {
        self.assets.contains_key(id)
    }

    /// What the registry knows of the asset `id`, if it is registered.
    pub fn asset_get(&self, id: &str) -> (info: Option<&AssetInfo>)
        ensures
            match info {
                Some(found) => self@.contains_key(id@) && *found == self@[id@],
                None => !self@.contains_key(id@),
            },
    {
        self.assets.get(id)
    }

    /// The save precision of a registered asset.
    pub fn asset_prec(&self, id: &str) -> (prec: u32)
        requires
            self@.contains_key(id@),
        ensures
            prec == self@[id@].prec_save,
    {
        match self.assets.get(id) {
            Some(info) => info.prec_save,
            None => 0,
        }
    }

    /// The show precision of a registered asset.
    pub fn asset_prec_show(&self, id: &str) -> (prec: u32)
        requires
            self@.contains_key(id@),
        ensures
            prec == self@[id@].prec_show,
    {
        match self.assets.get(id) {
            Some(info) => info.prec_show,
            None => 0,
        }
    }

    /// Translates an order into its commitment. Fails, in this order, on a
    /// market that is no pair, on an unknown base or quote asset, on an
    /// amount or price that is no decimal number, on a side that is neither
    /// ask nor bid, and on a total that has no fixed-width form. The registry
    /// is left as it is.
    pub fn commit_order(&self, o: &OrderPutRequest) -> (outcome: Result<
        OrderCommitment,
        OrderError,
    >)
        ensures
            outcome == order_commitment(
                self@,
                o.market@,
                o.order_side,
                decimal_from_str(o.amount@),
                decimal_from_str(o.price@),
                product_of(decimal_from_str(o.amount@), decimal_from_str(o.price@)),
            ),
    {
        let (base_id, quote_id) = match split_market(o.market.as_str()) {
            Some(parts) => parts,
            None => {
                return Err(OrderError::Market);
            },
        };
        let base_token = match self.asset_get(base_id) {
            Some(token) => token,
            None => {
                return Err(OrderError::BaseToken);
            },
        };
        let quote_token = match self.asset_get(quote_id) {
            Some(token) => token,
            None => {
                return Err(OrderError::QuoteToken);
            },
        };
        let amount = match parse_decimal(o.amount.as_str()) {
            Some(number) => number,
            None => {
                return Err(OrderError::Amount);
            },
        };
        let price = match parse_decimal(o.price.as_str()) {
            Some(number) => number,
            None => {
                return Err(OrderError::Price);
            },
        };
        let side = match OrderSide::from_i32(o.order_side) {
            Some(side) => side,
            None => {
                return Err(OrderError::Side);
            },
        };
        settle(base_token, quote_token, side, amount, multiply_decimals(amount, price))
    }
}

} // verus!
