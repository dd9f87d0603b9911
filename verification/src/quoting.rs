//! Prices of assets in USD, by ticker, as the quoting service keeps them,
//! and the conversion of a price quoted in another asset to USD.
use crate::decimal::{decimal_checked_mul, Dec, DecView};
use dashmap::DashMap;
use vstd::prelude::*;

verus! {

/// `dashmap::DashMap`, a concurrent hash map.
#[verifier::external_type_specification]
#[verifier::external_body]
#[verifier::reject_recursive_types(K)]
#[verifier::reject_recursive_types(V)]
#[verifier::reject_recursive_types(S)]
pub struct ExDashMap<K, V, S>(DashMap<K, V, S>);

/// A table of prices by ticker.
pub type PriceTable = DashMap<String, Dec>;

/// The `(ticker, price)` entries a price table holds.
pub uninterp spec fn table_prices(m: PriceTable) -> Map<Seq<char>, DecView>;

/// No prices.
pub open spec fn no_prices() -> Map<Seq<char>, DecView> {
    Map::empty()
}

/// Calls `DashMap::new`, which makes an empty map.
#[verifier::external_body]
fn new_table() -> (r: PriceTable)
    ensures
        table_prices(r) == no_prices(),
{
    DashMap::new()
}

/// Calls `DashMap::get` and copies the value found: the value of `key`, if
/// the map holds it.
#[verifier::external_body]
fn table_get(m: &PriceTable, key: &str) -> (r: Option<Dec>)
    ensures
        r is Some <==> table_prices(*m).contains_key(key@),
        r matches Some(d) ==> d@ == table_prices(*m)[key@],
{
    m.get(key).map(|v| *v.value())
}

/// Calls `DashMap::insert`, which (its documentation) maps `key` to `value`
/// and returns the value `key` had before, if any.
#[verifier::external_body]
fn table_insert(m: &mut PriceTable, key: String, value: Dec) -> (r: Option<Dec>)
    ensures
        table_prices(*final(m)) == table_prices(*old(m)).insert(key@, value@),
        r is Some <==> table_prices(*old(m)).contains_key(key@),
        r matches Some(d) ==> d@ == table_prices(*old(m))[key@],
{
    m.insert(key, value)
}

/// The uppercase of a text, as `str::to_uppercase` makes it.
pub uninterp spec fn unicode_uppercase(s: Seq<char>) -> Seq<char>;

/// Calls `str::to_uppercase`.
#[verifier::external_body]
fn to_uppercase(s: &str) -> (r: String)
    ensures
        r@ == unicode_uppercase(s@),
{
    s.to_uppercase()
}

/// The USD prices of assets, by ticker in uppercase.
pub struct QuotedAssets {
    prices: PriceTable,
}

/// The price `Decimal::new` makes of a raw price and its number of
/// decimals: the raw price, cut to its low 64 bits read as `i64`, over
/// `10^decimals`.
pub open spec fn scaled_price(price: (u128, u32)) -> DecView {
    ((price.0 as i64) as int, price.1 as nat)
}

/// Every price in `m` is at least zero.
pub open spec fn no_negative_price(m: Map<Seq<char>, DecView>) -> bool {
    forall|k: Seq<char>| #[trigger] m.contains_key(k) ==> m[k].0 >= 0
}

impl QuotedAssets {
    /// The prices held, by ticker.
    pub closed spec fn prices(&self) -> Map<Seq<char>, DecView> {
        table_prices(self.prices)
    }

    /// The price held for `coin` (looked up in uppercase), if any.
    pub fn get(&self, coin: &str) -> (r: Option<Dec>)
        ensures
            r is Some <==> self.prices().contains_key(unicode_uppercase(coin@)),
            r matches Some(d) ==> d@ == self.prices()[unicode_uppercase(coin@)],
    {
        let key = to_uppercase(coin);
        table_get(&self.prices, key.as_str())
    }

    fn put(&mut self, key: String, price: Dec) -> (r: Option<Dec>)
        ensures
            final(self).prices() == old(self).prices().insert(key@, price@),
            r is Some <==> old(self).prices().contains_key(key@),
            r matches Some(d) ==> d@ == old(self).prices()[key@],
    {
        table_insert(&mut self.prices, key, price)
    }

    /// Records the price of `coin` (under its uppercase) from a raw price and
    /// its number of decimals, and gives the price it replaces; a negative
    /// price is not recorded and gives `None`.
    pub fn insert(&mut self, coin: &str, price: (u128, u32)) -> (r: Option<Dec>)
        requires
            price.1 <= 28,
        ensures
            scaled_price(price).0 < 0 ==> r is None && final(self).prices() == old(self).prices(),
            scaled_price(price).0 >= 0 ==> {
                &&& final(self).prices() == old(self).prices().insert(
                    unicode_uppercase(coin@),
                    scaled_price(price),
                )
                &&& r is Some <==> old(self).prices().contains_key(unicode_uppercase(coin@))
                &&& r matches Some(d) ==> d@ == old(self).prices()[unicode_uppercase(coin@)]
            },
            no_negative_price(old(self).prices()) ==> no_negative_price(final(self).prices()),
    {
        let mantissa: i64 = price.0 as i64;
        let d = match Dec::new(mantissa as i128, price.1) {
            Some(d) => d,
            None => {
                proof {
                    assert(false);
                }
                return None;
            },
        };
        if d.is_negative() {
            return None;
        }
        let key = to_uppercase(coin);
        self.put(key, d)
    }
}

/// The USD price `price` quoted in `quote_asset` stands for, given the
/// prices held: the price itself for `USD`; else the price times the USD
/// price of the asset, or, when none is held, the message naming the asset.
/// `None` where the product overflows.
pub open spec fn quote_in_usd_spec(
    prices: Map<Seq<char>, DecView>,
    quote_asset: Seq<char>,
    price: DecView,
) -> Option<Result<DecView, Seq<char>>> {
    let asset = unicode_uppercase(quote_asset);
    if asset == "USD"@ {
        Some(Ok(price))
    } else if !prices.contains_key(asset) {
        Some(Err("No USD price found for quote asset "@ + asset))
    } else {
        match decimal_checked_mul(price, prices[asset]) {
            None => None,
            Some(p) => Some(Ok(p)),
        }
    }
}

/// `r` is the answer `s` describes.
pub open spec fn quote_result_is(r: Result<Dec, String>, s: Result<DecView, Seq<char>>) -> bool {
    match (r, s) {
        (Ok(d), Ok(v)) => d@ == v,
        (Err(m), Err(msg)) => m@ == msg,
        _ => false,
    }
}

impl QuotedAssets {
    /// Converts a price quoted in `quote_asset` to USD.
    pub fn quote_in_usd(&self, quote_asset: &str, price: Dec) -> (r: Result<Dec, String>)
        requires
            quote_in_usd_spec(self.prices(), quote_asset@, price@) is Some,
        ensures
            quote_result_is(r, quote_in_usd_spec(self.prices(), quote_asset@, price@)->0),
    {
        let asset = to_uppercase(quote_asset);
        if crate::text::str_eq(asset.as_str(), "USD") {
            return Ok(price);
        }
        match table_get(&self.prices, asset.as_str()) {
            None => {
                let mut msg = "No USD price found for quote asset ".to_owned();
                msg.append(asset.as_str());
                Err(msg)
            },
            Some(usd) => match price.checked_mul(&usd) {
                Some(p) => Ok(p),
                None => {
                    proof {
                        assert(false);
                    }
                    Err(asset)
                },
            },
        }
    }

    /// `quote_in_usd` where the product does not overflow, `None` where it
    /// would.
    pub fn try_quote_in_usd(&self, quote_asset: &str, price: Dec) -> (r: Option<Result<Dec, String>>)
        ensures
            r is Some <==> quote_in_usd_spec(self.prices(), quote_asset@, price@) is Some,
            r matches Some(res) ==> quote_result_is(
                res,
                quote_in_usd_spec(self.prices(), quote_asset@, price@)->0,
            ),
    {
        let asset = to_uppercase(quote_asset);
        if !crate::text::str_eq(asset.as_str(), "USD") {
            if let Some(usd) = table_get(&self.prices, asset.as_str()) {
                if price.checked_mul(&usd).is_none() {
                    return None;
                }
            }
        }
        Some(self.quote_in_usd(quote_asset, price))
    }
}

impl Default for QuotedAssets {
    /// No prices.
    fn default() -> (r: QuotedAssets)
        ensures
            r.prices() == no_prices(),
            no_negative_price(r.prices()),
    {
        QuotedAssets { prices: new_table() }
    }
}

/// The prices recorded from `(ticker, price)` entries, in order: each price
/// that is not negative is recorded under its ticker in uppercase, a later
/// one replacing an earlier one.
pub open spec fn prices_of(entries: Seq<(Seq<char>, DecView)>) -> Map<Seq<char>, DecView>
    decreases entries.len(),
{
    if entries.len() == 0 {
        no_prices()
    } else {
        let m = prices_of(entries.drop_last());
        let (ticker, price) = entries.last();
        if price.0 < 0 {
            m
        } else {
            m.insert(unicode_uppercase(ticker), price)
        }
    }
}

impl QuotedAssets {
    /// The prices of `(ticker, price)` entries.
    pub fn from_prices(entries: Vec<(String, Dec)>) -> (r: QuotedAssets)
        ensures
            r.prices() == prices_of(entries@.map_values(|e: (String, Dec)| (e.0@, e.1@))),
            no_negative_price(r.prices()),
    {
        let ghost views = entries@.map_values(|e: (String, Dec)| (e.0@, e.1@));
        let mut q = QuotedAssets::default();
        let mut i: usize = 0;
        while i < entries.len()
            invariant
                i <= entries.len(),
                views == entries@.map_values(|e: (String, Dec)| (e.0@, e.1@)),
                q.prices() == prices_of(views.take(i as int)),
                no_negative_price(q.prices()),
            decreases entries.len() - i,
        {
            proof {
                assert(views.take(i + 1).drop_last() =~= views.take(i as int));
                assert(views.take(i + 1).last() == views[i as int]);
            }
            let price = entries[i].1;
            if !price.is_negative() {
                let key = to_uppercase(entries[i].0.as_str());
                q.put(key, price);
            }
            i = i + 1;
        }
        proof {
            assert(views.take(entries.len() as int) =~= views);
        }
        q
    }

    /// The prices of `(ticker, (raw price, decimals))` entries, each price
    /// made as `Decimal::new` makes it.
    pub fn from_scaled_prices(entries: Vec<(String, (u128, u32))>) -> (r: QuotedAssets)
        requires
            forall|i: int| 0 <= i < entries@.len() ==> (#[trigger] entries@[i]).1.1 <= 28,
        ensures
            r.prices() == prices_of(
                entries@.map_values(|e: (String, (u128, u32))| (e.0@, scaled_price(e.1))),
            ),
            no_negative_price(r.prices()),
    {
        let ghost views = entries@.map_values(|e: (String, (u128, u32))| (e.0@, scaled_price(e.1)));
        let mut q = QuotedAssets::default();
        let mut i: usize = 0;
        while i < entries.len()
            invariant
                i <= entries.len(),
                forall|j: int| 0 <= j < entries@.len() ==> (#[trigger] entries@[j]).1.1 <= 28,
                views == entries@.map_values(|e: (String, (u128, u32))| (e.0@, scaled_price(e.1))),
                q.prices() == prices_of(views.take(i as int)),
                no_negative_price(q.prices()),
            decreases entries.len() - i,
        {
            proof {
                assert(views.take(i + 1).drop_last() =~= views.take(i as int));
                assert(views.take(i + 1).last() == views[i as int]);
            }
            q.insert(entries[i].0.as_str(), entries[i].1);
            i = i + 1;
        }
        proof {
            assert(views.take(entries.len() as int) =~= views);
        }
        q
    }
}

/// After a price that is not negative is recorded for a coin, the coin
/// reads that price back, and every coin with another uppercase reads what
/// it read before.
pub proof fn lemma_insert_then_get(
    before: QuotedAssets,
    after: QuotedAssets,
    coin: Seq<char>,
    price: (u128, u32),
    other: Seq<char>,
)
    requires
        scaled_price(price).0 >= 0,
        after.prices() == before.prices().insert(unicode_uppercase(coin), scaled_price(price)),
    ensures
        after.prices().contains_key(unicode_uppercase(coin)),
        after.prices()[unicode_uppercase(coin)] == scaled_price(price),
        unicode_uppercase(other) != unicode_uppercase(coin) ==> {
            &&& after.prices().contains_key(unicode_uppercase(other))
                == before.prices().contains_key(unicode_uppercase(other))
            &&& after.prices()[unicode_uppercase(other)] == before.prices()[unicode_uppercase(other)]
        },
{
}

} // verus!
