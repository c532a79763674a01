//! The caches the matching engine reads prices from: the last trade price
//! and the order book of each symbol, by symbol name.
//!
//! The maps are those of the `dashmap` and `ahash` crates. What this module
//! states about them is taken on trust from their sources.

use crate::base_data::Price;
use crate::order_book::OrderBook;
use ahash::AHashMap;
use dashmap::DashMap;
use vstd::prelude::*;

verus! {

/// `dashmap::DashMap`. What a map holds is known only through
/// [`last_prices`].
#[verifier::external_type_specification]
#[verifier::external_body]
#[verifier::reject_recursive_types(K)]
#[verifier::reject_recursive_types(V)]
#[verifier::reject_recursive_types(S)]
pub struct ExDashMap<K, V, S>(DashMap<K, V, S>);

/// `ahash::AHashMap`. What a map holds is known only through
/// [`order_books`].
#[verifier::external_type_specification]
#[verifier::external_body]
#[verifier::reject_recursive_types(K)]
#[verifier::reject_recursive_types(V)]
#[verifier::reject_recursive_types(S)]
pub struct ExAHashMap<K, V, S>(AHashMap<K, V, S>);

/// `ahash::RandomState`, the hasher of an `AHashMap`. Nothing is said of
/// it.
#[verifier::external_type_specification]
#[verifier::external_body]
pub struct ExAHashState(ahash::RandomState);

/// A cache of last trade prices by symbol name.
pub type PriceCache = DashMap<String, Price>;

/// A cache of order books by symbol name.
pub type BookCache = AHashMap<String, OrderBook>;

/// The last trade price of each symbol that a price cache holds.
pub uninterp spec fn last_prices(cache: DashMap<String, Price>) -> Map<Seq<char>, Price>;

/// The order book of each symbol that a book cache holds.
pub uninterp spec fn order_books(cache: AHashMap<String, OrderBook>) -> Map<Seq<char>, OrderBook>;

/// `DashMap::new`: a new map holds nothing.
#[verifier::external_body]
pub(crate) fn new_price_cache() -> (cache: PriceCache)
    ensures
        (last_prices(cache) == Map::<Seq<char>, Price>::empty()),
{
    DashMap::new()
}

/// `DashMap::insert`: afterwards the key maps to the value, and every other
/// key maps to what it mapped to before.
#[verifier::external_body]
pub(crate) fn cache_price(cache: &mut DashMap<String, Price>, symbol_name: String, price: Price)
    ensures
        last_prices(*final(cache)) == last_prices(*old(cache)).insert(symbol_name@, price),
{
    cache.insert(symbol_name, price);
}

/// `DashMap::get`: the value the key maps to, if it maps to one.
#[verifier::external_body]
pub(crate) fn cached_price(cache: &DashMap<String, Price>, symbol_name: &String) -> (price: Option<
    Price,
>)
    ensures
        price == (if last_prices(*cache).contains_key(symbol_name@) {
            Some(last_prices(*cache)[symbol_name@])
        } else {
            None
        }),
{
    match cache.get(symbol_name) {
        Some(entry) => Some(*entry.value()),
        None => None,
    }
}

/// `AHashMap::new`: a new map holds nothing.
#[verifier::external_body]
pub(crate) fn new_book_cache() -> (cache: BookCache)
    ensures
        (order_books(cache) == Map::<Seq<char>, OrderBook>::empty()),
{
    AHashMap::new()
}

/// `AHashMap::insert`: afterwards the key maps to the value, and every
/// other key maps to what it mapped to before.
#[verifier::external_body]
pub(crate) fn cache_book(cache: &mut AHashMap<String, OrderBook>, symbol_name: String, book: OrderBook)
    ensures
        order_books(*final(cache)) == order_books(*old(cache)).insert(symbol_name@, book),
{
    cache.insert(symbol_name, book);
}

/// `AHashMap::remove`: the value the key mapped to, if it mapped to one;
/// afterwards the key maps to nothing and every other key maps to what it
/// mapped to before.
#[verifier::external_body]
pub(crate) fn take_book(cache: &mut AHashMap<String, OrderBook>, symbol_name: &String) -> (book: Option<
    OrderBook,
>)
    ensures
        order_books(*final(cache)) == order_books(*old(cache)).remove(symbol_name@),
        book == (if order_books(*old(cache)).contains_key(symbol_name@) {
            Some(order_books(*old(cache))[symbol_name@])
        } else {
            None
        }),
{
    cache.remove(symbol_name)
}

/// `AHashMap::get`: the value the key maps to, if it maps to one.
#[verifier::external_body]
pub(crate) fn cached_book<'a>(cache: &'a AHashMap<String, OrderBook>, symbol_name: &String) -> (book:
    Option<&'a OrderBook>)
    ensures
        book == (if order_books(*cache).contains_key(symbol_name@) {
            Some(&order_books(*cache)[symbol_name@])
        } else {
            None
        }),
{
    cache.get(symbol_name)
}

} // verus!
