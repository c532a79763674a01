//! The book of resting bids and asks of one symbol, by level. Level 0 is the
//! top of the book.

use crate::base_data::Price;
use crate::subscriptions::Symbol;
use std::collections::BTreeMap;
use vstd::prelude::*;

verus! {

broadcast use {vstd::std_specs::btree::group_btree_axioms, vstd::laws_cmp::group_laws_cmp};

/// A subscription to the depth of the book of a symbol.
#[derive(Debug, PartialEq, Eq)]
pub struct LevelTwoSubscription {
    pub symbol: Symbol,
    pub time: i64,
}

impl LevelTwoSubscription {
    pub fn new(symbol: Symbol, time: i64) -> (subscription: Self)
        ensures
            subscription == (LevelTwoSubscription { symbol, time }),
    {
        LevelTwoSubscription { symbol, time }
    }
}

/// New prices for some levels of a book.
pub struct OrderBookUpdate {
    pub symbol: Symbol,
    pub bid: BTreeMap<u8, Price>,
    pub ask: BTreeMap<u8, Price>,
    pub time: i64,
}

impl OrderBookUpdate {
    pub open spec fn spec_time(&self) -> i64 {
        self.time
    }

    pub fn new(symbol: Symbol, bid: BTreeMap<u8, Price>, ask: BTreeMap<u8, Price>, time: i64) -> (update:
        Self)
        ensures
            update.symbol == symbol,
            update.bid == bid,
            update.ask == ask,
            update.spec_time() == time,
    {
        OrderBookUpdate { symbol, bid, ask, time }
    }

    /// An update of one level on both sides.
    pub fn single(symbol: Symbol, level: u8, bid: Price, ask: Price, time: i64) -> (update: Self)
        ensures
            update.symbol == symbol,
            update.bid@ == Map::<u8, Price>::empty().insert(level, bid),
            update.ask@ == Map::<u8, Price>::empty().insert(level, ask),
            update.spec_time() == time,
    {
        let mut bids = BTreeMap::new();
        bids.insert(level, bid);
        let mut asks = BTreeMap::new();
        asks.insert(level, ask);
        OrderBookUpdate { symbol, bid: bids, ask: asks, time }
    }

    pub fn time_utc(&self) -> (time: i64)
        ensures
            time == self.spec_time(),
    {
        self.time
    }
}

/// The levels of one side of a book after an update: every level the
/// update names takes the price of the update, every other level keeps its
/// price.
pub open spec fn spec_merge_levels(book: Map<u8, Price>, update: Map<u8, Price>) -> Map<u8, Price> {
    book.union_prefer_right(update)
}

fn merge_levels(book: &mut BTreeMap<u8, Price>, update: &BTreeMap<u8, Price>)
    ensures
        final(book)@ == spec_merge_levels(old(book)@, update@),
{
    let mut level: u8 = 0;
    let mut done = false;
    while !done
        invariant
            forall|k: u8|
                (k < level || done) ==> (#[trigger] book@.contains_key(k) <==> (old(
                    book,
                )@.contains_key(k) || update@.contains_key(k))),
            forall|k: u8|
                (k < level || done) && #[trigger] book@.contains_key(k) ==> book@[k] == (
                if update@.contains_key(k) {
                    update@[k]
                } else {
                    old(book)@[k]
                }),
            forall|k: u8|
                !(k < level || done) ==> (#[trigger] book@.contains_key(k) <==> old(
                    book,
                )@.contains_key(k)),
            forall|k: u8|
                !(k < level || done) && #[trigger] book@.contains_key(k) ==> book@[k] == old(
                    book,
                )@[k],
        decreases (if done { 0int } else { 256 - level }),
    {
        match update.get(&level) {
            Some(price) => {
                book.insert(level, *price);
            },
            None => {},
        }
        if level == 255 {
            done = true;
        } else {
            level = level + 1;
        }
    }
    assert(book@ =~= spec_merge_levels(old(book)@, update@));
}

/// The book of one symbol.
pub struct OrderBook {
    symbol: Symbol,
    bid: BTreeMap<u8, Price>,
    ask: BTreeMap<u8, Price>,
    time: i64,
}

/// What a book holds.
pub struct OrderBookView {
    pub symbol: Symbol,
    pub bid: Map<u8, Price>,
    pub ask: Map<u8, Price>,
    pub time: i64,
}

impl View for OrderBook {
    type V = OrderBookView;

    closed spec fn view(&self) -> OrderBookView {
        OrderBookView { symbol: self.symbol, bid: self.bid@, ask: self.ask@, time: self.time }
    }
}

impl OrderBookView {
    /// The book after an update. An update for another symbol changes
    /// nothing.
    pub open spec fn updated(
        self,
        symbol: Symbol,
        bid: Map<u8, Price>,
        ask: Map<u8, Price>,
        time: i64,
    ) -> OrderBookView {
        if symbol@ == self.symbol@ {
            OrderBookView {
                symbol: self.symbol,
                bid: spec_merge_levels(self.bid, bid),
                ask: spec_merge_levels(self.ask, ask),
                time,
            }
        } else {
            self
        }
    }

    pub open spec fn level(side: Map<u8, Price>, index: u8) -> Option<Price> {
        if side.contains_key(index) {
            Some(side[index])
        } else {
            None
        }
    }
}

impl OrderBook {
    /// An empty book.
    pub fn new(symbol: Symbol, time: i64) -> (book: Self)
        ensures
            book@ == (OrderBookView { symbol, bid: Map::empty(), ask: Map::empty(), time }),
    {
        OrderBook { symbol, bid: BTreeMap::new(), ask: BTreeMap::new(), time }
    }

    /// Takes the prices of an update into the book.
    pub fn update(&mut self, updates: &OrderBookUpdate)
        ensures
            final(self)@ == old(self)@.updated(
                updates.symbol,
                updates.bid@,
                updates.ask@,
                updates.spec_time(),
            ),
    {
        if !(updates.symbol == self.symbol) {
            return ;
        }
        merge_levels(&mut self.bid, &updates.bid);
        merge_levels(&mut self.ask, &updates.ask);
        self.time = updates.time;
    }

    pub fn symbol(&self) -> (symbol: &Symbol)
        ensures
            *symbol == self@.symbol,
    {
        &self.symbol
    }

    pub fn time_utc(&self) -> (time: i64)
        ensures
            time == self@.time,
    {
        self.time
    }

    /// The ask at a level, if the book has one.
    pub fn ask_index(&self, index: u8) -> (price: Option<Price>)
        ensures
            price == OrderBookView::level(self@.ask, index),
    {
        match self.ask.get(&index) {
            Some(price) => Some(*price),
            None => None,
        }
    }

    /// The bid at a level, if the book has one.
    pub fn bid_index(&self, index: u8) -> (price: Option<Price>)
        ensures
            price == OrderBookView::level(self@.bid, index),
    {
        match self.bid.get(&index) {
            Some(price) => Some(*price),
            None => None,
        }
    }

    pub fn get_ask_book(&self) -> (side: &BTreeMap<u8, Price>)
        ensures
            side@ == self@.ask,
    {
        &self.ask
    }

    pub fn get_bid_book(&self) -> (side: &BTreeMap<u8, Price>)
        ensures
            side@ == self@.bid,
    {
        &self.bid
    }
}

impl Clone for OrderBook {
    fn clone(&self) -> (copy: Self)
        ensures
            copy@ == self@,
    {
        OrderBook {
            symbol: self.symbol.clone(),
            bid: self.bid.clone(),
            ask: self.ask.clone(),
            time: self.time,
        }
    }
}

} // verus!
