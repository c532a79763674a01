//! Symbols and the data subscriptions that identify a stream of market data.

use crate::resolution::Resolution;
use vstd::prelude::*;
use vstd::std_specs::cmp::PartialEqSpecImpl;

verus! {

/// Where market data for a symbol comes from.
#[derive(Clone, Copy, Debug, PartialEq, Eq, Structural, Hash)]
pub enum DataVendor {
    Test,
    Rithmic,
    Oanda,
    Bitget,
}

/// The kind of market a symbol trades in.
#[derive(Clone, Copy, Debug, PartialEq, Eq, Structural, Hash)]
pub enum MarketType {
    Forex,
    Cfd,
    Futures,
    Equities,
    Crypto,
    Fundamentals,
}

/// The shape of the items of a data stream.
#[derive(Clone, Copy, Debug, PartialEq, Eq, Structural, Hash)]
pub enum BaseDataType {
    Ticks,
    Quotes,
    Prices,
    QuoteBars,
    Candles,
    Fundamentals,
}

/// How the bars of a consolidated stream are formed.
#[derive(Clone, Copy, Debug, PartialEq, Eq, Structural, Hash)]
pub enum CandleType {
    CandleStick,
    HeikinAshi,
    Renko,
}

/// An instrument at a vendor. Two symbols are the same symbol exactly when
/// name, vendor and market type agree.
#[derive(Debug, Hash)]
pub struct Symbol {
    pub name: String,
    pub data_vendor: DataVendor,
    pub market_type: MarketType,
}

/// The identity of a [`Symbol`].
pub struct SymbolView {
    pub name: Seq<char>,
    pub data_vendor: DataVendor,
    pub market_type: MarketType,
}

impl View for Symbol {
    type V = SymbolView;

    open spec fn view(&self) -> SymbolView {
        SymbolView {
            name: self.name@,
            data_vendor: self.data_vendor,
            market_type: self.market_type,
        }
    }
}

impl Clone for Symbol {
    fn clone(&self) -> (copy: Self)
        ensures
            copy == *self,
    {
        Symbol {
            name: self.name.clone(),
            data_vendor: self.data_vendor,
            market_type: self.market_type,
        }
    }
}

impl PartialEq for Symbol {
    fn eq(&self, other: &Self) -> (same: bool) {
        self.name == other.name && self.data_vendor == other.data_vendor && self.market_type
            == other.market_type
    }
}

impl PartialEqSpecImpl for Symbol {
    open spec fn obeys_eq_spec() -> bool {
        true
    }

    open spec fn eq_spec(&self, other: &Self) -> bool {
        self@ == other@
    }
}

impl Eq for Symbol {

}

impl Symbol {
    pub fn new(name: String, data_vendor: DataVendor, market_type: MarketType) -> (symbol: Self)
        ensures
            symbol == (Symbol { name, data_vendor, market_type }),
    {
        Symbol { name, data_vendor, market_type }
    }
}

/// A request for one stream of data: which symbol, at which resolution, in
/// which shape. Subscriptions that differ only in candle type are distinct.
#[derive(Debug, Hash)]
pub struct DataSubscription {
    pub symbol: Symbol,
    pub resolution: Resolution,
    pub base_data_type: BaseDataType,
    pub market_type: MarketType,
    pub candle_type: Option<CandleType>,
}

/// The identity of a [`DataSubscription`].
pub struct DataSubscriptionView {
    pub symbol: SymbolView,
    pub resolution: Resolution,
    pub base_data_type: BaseDataType,
    pub market_type: MarketType,
    pub candle_type: Option<CandleType>,
}

impl View for DataSubscription {
    type V = DataSubscriptionView;

    open spec fn view(&self) -> DataSubscriptionView {
        DataSubscriptionView {
            symbol: self.symbol@,
            resolution: self.resolution,
            base_data_type: self.base_data_type,
            market_type: self.market_type,
            candle_type: self.candle_type,
        }
    }
}

impl Clone for DataSubscription {
    fn clone(&self) -> (copy: Self)
        ensures
            copy == *self,
    {
        DataSubscription {
            symbol: self.symbol.clone(),
            resolution: self.resolution,
            base_data_type: self.base_data_type,
            market_type: self.market_type,
            candle_type: self.candle_type,
        }
    }
}

impl PartialEq for DataSubscription {
    fn eq(&self, other: &Self) -> (same: bool) {
        let same_candle_type = match (self.candle_type, other.candle_type) {
            (Some(a), Some(b)) => a == b,
            (None, None) => true,
            _ => false,
        };
        self.symbol == other.symbol && self.resolution == other.resolution && self.base_data_type
            == other.base_data_type && self.market_type == other.market_type && same_candle_type
    }
}

impl PartialEqSpecImpl for DataSubscription {
    open spec fn obeys_eq_spec() -> bool {
        true
    }

    open spec fn eq_spec(&self, other: &Self) -> bool {
        self@ == other@
    }
}

impl Eq for DataSubscription {

}

impl DataSubscription {
    /// A subscription to data as the vendor shapes it, with no candle type.
    pub fn new(
        name: String,
        data_vendor: DataVendor,
        resolution: Resolution,
        base_data_type: BaseDataType,
        market_type: MarketType,
    ) -> (subscription: Self)
        ensures
            subscription == (DataSubscription {
                symbol: Symbol { name, data_vendor, market_type },
                resolution,
                base_data_type,
                market_type,
                candle_type: None,
            }),
    {
        DataSubscription {
            symbol: Symbol { name, data_vendor, market_type },
            resolution,
            base_data_type,
            market_type,
            candle_type: None,
        }
    }

    /// A subscription to bars of a given candle type.
    pub fn new_custom(
        name: String,
        data_vendor: DataVendor,
        resolution: Resolution,
        base_data_type: BaseDataType,
        market_type: MarketType,
        candle_type: CandleType,
    ) -> (subscription: Self)
        ensures
            subscription == (DataSubscription {
                symbol: Symbol { name, data_vendor, market_type },
                resolution,
                base_data_type,
                market_type,
                candle_type: Some(candle_type),
            }),
    {
        DataSubscription {
            symbol: Symbol { name, data_vendor, market_type },
            resolution,
            base_data_type,
            market_type,
            candle_type: Some(candle_type),
        }
    }

    /// The subscription that a piece of data belongs to.
    pub fn from_base_data(
        symbol: Symbol,
        resolution: Resolution,
        base_data_type: BaseDataType,
        candle_type: Option<CandleType>,
    ) -> (subscription: Self)
        ensures
            subscription == (DataSubscription {
                symbol,
                resolution,
                base_data_type,
                market_type: symbol.market_type,
                candle_type,
            }),
    {
        let market_type = symbol.market_type;
        DataSubscription { symbol, resolution, base_data_type, market_type, candle_type }
    }
}

/// One entry of a vendor's catalog: a resolution it serves natively, and the
/// shape of the data at that resolution.
#[derive(Clone, Copy, Debug, PartialEq, Eq, Structural, Hash)]
pub struct SubscriptionResolutionType {
    pub base_data_type: BaseDataType,
    pub resolution: Resolution,
}

impl SubscriptionResolutionType {
    pub fn new(resolution: Resolution, base_data_type: BaseDataType) -> (entry: Self)
        ensures
            entry == (SubscriptionResolutionType { base_data_type, resolution }),
    {
        SubscriptionResolutionType { base_data_type, resolution }
    }
}

/// A change to the set of subscriptions, reported to the strategy.
#[derive(Debug, PartialEq, Eq)]
pub enum DataSubscriptionEvent {
    Subscribed(DataSubscription),
    Unsubscribed(DataSubscription),
    Failed(DataSubscription),
}

impl Clone for DataSubscriptionEvent {
    fn clone(&self) -> (copy: Self)
        ensures
            copy == *self,
    {
        match self {
            DataSubscriptionEvent::Subscribed(s) => DataSubscriptionEvent::Subscribed(s.clone()),
            DataSubscriptionEvent::Unsubscribed(s) => DataSubscriptionEvent::Unsubscribed(
                s.clone(),
            ),
            DataSubscriptionEvent::Failed(s) => DataSubscriptionEvent::Failed(s.clone()),
        }
    }
}

/// Whether data of type `source` can be consolidated into data of type
/// `target`: trades, prices and candles make candles; quotes and quote bars
/// make quote bars; any other type is made only of itself.
pub open spec fn spec_can_source(source: BaseDataType, target: BaseDataType) -> bool {
    match target {
        BaseDataType::Candles => source == BaseDataType::Ticks || source == BaseDataType::Prices
            || source == BaseDataType::Candles,
        BaseDataType::QuoteBars => source == BaseDataType::Quotes || source
            == BaseDataType::QuoteBars,
        _ => source == target,
    }
}

pub fn can_source(source: BaseDataType, target: BaseDataType) -> (ok: bool)
    ensures
        ok == spec_can_source(source, target),
{
    match target {
        BaseDataType::Candles => source == BaseDataType::Ticks || source == BaseDataType::Prices
            || source == BaseDataType::Candles,
        BaseDataType::QuoteBars => source == BaseDataType::Quotes || source
            == BaseDataType::QuoteBars,
        _ => source == target,
    }
}

/// Whether a catalog entry can feed a subscription at `resolution` of type
/// `base_data_type`: its resolution is not above the target's, and its data
/// can be consolidated into the target's.
pub open spec fn spec_serves(
    entry: SubscriptionResolutionType,
    resolution: Resolution,
    base_data_type: BaseDataType,
) -> bool {
    (entry.resolution.precedes(resolution) || entry.resolution == resolution) && spec_can_source(
        entry.base_data_type,
        base_data_type,
    )
}

/// The entries of a vendor catalog that can feed the target, in catalog
/// order.
pub fn filter_resolutions(
    available: &Vec<SubscriptionResolutionType>,
    resolution: Resolution,
    base_data_type: BaseDataType,
) -> (kept: Vec<SubscriptionResolutionType>)
    ensures
        kept@ == available@.filter(
            |e: SubscriptionResolutionType| spec_serves(e, resolution, base_data_type),
        ),
{
    let mut kept: Vec<SubscriptionResolutionType> = Vec::new();
    let ghost keep = |e: SubscriptionResolutionType| spec_serves(e, resolution, base_data_type);
    let mut i: usize = 0;
    assert(available@.take(0) =~= Seq::<SubscriptionResolutionType>::empty());
    while i < available.len()
        invariant
            i <= available.len(),
            keep == |e: SubscriptionResolutionType| spec_serves(e, resolution, base_data_type),
            kept@ == available@.take(i as int).filter(keep),
        decreases available.len() - i,
    {
        let entry = available[i];
        proof {
            assert(available@.take(i + 1).drop_last() =~= available@.take(i as int));
            available@.take(i as int).lemma_filter_push(entry, keep);
            assert(available@.take(i + 1) =~= available@.take(i as int).push(entry));
        }
        if entry.resolution.is_at_most(&resolution) && can_source(
            entry.base_data_type,
            base_data_type,
        ) {
            kept.push(entry);
        }
        i = i + 1;
    }
    assert(available@.take(available.len() as int) =~= available@);
    kept
}

/// Whether `entries[at]` has the largest resolution among `entries`, and is
/// the last entry that has it.
pub open spec fn is_last_largest(entries: Seq<SubscriptionResolutionType>, at: int) -> bool {
    &&& 0 <= at < entries.len()
    &&& forall|j: int|
        0 <= j < entries.len() ==> !entries[at].resolution.precedes(
            (#[trigger] entries[j]).resolution,
        )
    &&& forall|j: int|
        at < j < entries.len() ==> (#[trigger] entries[j]).resolution.precedes(
            entries[at].resolution,
        )
}

/// The entry with the largest resolution; where several share it, the last
/// of them. `None` for an empty catalog.
pub fn largest_resolution(entries: &Vec<SubscriptionResolutionType>) -> (best: Option<
    SubscriptionResolutionType,
>)
    ensures
        entries@.len() == 0 ==> best is None,
        entries@.len() > 0 ==> best is Some && exists|at: int|
            is_last_largest(entries@, at) && entries@[at] == best->Some_0,
{
    if entries.len() == 0 {
        return None;
    }
    let mut at: usize = 0;
    let mut i: usize = 1;
    while i < entries.len()
        invariant
            1 <= i <= entries.len(),
            at < i,
            forall|j: int|
                0 <= j < i ==> !entries@[at as int].resolution.precedes(
                    (#[trigger] entries@[j]).resolution,
                ),
            forall|j: int|
                at < j < i ==> (#[trigger] entries@[j]).resolution.precedes(
                    entries@[at as int].resolution,
                ),
        decreases entries.len() - i,
    {
        proof {
            crate::resolution::lemma_resolution_order_total(
                entries@[at as int].resolution,
                entries@[i as int].resolution,
                entries@[at as int].resolution,
            );
            assert forall|j: int|
                0 <= j < i && (entries@[at as int].resolution.precedes(
                    entries@[i as int].resolution,
                ) || entries@[at as int].resolution
                    == entries@[i as int].resolution) implies !entries@[i as int].resolution.precedes(
                (#[trigger] entries@[j]).resolution,
            ) by {
                crate::resolution::lemma_resolution_order_total(
                    entries@[at as int].resolution,
                    entries@[i as int].resolution,
                    entries@[j].resolution,
                );
            }
        }
        if !entries[i].resolution.is_less_than(&entries[at].resolution) {
            at = i;
        }
        i = i + 1;
    }
    assert(is_last_largest(entries@, at as int));
    Some(entries[at])
}

/// Whether `entries[at]` has the smallest resolution among `entries`, and
/// is the first entry that has it.
pub open spec fn is_first_smallest(entries: Seq<SubscriptionResolutionType>, at: int) -> bool {
    &&& 0 <= at < entries.len()
    &&& forall|j: int|
        0 <= j < entries.len() ==> !(#[trigger] entries[j]).resolution.precedes(
            entries[at].resolution,
        )
    &&& forall|j: int|
        0 <= j < at ==> entries[at].resolution.precedes((#[trigger] entries[j]).resolution)
}

/// The entry with the smallest resolution; where several share it, the
/// first of them. `None` for an empty catalog.
pub fn smallest_resolution(entries: &Vec<SubscriptionResolutionType>) -> (best: Option<
    SubscriptionResolutionType,
>)
    ensures
        entries@.len() == 0 ==> best is None,
        entries@.len() > 0 ==> best is Some && exists|at: int|
            is_first_smallest(entries@, at) && entries@[at] == best->Some_0,
{
    if entries.len() == 0 {
        return None;
    }
    let mut at: usize = 0;
    let mut i: usize = 1;
    while i < entries.len()
        invariant
            1 <= i <= entries.len(),
            at < i,
            forall|j: int|
                0 <= j < i ==> !(#[trigger] entries@[j]).resolution.precedes(
                    entries@[at as int].resolution,
                ),
            forall|j: int|
                0 <= j < at ==> entries@[at as int].resolution.precedes(
                    (#[trigger] entries@[j]).resolution,
                ),
        decreases entries.len() - i,
    {
        proof {
            assert forall|j: int|
                0 <= j < i && entries@[i as int].resolution.precedes(
                    entries@[at as int].resolution,
                ) implies entries@[i as int].resolution.precedes(
                (#[trigger] entries@[j]).resolution,
            ) by {
                crate::resolution::lemma_resolution_order_total(
                    entries@[i as int].resolution,
                    entries@[at as int].resolution,
                    entries@[j].resolution,
                );
                crate::resolution::lemma_resolution_order_total(
                    entries@[j].resolution,
                    entries@[at as int].resolution,
                    entries@[i as int].resolution,
                );
            }
        }
        if entries[i].resolution.is_less_than(&entries[at].resolution) {
            at = i;
        }
        i = i + 1;
    }
    assert(is_first_smallest(entries@, at as int));
    Some(entries[at])
}

} // verus!
