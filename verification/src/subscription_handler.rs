//! Subscriptions of a strategy: which primary feeds are needed, and which
//! consolidators derive the other streams from them.
//!
//! For each symbol one primary subscription comes from the vendor as it is.
//! Every other subscription of the symbol is served by a consolidator that
//! is fed the primary data. The primary is always the finest stream of the
//! symbol, so that it can feed them all.

use crate::base_data::BaseDataEnum;
use crate::consolidators::candlesticks::ConsolidatorError;
use crate::consolidators::consolidator_enum::{
    spec_create, spec_warmup_margin, warmup_start, ConsolidationSettings, ConsolidatorEnum,
    ConsolidatorModel,
};
use crate::resolution::Resolution;
use crate::rolling_window::{window_after_add, RollingWindow};
use crate::strategy_events::StrategyMode;
use crate::subscriptions::{
    can_source, filter_resolutions, is_first_smallest, is_last_largest, largest_resolution,
    smallest_resolution, spec_serves, BaseDataType, DataSubscription, DataSubscriptionEvent,
    DataSubscriptionView, SubscriptionResolutionType, Symbol,
};
use vstd::prelude::*;

verus! {

/// Why a subscription could not be made or removed.
#[derive(Clone, Copy, Debug, PartialEq, Eq, Structural)]
pub enum SubscriptionError {
    /// The vendor serves no resolution for the market of the symbol.
    NoResolutions,
    /// A tick subscription was asked for and the vendor serves no ticks.
    NoTickData,
    /// The vendor serves nothing that the subscription can be made from.
    NoCompatibleResolution,
    /// The primary feed the subscription needs cannot feed the other
    /// subscriptions of the symbol.
    Incompatible,
    /// No consolidator can be built for the subscription.
    Consolidator(ConsolidatorError),
    /// The primary subscription still feeds consolidators.
    PrimaryInUse,
    /// The strategy holds no such subscription.
    NotSubscribed,
    /// The subscription is in another symbol than the handler it was given
    /// to.
    WrongSymbol,
}

/// Whether data of subscription `primary` can be consolidated into
/// `target`: its resolution is not above the target's and its data type can
/// be turned into the target's.
pub open spec fn spec_can_feed(primary: DataSubscription, target: DataSubscription) -> bool {
    spec_serves(
        SubscriptionResolutionType {
            base_data_type: primary.base_data_type,
            resolution: primary.resolution,
        },
        target.resolution,
        target.base_data_type,
    )
}

pub fn can_feed(primary: &DataSubscription, target: &DataSubscription) -> (ok: bool)
    ensures
        ok == spec_can_feed(*primary, *target),
{
    primary.resolution.is_at_most(&target.resolution) && can_source(
        primary.base_data_type,
        target.base_data_type,
    )
}

/// Index of the first catalog entry for exactly this resolution and data
/// type, from `from` on.
pub open spec fn find_entry(
    catalog: Seq<SubscriptionResolutionType>,
    resolution: Resolution,
    base_data_type: BaseDataType,
    from: int,
) -> Option<int>
    decreases catalog.len() - from,
{
    if from < 0 || from >= catalog.len() {
        None
    } else if catalog[from].resolution == resolution && catalog[from].base_data_type
        == base_data_type {
        Some(from)
    } else {
        find_entry(catalog, resolution, base_data_type, from + 1)
    }
}

fn in_catalog(
    catalog: &Vec<SubscriptionResolutionType>,
    resolution: Resolution,
    base_data_type: BaseDataType,
) -> (found: bool)
    ensures
        found == find_entry(catalog@, resolution, base_data_type, 0) is Some,
{
    let mut i: usize = 0;
    while i < catalog.len()
        invariant
            i <= catalog.len(),
            find_entry(catalog@, resolution, base_data_type, 0) == find_entry(
                catalog@,
                resolution,
                base_data_type,
                i as int,
            ),
        decreases catalog.len() - i,
    {
        if catalog[i].resolution == resolution && catalog[i].base_data_type == base_data_type {
            return true;
        }
        i = i + 1;
    }
    false
}

/// The primary feed for a subscription, and whether a consolidator is
/// needed to derive the subscription from it.
pub struct PrimaryChoice {
    pub primary: DataSubscription,
    pub consolidated: bool,
}

/// The vendor subscription a catalog entry stands for.
pub open spec fn spec_vendor_subscription(
    wanted: DataSubscription,
    resolution: Resolution,
    base_data_type: BaseDataType,
) -> DataSubscription {
    DataSubscription {
        symbol: wanted.symbol,
        resolution,
        base_data_type,
        market_type: wanted.market_type,
        candle_type: None,
    }
}

/// Whether `choice` is a right choice of primary for `wanted` given the
/// catalog of the vendor.
///
/// A subscription the vendor serves as it is, is its own primary. A
/// subscription at a tick resolution is counted from single ticks. Any
/// other subscription is consolidated from the catalog entry with the
/// largest resolution not above its own, of a data type it can be made
/// from; where several entries share that resolution, from the last.
pub open spec fn is_primary_choice(
    wanted: DataSubscription,
    catalog: Seq<SubscriptionResolutionType>,
    choice: Result<PrimaryChoice, SubscriptionError>,
) -> bool {
    let served = catalog.filter(
        |e: SubscriptionResolutionType| spec_serves(e, wanted.resolution, wanted.base_data_type),
    );
    if catalog.len() == 0 {
        choice == Err::<PrimaryChoice, SubscriptionError>(SubscriptionError::NoResolutions)
    } else if find_entry(catalog, wanted.resolution, wanted.base_data_type, 0) is Some {
        choice == Ok::<PrimaryChoice, SubscriptionError>(
            PrimaryChoice { primary: wanted, consolidated: false },
        )
    } else if wanted.resolution is Ticks {
        if find_entry(catalog, Resolution::Ticks(1), BaseDataType::Ticks, 0) is Some {
            choice == Ok::<PrimaryChoice, SubscriptionError>(
                PrimaryChoice {
                    primary: spec_vendor_subscription(
                        wanted,
                        Resolution::Ticks(1),
                        BaseDataType::Ticks,
                    ),
                    consolidated: true,
                },
            )
        } else {
            choice == Err::<PrimaryChoice, SubscriptionError>(SubscriptionError::NoTickData)
        }
    } else if served.len() == 0 {
        choice == Err::<PrimaryChoice, SubscriptionError>(
            SubscriptionError::NoCompatibleResolution,
        )
    } else {
        exists|at: int|
            is_last_largest(served, at) && choice == Ok::<PrimaryChoice, SubscriptionError>(
                PrimaryChoice {
                    primary: spec_vendor_subscription(
                        wanted,
                        served[at].resolution,
                        served[at].base_data_type,
                    ),
                    consolidated: true,
                },
            )
    }
}

/// Chooses the primary feed for a subscription from the catalog of its
/// vendor.
pub fn select_primary(wanted: &DataSubscription, catalog: &Vec<SubscriptionResolutionType>) -> (choice:
    Result<PrimaryChoice, SubscriptionError>)
    ensures
        is_primary_choice(*wanted, catalog@, choice),
{
    if catalog.len() == 0 {
        return Err(SubscriptionError::NoResolutions);
    }
    if in_catalog(catalog, wanted.resolution, wanted.base_data_type) {
        return Ok(PrimaryChoice { primary: wanted.clone(), consolidated: false });
    }
    if wanted.resolution.is_ticks() {
        if !in_catalog(catalog, Resolution::Ticks(1), BaseDataType::Ticks) {
            return Err(SubscriptionError::NoTickData);
        }
        return Ok(
            PrimaryChoice {
                primary: DataSubscription {
                    symbol: wanted.symbol.clone(),
                    resolution: Resolution::Ticks(1),
                    base_data_type: BaseDataType::Ticks,
                    market_type: wanted.market_type,
                    candle_type: None,
                },
                consolidated: true,
            },
        );
    }
    let served = filter_resolutions(catalog, wanted.resolution, wanted.base_data_type);
    match largest_resolution(&served) {
        None => Err(SubscriptionError::NoCompatibleResolution),
        Some(entry) => Ok(
            PrimaryChoice {
                primary: DataSubscription {
                    symbol: wanted.symbol.clone(),
                    resolution: entry.resolution,
                    base_data_type: entry.base_data_type,
                    market_type: wanted.market_type,
                    candle_type: None,
                },
                consolidated: true,
            },
        ),
    }
}

/// What to fetch to warm up the consolidator of a subscription.
#[derive(Debug, PartialEq, Eq)]
pub struct WarmupPlan {
    /// The vendor subscription to fetch.
    pub source: DataSubscription,
    /// The span to fetch and replay.
    pub from_time: i64,
    pub to_time: i64,
}

/// Whether `plan` is the warm-up plan for `wanted`: the data is fetched
/// at the smallest resolution the vendor serves that the subscription can
/// be made from, the first of them in the catalog where several share it,
/// over the span that ends at `to_time` and covers `history_len` bars and
/// four days more. There is no plan where the vendor serves nothing the
/// subscription can be made from or the span cannot be represented.
pub open spec fn is_warmup_plan(
    plan: Option<WarmupPlan>,
    wanted: DataSubscription,
    catalog: Seq<SubscriptionResolutionType>,
    to_time: i64,
    history_len: u64,
) -> bool {
    let served = catalog.filter(
        |e: SubscriptionResolutionType| spec_serves(e, wanted.resolution, wanted.base_data_type),
    );
    let from = to_time - spec_warmup_margin(wanted.resolution, history_len);
    if served.len() == 0 || from < i64::MIN {
        plan is None
    } else {
        exists|at: int|
            is_first_smallest(served, at) && plan == Some(
                WarmupPlan {
                    source: spec_vendor_subscription(
                        wanted,
                        served[at].resolution,
                        served[at].base_data_type,
                    ),
                    from_time: from as i64,
                    to_time,
                },
            )
    }
}

/// Plans the warm-up of the consolidator of a subscription up to
/// `to_time`.
pub fn warmup_plan(
    wanted: &DataSubscription,
    catalog: &Vec<SubscriptionResolutionType>,
    to_time: i64,
    history_len: u64,
) -> (plan: Option<WarmupPlan>)
    ensures
        is_warmup_plan(plan, *wanted, catalog@, to_time, history_len),
{
    let served = filter_resolutions(catalog, wanted.resolution, wanted.base_data_type);
    let entry = match smallest_resolution(&served) {
        Some(entry) => entry,
        None => {
            return None;
        },
    };
    let from_time = match warmup_start(to_time, &wanted.resolution, history_len) {
        Some(from_time) => from_time,
        None => {
            return None;
        },
    };
    Some(
        WarmupPlan {
            source: DataSubscription {
                symbol: wanted.symbol.clone(),
                resolution: entry.resolution,
                base_data_type: entry.base_data_type,
                market_type: wanted.market_type,
                candle_type: None,
            },
            from_time,
            to_time,
        },
    )
}

/// The state of the subscriptions of one symbol.
pub struct SymbolSubscriptions {
    pub symbol: Symbol,
    /// The feed that comes from the vendor.
    pub primary: DataSubscription,
    /// Whether the strategy asked for the primary itself.
    pub primary_requested: bool,
    /// The consolidators, in the order they were added.
    pub secondaries: Seq<ConsolidatorModel>,
    /// The events not yet collected.
    pub events: Seq<DataSubscriptionEvent>,
    pub is_warmed_up: bool,
    /// The primary data retained, newest first.
    pub primary_history: Seq<BaseDataEnum>,
    pub capacity: nat,
    pub settings: ConsolidationSettings,
}

/// Index of the first consolidator that serves the subscription, from
/// `from` on.
pub open spec fn find_secondary(
    secondaries: Seq<ConsolidatorModel>,
    subscription: DataSubscriptionView,
    from: int,
) -> Option<int>
    decreases secondaries.len() - from,
{
    if from < 0 || from >= secondaries.len() {
        None
    } else if secondaries[from].subscription()@ == subscription {
        Some(from)
    } else {
        find_secondary(secondaries, subscription, from + 1)
    }
}

/// Consolidators and outputs after every consolidator has been fed a datum,
/// in order.
pub open spec fn spec_feed(secondaries: Seq<ConsolidatorModel>, data: BaseDataEnum) -> (
    Seq<ConsolidatorModel>,
    Seq<BaseDataEnum>,
)
    decreases secondaries.len(),
{
    if secondaries.len() == 0 {
        (Seq::empty(), Seq::empty())
    } else {
        let (fed, out) = spec_feed(secondaries.drop_last(), data);
        let (next, more) = secondaries.last().update(data);
        (fed.push(next), out + more)
    }
}

/// Consolidators and outputs after the clock of every consolidator has been
/// advanced, in order.
pub open spec fn spec_tick(secondaries: Seq<ConsolidatorModel>, time: int) -> (
    Seq<ConsolidatorModel>,
    Seq<BaseDataEnum>,
)
    decreases secondaries.len(),
{
    if secondaries.len() == 0 {
        (Seq::empty(), Seq::empty())
    } else {
        let (fed, out) = spec_tick(secondaries.drop_last(), time);
        let (next, more) = secondaries.last().update_time(time);
        (fed.push(next), out + more)
    }
}

/// Whether `primary` can feed every one of the consolidators.
pub open spec fn feeds_all(primary: DataSubscription, secondaries: Seq<ConsolidatorModel>) -> bool {
    forall|i: int|
        0 <= i < secondaries.len() ==> spec_can_feed(
            primary,
            (#[trigger] secondaries[i]).subscription(),
        )
}

impl SymbolSubscriptions {
    /// What every reachable state satisfies.
    pub open spec fn wf(self) -> bool {
        &&& forall|i: int| 0 <= i < self.secondaries.len() ==> (#[trigger] self.secondaries[i]).wf()
        &&& self.primary.symbol@ == self.symbol@
        &&& self.primary_history.len() <= self.capacity
    }

    /// Whether the strategy holds the subscription in this symbol.
    pub open spec fn holds(self, subscription: DataSubscriptionView) -> bool {
        (self.primary_requested && self.primary@ == subscription) || find_secondary(
            self.secondaries,
            subscription,
            0,
        ) is Some
    }

    /// Whether the strategy holds nothing in the symbol any more.
    pub open spec fn is_empty(self) -> bool {
        !self.primary_requested && self.secondaries.len() == 0
    }

    /// State and output after a datum of the primary feed: the datum joins
    /// the primary history and is fed to every consolidator.
    pub open spec fn update(self, data: BaseDataEnum) -> (SymbolSubscriptions, Seq<BaseDataEnum>) {
        let (secondaries, out) = spec_feed(self.secondaries, data);
        (
            SymbolSubscriptions {
                secondaries,
                primary_history: window_after_add(self.primary_history, self.capacity, data),
                ..self
            },
            out,
        )
    }

    /// State and output after the clock has been advanced.
    pub open spec fn update_time(self, time: int) -> (SymbolSubscriptions, Seq<BaseDataEnum>) {
        let (secondaries, out) = spec_tick(self.secondaries, time);
        (SymbolSubscriptions { secondaries, ..self }, out)
    }

    /// The state after the subscription has been added as a consolidator on
    /// the present primary.
    pub open spec fn with_secondary(self, model: ConsolidatorModel) -> SymbolSubscriptions {
        SymbolSubscriptions {
            secondaries: self.secondaries.push(model),
            events: self.events.push(DataSubscriptionEvent::Subscribed(model.subscription())),
            ..self
        }
    }
}

/// The subscriptions of one symbol: the primary feed and the consolidators
/// it feeds.
pub struct SymbolSubscriptionHandler {
    primary_subscription: DataSubscription,
    primary_requested: bool,
    secondary_subscriptions: Vec<ConsolidatorEnum>,
    symbol: Symbol,
    subscription_event_buffer: Vec<DataSubscriptionEvent>,
    is_warmed_up: bool,
    primary_history: RollingWindow<BaseDataEnum>,
    settings: ConsolidationSettings,
}

impl View for SymbolSubscriptionHandler {
    type V = SymbolSubscriptions;

    closed spec fn view(&self) -> SymbolSubscriptions {
        SymbolSubscriptions {
            symbol: self.symbol,
            primary: self.primary_subscription,
            primary_requested: self.primary_requested,
            secondaries: self.secondary_subscriptions@.map_values(|c: ConsolidatorEnum| c@),
            events: self.subscription_event_buffer@,
            is_warmed_up: self.is_warmed_up,
            primary_history: self.primary_history@,
            capacity: self.primary_history.capacity(),
            settings: self.settings,
        }
    }
}

/// What the first subscription in a symbol leads to: the primary is chosen
/// from the catalog, and the subscription is either the primary itself or a
/// consolidator on it.
pub open spec fn is_first_subscription(
    made: Result<SymbolSubscriptions, SubscriptionError>,
    wanted: DataSubscription,
    catalog: Seq<SubscriptionResolutionType>,
    capacity: usize,
    settings: ConsolidationSettings,
    is_warmed_up: bool,
) -> bool {
    match made {
        Ok(state) => exists|choice: PrimaryChoice|
            is_primary_choice(wanted, catalog, Ok::<PrimaryChoice, SubscriptionError>(choice)) && (
            choice.consolidated ==> spec_create(wanted, capacity, settings) is Ok) && state == (
            SymbolSubscriptions {
                symbol: wanted.symbol,
                primary: choice.primary,
                primary_requested: !choice.consolidated,
                secondaries: if choice.consolidated {
                    seq![spec_create(wanted, capacity, settings)->Ok_0]
                } else {
                    Seq::empty()
                },
                events: seq![DataSubscriptionEvent::Subscribed(wanted)],
                is_warmed_up,
                primary_history: Seq::empty(),
                capacity: capacity as nat,
                settings,
            }),
        Err(e) => is_primary_choice(wanted, catalog, Err::<PrimaryChoice, SubscriptionError>(e))
            || exists|choice: PrimaryChoice|
            is_primary_choice(wanted, catalog, Ok::<PrimaryChoice, SubscriptionError>(choice))
                && choice.consolidated && e is Consolidator && spec_create(
                wanted,
                capacity,
                settings,
            ) == Err::<ConsolidatorModel, ConsolidatorError>(e->Consolidator_0),
    }
}

/// What subscribing leads to in a symbol that has subscriptions already.
///
/// A subscription in another symbol is refused. A subscription already
/// held changes nothing. One the primary can feed gets a consolidator. A
/// finer one becomes, or brings, a new primary chosen from the catalog,
/// which must be able to feed the consolidators there are and the old
/// primary; the old primary is then consolidated from the new one.
pub open spec fn is_subscribed(
    before: SymbolSubscriptions,
    after: SymbolSubscriptions,
    outcome: Result<(), SubscriptionError>,
    wanted: DataSubscription,
    catalog: Seq<SubscriptionResolutionType>,
    capacity: usize,
) -> bool {
    let made = spec_create(wanted, capacity, before.settings);
    if wanted.symbol@ != before.symbol@ {
        outcome == Err::<(), SubscriptionError>(SubscriptionError::WrongSymbol) && after == before
    } else if before.holds(wanted@) {
        outcome is Ok && after == before
    } else if wanted@ == before.primary@ {
        outcome is Ok && after == (SymbolSubscriptions {
            primary_requested: true,
            events: before.events.push(DataSubscriptionEvent::Subscribed(wanted)),
            ..before
        })
    } else if spec_can_feed(before.primary, wanted) {
        match made {
            Ok(model) => outcome is Ok && after == before.with_secondary(model),
            Err(e) => outcome == Err::<(), SubscriptionError>(SubscriptionError::Consolidator(e))
                && after == before,
        }
    } else {
        exists|choice: Result<PrimaryChoice, SubscriptionError>|
            is_primary_choice(wanted, catalog, choice) && is_resubscribed(
                before,
                after,
                outcome,
                wanted,
                choice,
                capacity,
            )
    }
}

/// What subscribing leads to once the new primary has been chosen.
pub open spec fn is_resubscribed(
    before: SymbolSubscriptions,
    after: SymbolSubscriptions,
    outcome: Result<(), SubscriptionError>,
    wanted: DataSubscription,
    choice: Result<PrimaryChoice, SubscriptionError>,
    capacity: usize,
) -> bool {
    match choice {
        Err(e) => outcome == Err::<(), SubscriptionError>(e) && after == before,
        Ok(chosen) => {
            let rehomed = spec_create(before.primary, capacity, before.settings);
            let made = spec_create(wanted, capacity, before.settings);
            if !feeds_all(chosen.primary, before.secondaries) || !spec_can_feed(
                chosen.primary,
                before.primary,
            ) {
                outcome == Err::<(), SubscriptionError>(SubscriptionError::Incompatible) && after
                    == before
            } else if before.primary_requested && rehomed is Err {
                outcome == Err::<(), SubscriptionError>(
                    SubscriptionError::Consolidator(rehomed->Err_0),
                ) && after == before
            } else if chosen.consolidated && made is Err {
                outcome == Err::<(), SubscriptionError>(
                    SubscriptionError::Consolidator(made->Err_0),
                ) && after == before
            } else {
                let kept = if before.primary_requested {
                    before.secondaries.push(rehomed->Ok_0)
                } else {
                    before.secondaries
                };
                outcome is Ok && after == (SymbolSubscriptions {
                    primary: chosen.primary,
                    primary_requested: !chosen.consolidated,
                    secondaries: if chosen.consolidated {
                        kept.push(made->Ok_0)
                    } else {
                        kept
                    },
                    events: before.events.push(DataSubscriptionEvent::Subscribed(wanted)),
                    primary_history: Seq::empty(),
                    ..before
                })
            }
        },
    }
}

/// What unsubscribing leads to. The primary cannot be given up while it
/// feeds consolidators; a consolidator can always be given up.
pub open spec fn spec_unsubscribed(before: SymbolSubscriptions, subscription: DataSubscription) -> (
    SymbolSubscriptions,
    Result<(), SubscriptionError>,
) {
    if before.primary_requested && before.primary@ == subscription@ {
        if before.secondaries.len() > 0 {
            (before, Err(SubscriptionError::PrimaryInUse))
        } else {
            (
                SymbolSubscriptions {
                    primary_requested: false,
                    events: before.events.push(DataSubscriptionEvent::Unsubscribed(subscription)),
                    ..before
                },
                Ok(()),
            )
        }
    } else {
        match find_secondary(before.secondaries, subscription@, 0) {
            Some(at) => (
                SymbolSubscriptions {
                    secondaries: before.secondaries.remove(at),
                    events: before.events.push(DataSubscriptionEvent::Unsubscribed(subscription)),
                    ..before
                },
                Ok(()),
            ),
            None => (before, Err(SubscriptionError::NotSubscribed)),
        }
    }
}

impl SymbolSubscriptionHandler {
    /// The invariant of the handler.
    pub closed spec fn wf(&self) -> bool {
        &&& self@.wf()
        &&& forall|i: int|
            0 <= i < self.secondary_subscriptions@.len() ==> (
            #[trigger] self.secondary_subscriptions@[i]).wf()
    }

    /// The handler is well formed only in well-formed states.
    pub proof fn lemma_wf_view(&self)
        requires
            self.wf(),
        ensures
            self@.wf(),
    {
    }

    /// The handler for the first subscription in a symbol.
    pub fn new(
        wanted: DataSubscription,
        is_warmed_up: bool,
        history_to_retain: usize,
        catalog: &Vec<SubscriptionResolutionType>,
        settings: ConsolidationSettings,
    ) -> (made: Result<Self, SubscriptionError>)
        ensures
            made is Ok ==> made->Ok_0.wf(),
            is_first_subscription(
                match made {
                    Ok(handler) => Ok(handler@),
                    Err(e) => Err(e),
                },
                wanted,
                catalog@,
                history_to_retain,
                settings,
                is_warmed_up,
            ),
    {
        let choice = match select_primary(&wanted, catalog) {
            Ok(choice) => choice,
            Err(e) => {
                return Err(e);
            },
        };
        let mut secondaries: Vec<ConsolidatorEnum> = Vec::new();
        if choice.consolidated {
            match ConsolidatorEnum::create_consolidator(
                wanted.clone(),
                history_to_retain,
                settings,
            ) {
                Ok(consolidator) => {
                    secondaries.push(consolidator);
                },
                Err(e) => {
                    return Err(SubscriptionError::Consolidator(e));
                },
            }
        }
        let mut events = Vec::new();
        events.push(DataSubscriptionEvent::Subscribed(wanted.clone()));
        let handler = SymbolSubscriptionHandler {
            primary_subscription: choice.primary,
            primary_requested: !choice.consolidated,
            secondary_subscriptions: secondaries,
            symbol: wanted.symbol.clone(),
            subscription_event_buffer: events,
            is_warmed_up,
            primary_history: RollingWindow::new(history_to_retain),
            settings,
        };
        proof {
            if choice.consolidated {
                assert(handler@.secondaries =~= seq![
                    spec_create(wanted, history_to_retain, settings)->Ok_0,
                ]);
            } else {
                assert(handler@.secondaries =~= Seq::empty());
            }
            assert(handler@.events =~= seq![DataSubscriptionEvent::Subscribed(wanted)]);
        }
        Ok(handler)
    }

    /// Feeds one datum of the primary feed and returns what the
    /// consolidators yield, in the order of the consolidators.
    pub fn update(&mut self, base_data: &BaseDataEnum) -> (out: Vec<BaseDataEnum>)
        requires
            old(self).wf(),
            base_data.spec_symbol()@ == old(self)@.symbol@,
        ensures
            final(self).wf(),
            final(self)@ == old(self)@.update(*base_data).0,
            out@ == old(self)@.update(*base_data).1,
    {
        self.primary_history.add(base_data.clone());
        let mut out: Vec<BaseDataEnum> = Vec::new();
        let mut i: usize = 0;
        let ghost before = self.secondary_subscriptions@;
        assert(before.map_values(|c: ConsolidatorEnum| c@).take(0) =~= Seq::empty());
        while i < self.secondary_subscriptions.len()
            invariant
                i <= self.secondary_subscriptions.len(),
                self.secondary_subscriptions@.len() == before.len(),
                before == old(self).secondary_subscriptions@,
                forall|k: int| 0 <= k < before.len() ==> (#[trigger] before[k]).wf(),
                forall|k: int|
                    i <= k < before.len() ==> (#[trigger] self.secondary_subscriptions@[k])
                        == before[k],
                forall|k: int|
                    0 <= k < i ==> (#[trigger] self.secondary_subscriptions@[k]).wf(),
                self.secondary_subscriptions@.take(i as int).map_values(|c: ConsolidatorEnum| c@)
                    == spec_feed(
                    before.take(i as int).map_values(|c: ConsolidatorEnum| c@),
                    *base_data,
                ).0,
                out@ == spec_feed(
                    before.take(i as int).map_values(|c: ConsolidatorEnum| c@),
                    *base_data,
                ).1,
                self.primary_subscription == old(self).primary_subscription,
                self.primary_requested == old(self).primary_requested,
                self.symbol == old(self).symbol,
                self.subscription_event_buffer == old(self).subscription_event_buffer,
                self.is_warmed_up == old(self).is_warmed_up,
                self.settings == old(self).settings,
                self.primary_history@ == window_after_add(
                    old(self).primary_history@,
                    old(self).primary_history.capacity(),
                    *base_data,
                ),
                self.primary_history.capacity() == old(self).primary_history.capacity(),
                self.primary_history.wf(),
            decreases self.secondary_subscriptions.len() - i,
        {
            let ghost models = before.take(i as int).map_values(|c: ConsolidatorEnum| c@);
            let ghost done = self.secondary_subscriptions@.take(i as int);
            let mut consolidator = self.secondary_subscriptions.remove(i);
            assert(consolidator == before[i as int]);
            let mut more = consolidator.update(base_data);
            out.append(&mut more);
            self.secondary_subscriptions.insert(i, consolidator);
            proof {
                let next = before.take(i + 1).map_values(|c: ConsolidatorEnum| c@);
                assert(next.drop_last() =~= models);
                assert(next.last() == before[i as int]@);
                assert(self.secondary_subscriptions@.take(i + 1).map_values(
                    |c: ConsolidatorEnum| c@,
                ) =~= done.map_values(|c: ConsolidatorEnum| c@).push(consolidator@));
            }
            i = i + 1;
        }
        proof {
            assert(before.take(before.len() as int) =~= before);
            assert(self.secondary_subscriptions@.take(before.len() as int)
                =~= self.secondary_subscriptions@);
            assert forall|k: int| 0 <= k < self@.secondaries.len() implies (
            #[trigger] self@.secondaries[k]).wf() by {
                self.secondary_subscriptions@[k].lemma_wf_view();
            }
        }
        out
    }

    /// Advances the clock of every consolidator and returns what they
    /// yield.
    pub fn update_time(&mut self, time: i64) -> (out: Vec<BaseDataEnum>)
        requires
            old(self).wf(),
        ensures
            final(self).wf(),
            final(self)@ == old(self)@.update_time(time as int).0,
            out@ == old(self)@.update_time(time as int).1,
    {
        let mut out: Vec<BaseDataEnum> = Vec::new();
        let mut i: usize = 0;
        let ghost before = self.secondary_subscriptions@;
        assert(before.map_values(|c: ConsolidatorEnum| c@).take(0) =~= Seq::empty());
        while i < self.secondary_subscriptions.len()
            invariant
                i <= self.secondary_subscriptions.len(),
                self.secondary_subscriptions@.len() == before.len(),
                before == old(self).secondary_subscriptions@,
                forall|k: int| 0 <= k < before.len() ==> (#[trigger] before[k]).wf(),
                forall|k: int|
                    i <= k < before.len() ==> (#[trigger] self.secondary_subscriptions@[k])
                        == before[k],
                forall|k: int|
                    0 <= k < i ==> (#[trigger] self.secondary_subscriptions@[k]).wf(),
                self.secondary_subscriptions@.take(i as int).map_values(|c: ConsolidatorEnum| c@)
                    == spec_tick(
                    before.take(i as int).map_values(|c: ConsolidatorEnum| c@),
                    time as int,
                ).0,
                out@ == spec_tick(
                    before.take(i as int).map_values(|c: ConsolidatorEnum| c@),
                    time as int,
                ).1,
                self.primary_subscription == old(self).primary_subscription,
                self.primary_requested == old(self).primary_requested,
                self.symbol == old(self).symbol,
                self.subscription_event_buffer == old(self).subscription_event_buffer,
                self.is_warmed_up == old(self).is_warmed_up,
                self.settings == old(self).settings,
                self.primary_history == old(self).primary_history,
            decreases self.secondary_subscriptions.len() - i,
        {
            let ghost models = before.take(i as int).map_values(|c: ConsolidatorEnum| c@);
            let ghost done = self.secondary_subscriptions@.take(i as int);
            let mut consolidator = self.secondary_subscriptions.remove(i);
            assert(consolidator == before[i as int]);
            let mut more = consolidator.update_time(time);
            out.append(&mut more);
            self.secondary_subscriptions.insert(i, consolidator);
            proof {
                let next = before.take(i + 1).map_values(|c: ConsolidatorEnum| c@);
                assert(next.drop_last() =~= models);
                assert(next.last() == before[i as int]@);
                assert(self.secondary_subscriptions@.take(i + 1).map_values(
                    |c: ConsolidatorEnum| c@,
                ) =~= done.map_values(|c: ConsolidatorEnum| c@).push(consolidator@));
            }
            i = i + 1;
        }
        proof {
            assert(before.take(before.len() as int) =~= before);
            assert(self.secondary_subscriptions@.take(before.len() as int)
                =~= self.secondary_subscriptions@);
            assert forall|k: int| 0 <= k < self@.secondaries.len() implies (
            #[trigger] self@.secondaries[k]).wf() by {
                self.secondary_subscriptions@[k].lemma_wf_view();
            }
        }
        out
    }

    pub fn set_warmed_up(&mut self)
        requires
            old(self).wf(),
        ensures
            final(self).wf(),
            final(self)@ == (SymbolSubscriptions { is_warmed_up: true, ..old(self)@ }),
    {
        self.is_warmed_up = true;
    }

    /// Hands out the events collected since the last call.
    pub fn get_subscription_event_buffer(&mut self) -> (events: Vec<DataSubscriptionEvent>)
        requires
            old(self).wf(),
        ensures
            final(self).wf(),
            events@ == old(self)@.events,
            final(self)@ == (SymbolSubscriptions { events: Seq::empty(), ..old(self)@ }),
    {
        let mut events = Vec::new();
        events.append(&mut self.subscription_event_buffer);
        events
    }

    fn find(&self, subscription: &DataSubscription) -> (at: Option<usize>)
        ensures
            match at {
                Some(i) => find_secondary(self@.secondaries, subscription@, 0) == Some(i as int)
                    && i < self.secondary_subscriptions@.len(),
                None => find_secondary(self@.secondaries, subscription@, 0) is None,
            },
    {
        let mut i: usize = 0;
        while i < self.secondary_subscriptions.len()
            invariant
                i <= self.secondary_subscriptions.len(),
                find_secondary(self@.secondaries, subscription@, 0) == find_secondary(
                    self@.secondaries,
                    subscription@,
                    i as int,
                ),
            decreases self.secondary_subscriptions.len() - i,
        {
            if *self.secondary_subscriptions[i].subscription() == *subscription {
                return Some(i);
            }
            i = i + 1;
        }
        None
    }

    /// Whether the strategy holds the subscription.
    pub fn holds(&self, subscription: &DataSubscription) -> (held: bool)
        ensures
            held == self@.holds(subscription@),
    {
        (self.primary_requested && self.primary_subscription == *subscription) || self.find(
            subscription,
        ).is_some()
    }

    /// Whether the strategy holds nothing in the symbol any more.
    pub fn is_empty(&self) -> (empty: bool)
        ensures
            empty == self@.is_empty(),
    {
        !self.primary_requested && self.secondary_subscriptions.len() == 0
    }

    fn feeds_every(&self, primary: &DataSubscription) -> (ok: bool)
        ensures
            ok == feeds_all(*primary, self@.secondaries),
    {
        let mut i: usize = 0;
        while i < self.secondary_subscriptions.len()
            invariant
                i <= self.secondary_subscriptions.len(),
                forall|k: int|
                    0 <= k < i ==> spec_can_feed(
                        *primary,
                        (#[trigger] self@.secondaries[k]).subscription(),
                    ),
            decreases self.secondary_subscriptions.len() - i,
        {
            if !can_feed(primary, self.secondary_subscriptions[i].subscription()) {
                assert(!spec_can_feed(*primary, self@.secondaries[i as int].subscription()));
                return false;
            }
            i = i + 1;
        }
        true
    }

    /// Adds a subscription in the symbol of the handler.
    pub fn subscribe(
        &mut self,
        new_subscription: DataSubscription,
        history_to_retain: usize,
        catalog: &Vec<SubscriptionResolutionType>,
    ) -> (outcome: Result<(), SubscriptionError>)
        requires
            old(self).wf(),
        ensures
            final(self).wf(),
            is_subscribed(
                old(self)@,
                final(self)@,
                outcome,
                new_subscription,
                catalog@,
                history_to_retain,
            ),
    {
        if !(new_subscription.symbol == self.symbol) {
            return Err(SubscriptionError::WrongSymbol);
        }
        if self.holds(&new_subscription) {
            return Ok(());
        }
        if new_subscription == self.primary_subscription {
            self.primary_requested = true;
            self.subscription_event_buffer.push(
                DataSubscriptionEvent::Subscribed(new_subscription),
            );
            return Ok(());
        }
        if can_feed(&self.primary_subscription, &new_subscription) {
            return match ConsolidatorEnum::create_consolidator(
                new_subscription.clone(),
                history_to_retain,
                self.settings,
            ) {
                Ok(consolidator) => {
                    self.secondary_subscriptions.push(consolidator);
                    self.subscription_event_buffer.push(
                        DataSubscriptionEvent::Subscribed(new_subscription),
                    );
                    proof {
                        assert(self@.secondaries =~= old(self)@.secondaries.push(consolidator@));
                    }
                    Ok(())
                },
                Err(e) => Err(SubscriptionError::Consolidator(e)),
            };
        }
        let choice = select_primary(&new_subscription, catalog);
        let outcome = self.resubscribe(new_subscription, history_to_retain, choice);
        outcome
    }

    fn resubscribe(
        &mut self,
        wanted: DataSubscription,
        history_to_retain: usize,
        choice: Result<PrimaryChoice, SubscriptionError>,
    ) -> (outcome: Result<(), SubscriptionError>)
        requires
            old(self).wf(),
            wanted.symbol@ == old(self)@.symbol@,
            choice is Ok ==> choice->Ok_0.primary.symbol == wanted.symbol,
        ensures
            final(self).wf(),
            is_resubscribed(old(self)@, final(self)@, outcome, wanted, choice, history_to_retain),
    {
        let chosen = match choice {
            Ok(chosen) => chosen,
            Err(e) => {
                return Err(e);
            },
        };
        if !self.feeds_every(&chosen.primary) || !can_feed(
            &chosen.primary,
            &self.primary_subscription,
        ) {
            return Err(SubscriptionError::Incompatible);
        }
        let rehomed = if self.primary_requested {
            match ConsolidatorEnum::create_consolidator(
                self.primary_subscription.clone(),
                history_to_retain,
                self.settings,
            ) {
                Ok(consolidator) => Some(consolidator),
                Err(e) => {
                    return Err(SubscriptionError::Consolidator(e));
                },
            }
        } else {
            None
        };
        let made = if chosen.consolidated {
            match ConsolidatorEnum::create_consolidator(
                wanted.clone(),
                history_to_retain,
                self.settings,
            ) {
                Ok(consolidator) => Some(consolidator),
                Err(e) => {
                    return Err(SubscriptionError::Consolidator(e));
                },
            }
        } else {
            None
        };
        match rehomed {
            Some(consolidator) => {
                self.secondary_subscriptions.push(consolidator);
            },
            None => {},
        }
        match made {
            Some(consolidator) => {
                self.secondary_subscriptions.push(consolidator);
            },
            None => {},
        }
        self.primary_subscription = chosen.primary;
        self.primary_requested = !chosen.consolidated;
        self.primary_history.clear();
        self.subscription_event_buffer.push(DataSubscriptionEvent::Subscribed(wanted));
        proof {
            let before = old(self)@;
            let kept = if before.primary_requested {
                before.secondaries.push(
                    spec_create(before.primary, history_to_retain, before.settings)->Ok_0,
                )
            } else {
                before.secondaries
            };
            let target = if chosen.consolidated {
                kept.push(spec_create(wanted, history_to_retain, before.settings)->Ok_0)
            } else {
                kept
            };
            assert(self@.secondaries =~= target);
        }
        Ok(())
    }

    /// Gives up a subscription in the symbol of the handler.
    pub fn unsubscribe(&mut self, subscription: &DataSubscription) -> (outcome: Result<
        (),
        SubscriptionError,
    >)
        requires
            old(self).wf(),
        ensures
            final(self).wf(),
            (final(self)@, outcome) == spec_unsubscribed(old(self)@, *subscription),
    {
        if self.primary_requested && self.primary_subscription == *subscription {
            if self.secondary_subscriptions.len() > 0 {
                return Err(SubscriptionError::PrimaryInUse);
            }
            self.primary_requested = false;
            self.subscription_event_buffer.push(
                DataSubscriptionEvent::Unsubscribed(subscription.clone()),
            );
            return Ok(());
        }
        match self.find(subscription) {
            Some(at) => {
                self.secondary_subscriptions.remove(at);
                self.subscription_event_buffer.push(
                    DataSubscriptionEvent::Unsubscribed(subscription.clone()),
                );
                proof {
                    assert(self@.secondaries =~= old(self)@.secondaries.remove(at as int));
                }
                Ok(())
            },
            None => Err(SubscriptionError::NotSubscribed),
        }
    }

    /// The primary subscription and those of the consolidators, in order.
    pub fn all_subscriptions(&self) -> (all: Vec<DataSubscription>)
        ensures
            all@ == seq![self@.primary] + self@.secondaries.map_values(
                |m: ConsolidatorModel| m.subscription(),
            ),
    {
        let mut all: Vec<DataSubscription> = Vec::new();
        all.push(self.primary_subscription.clone());
        let mut i: usize = 0;
        while i < self.secondary_subscriptions.len()
            invariant
                i <= self.secondary_subscriptions.len(),
                all@ == seq![self@.primary] + self@.secondaries.take(i as int).map_values(
                    |m: ConsolidatorModel| m.subscription(),
                ),
            decreases self.secondary_subscriptions.len() - i,
        {
            all.push(self.secondary_subscriptions[i].subscription().clone());
            proof {
                assert(self@.secondaries.take(i + 1).map_values(
                    |m: ConsolidatorModel| m.subscription(),
                ) =~= self@.secondaries.take(i as int).map_values(
                    |m: ConsolidatorModel| m.subscription(),
                ).push(self@.secondaries[i as int].subscription()));
            }
            i = i + 1;
        }
        assert(self@.secondaries.take(self@.secondaries.len() as int) =~= self@.secondaries);
        all
    }

    pub fn primary_subscription(&self) -> (primary: DataSubscription)
        ensures
            primary == self@.primary,
    {
        self.primary_subscription.clone()
    }

    pub fn symbol(&self) -> (symbol: &Symbol)
        ensures
            *symbol == self@.symbol,
    {
        &self.symbol
    }

    /// The primary data that is retained, newest first.
    pub fn primary_history(&self) -> (window: &RollingWindow<BaseDataEnum>)
        ensures
            window@ == self@.primary_history,
    {
        &self.primary_history
    }

    /// The consolidator that serves a subscription, if there is one.
    pub fn consolidator(&self, subscription: &DataSubscription) -> (found: Option<
        &ConsolidatorEnum,
    >)
        requires
            self.wf(),
        ensures
            match found {
                Some(c) => c.wf() && find_secondary(self@.secondaries, subscription@, 0) is Some
                    && c@ == self@.secondaries[find_secondary(
                    self@.secondaries,
                    subscription@,
                    0,
                )->Some_0],
                None => find_secondary(self@.secondaries, subscription@, 0) is None,
            },
    {
        match self.find(subscription) {
            Some(at) => Some(&self.secondary_subscriptions[at]),
            None => None,
        }
    }

    /// Replays historical primary data through the consolidator of a
    /// subscription. The result says whether there is such a consolidator.
    pub fn warmup(
        &mut self,
        subscription: &DataSubscription,
        data: &Vec<BaseDataEnum>,
        from_time: i64,
        to_time: i64,
    ) -> (warmed: bool)
        requires
            old(self).wf(),
        ensures
            final(self).wf(),
            warmed == find_secondary(old(self)@.secondaries, subscription@, 0) is Some,
            warmed ==> final(self)@ == (SymbolSubscriptions {
                secondaries: old(self)@.secondaries.update(
                    find_secondary(old(self)@.secondaries, subscription@, 0)->Some_0,
                    old(self)@.secondaries[find_secondary(
                        old(self)@.secondaries,
                        subscription@,
                        0,
                    )->Some_0].warm_up(data@, 0, from_time as int, to_time as int),
                ),
                ..old(self)@
            }),
            !warmed ==> final(self)@ == old(self)@,
    {
        match self.find(subscription) {
            Some(at) => {
                let ghost before = self.secondary_subscriptions@;
                let mut consolidator = self.secondary_subscriptions.remove(at);
                assert(consolidator == before[at as int]);
                consolidator.warmup(data, from_time, to_time);
                self.secondary_subscriptions.insert(at, consolidator);
                proof {
                    assert(self@.secondaries =~= old(self)@.secondaries.update(
                        at as int,
                        consolidator@,
                    ));
                    assert forall|k: int| 0 <= k < self.secondary_subscriptions@.len() implies (
                    #[trigger] self.secondary_subscriptions@[k]).wf() by {
                        if k != at {
                            assert(self.secondary_subscriptions@[k] == before[k]);
                        }
                    }
                    assert forall|k: int| 0 <= k < self@.secondaries.len() implies (
                    #[trigger] self@.secondaries[k]).wf() by {
                        self.secondary_subscriptions@[k].lemma_wf_view();
                    }
                }
                true
            },
            None => false,
        }
    }
}

/// The state of all subscriptions of a strategy.
pub struct Subscriptions {
    /// The subscriptions by symbol, in the order the symbols were first
    /// subscribed.
    pub symbols: Seq<SymbolSubscriptions>,
    /// The subscriptions to fundamental data, which is never consolidated.
    pub fundamentals: Seq<DataSubscription>,
    /// Whether the subscriptions have changed since the flag was cleared.
    pub updated: bool,
    pub is_warmed_up: bool,
    pub mode: StrategyMode,
    /// What the strategy asked for, whichever feed serves it.
    pub strategy: Seq<DataSubscription>,
}

/// Index of the first handler for the symbol, from `from` on.
pub open spec fn find_symbol(
    symbols: Seq<SymbolSubscriptions>,
    symbol: crate::subscriptions::SymbolView,
    from: int,
) -> Option<int>
    decreases symbols.len() - from,
{
    if from < 0 || from >= symbols.len() {
        None
    } else if symbols[from].symbol@ == symbol {
        Some(from)
    } else {
        find_symbol(symbols, symbol, from + 1)
    }
}

/// Whether the list holds the subscription.
pub open spec fn lists(list: Seq<DataSubscription>, subscription: DataSubscriptionView) -> bool {
    exists|i: int| 0 <= i < list.len() && (#[trigger] list[i])@ == subscription
}

/// The list with the subscription in it: appended unless it is there.
pub open spec fn spec_added(list: Seq<DataSubscription>, subscription: DataSubscription) -> Seq<
    DataSubscription,
> {
    if lists(list, subscription@) {
        list
    } else {
        list.push(subscription)
    }
}

/// The list without the subscription.
pub open spec fn spec_dropped(list: Seq<DataSubscription>, subscription: DataSubscriptionView) -> Seq<
    DataSubscription,
> {
    list.filter(|s: DataSubscription| s@ != subscription)
}

/// Handlers and output after a datum has gone to the handler of its symbol.
/// A datum of a symbol without subscriptions yields nothing.
pub open spec fn spec_dispatch(symbols: Seq<SymbolSubscriptions>, data: BaseDataEnum) -> (
    Seq<SymbolSubscriptions>,
    Seq<BaseDataEnum>,
) {
    match find_symbol(symbols, data.spec_symbol()@, 0) {
        Some(at) => (symbols.update(at, symbols[at].update(data).0), symbols[at].update(data).1),
        None => (symbols, Seq::empty()),
    }
}

/// Handlers and output after the data of a slice, in order.
pub open spec fn spec_dispatch_all(symbols: Seq<SymbolSubscriptions>, slice: Seq<BaseDataEnum>) -> (
    Seq<SymbolSubscriptions>,
    Seq<BaseDataEnum>,
)
    decreases slice.len(),
{
    if slice.len() == 0 {
        (symbols, Seq::empty())
    } else {
        let (before, out) = spec_dispatch_all(symbols, slice.drop_last());
        let (after, more) = spec_dispatch(before, slice.last());
        (after, out + more)
    }
}

/// Handlers and output after the clock of every handler has been advanced,
/// in order.
pub open spec fn spec_tick_all(symbols: Seq<SymbolSubscriptions>, time: int) -> (
    Seq<SymbolSubscriptions>,
    Seq<BaseDataEnum>,
)
    decreases symbols.len(),
{
    if symbols.len() == 0 {
        (Seq::empty(), Seq::empty())
    } else {
        let (before, out) = spec_tick_all(symbols.drop_last(), time);
        let (after, more) = symbols.last().update_time(time);
        (before.push(after), out + more)
    }
}

/// The events of all handlers, in order of the handlers.
pub open spec fn spec_all_events(symbols: Seq<SymbolSubscriptions>) -> Seq<DataSubscriptionEvent>
    decreases symbols.len(),
{
    if symbols.len() == 0 {
        Seq::empty()
    } else {
        spec_all_events(symbols.drop_last()) + symbols.last().events
    }
}

/// All subscriptions of the handlers: each primary followed by its
/// consolidated subscriptions.
pub open spec fn spec_all_subscriptions(symbols: Seq<SymbolSubscriptions>) -> Seq<DataSubscription>
    decreases symbols.len(),
{
    if symbols.len() == 0 {
        Seq::empty()
    } else {
        spec_all_subscriptions(symbols.drop_last()) + seq![symbols.last().primary]
            + symbols.last().secondaries.map_values(|m: ConsolidatorModel| m.subscription())
    }
}

impl Subscriptions {
    /// What every reachable state satisfies.
    pub open spec fn wf(self) -> bool {
        forall|i: int| 0 <= i < self.symbols.len() ==> (#[trigger] self.symbols[i]).wf()
    }

    /// The primary subscriptions, one per symbol: what the replay engine
    /// asks the vendors for.
    pub open spec fn primaries(self) -> Seq<DataSubscription> {
        self.symbols.map_values(|h: SymbolSubscriptions| h.primary)
    }

    /// The consolidator that serves a subscription, if one does.
    pub open spec fn consolidator_of(self, subscription: DataSubscription) -> Option<
        ConsolidatorModel,
    > {
        if subscription.base_data_type == BaseDataType::Fundamentals {
            None
        } else {
            match find_symbol(self.symbols, subscription.symbol@, 0) {
                Some(at) => match find_secondary(
                    self.symbols[at].secondaries,
                    subscription@,
                    0,
                ) {
                    Some(k) => Some(self.symbols[at].secondaries[k]),
                    None => None,
                },
                None => None,
            }
        }
    }

    /// The state after warm-up has been marked complete, here and in every
    /// symbol.
    pub open spec fn warmed_up(self) -> Subscriptions {
        Subscriptions {
            is_warmed_up: true,
            symbols: self.symbols.map_values(
                |h: SymbolSubscriptions| SymbolSubscriptions { is_warmed_up: true, ..h },
            ),
            ..self
        }
    }

    /// The state after the consolidator of a subscription has been warmed
    /// up with historical data; unchanged where no consolidator serves the
    /// subscription.
    pub open spec fn warmed(
        self,
        subscription: DataSubscription,
        data: Seq<BaseDataEnum>,
        from_time: int,
        to_time: int,
    ) -> Subscriptions {
        match find_symbol(self.symbols, subscription.symbol@, 0) {
            Some(at) => match find_secondary(self.symbols[at].secondaries, subscription@, 0) {
                Some(k) => Subscriptions {
                    symbols: self.symbols.update(
                        at,
                        SymbolSubscriptions {
                            secondaries: self.symbols[at].secondaries.update(
                                k,
                                self.symbols[at].secondaries[k].warm_up(
                                    data,
                                    0,
                                    from_time,
                                    to_time,
                                ),
                            ),
                            ..self.symbols[at]
                        },
                    ),
                    ..self
                },
                None => self,
            },
            None => self,
        }
    }

    /// What subscribing leads to. Fundamental subscriptions are listed and
    /// bypass consolidation. Any other subscription goes to the handler of
    /// its symbol, which is made if this is the first in the symbol. On
    /// success the subscription is among those of the strategy and the
    /// change is flagged; on failure nothing changes.
    pub open spec fn is_subscribed(
        self,
        after: Subscriptions,
        outcome: Result<(), SubscriptionError>,
        wanted: DataSubscription,
        capacity: usize,
        catalog: Seq<SubscriptionResolutionType>,
        settings: ConsolidationSettings,
    ) -> bool {
        if outcome is Err {
            after == self && wanted.base_data_type != BaseDataType::Fundamentals && (
            match find_symbol(self.symbols, wanted.symbol@, 0) {
                Some(at) => is_subscribed(
                    self.symbols[at],
                    self.symbols[at],
                    outcome,
                    wanted,
                    catalog,
                    capacity,
                ),
                None => is_first_subscription(
                    Err(outcome->Err_0),
                    wanted,
                    catalog,
                    capacity,
                    settings,
                    self.is_warmed_up,
                ),
            })
        } else if wanted.base_data_type == BaseDataType::Fundamentals {
            after == (Subscriptions {
                fundamentals: spec_added(self.fundamentals, wanted),
                strategy: spec_added(self.strategy, wanted),
                updated: true,
                ..self
            })
        } else {
            &&& after.fundamentals == self.fundamentals
            &&& after.strategy == spec_added(self.strategy, wanted)
            &&& after.updated
            &&& after.is_warmed_up == self.is_warmed_up
            &&& after.mode == self.mode
            &&& match find_symbol(self.symbols, wanted.symbol@, 0) {
                Some(at) => after.symbols == self.symbols.update(at, after.symbols[at])
                    && is_subscribed(
                    self.symbols[at],
                    after.symbols[at],
                    outcome,
                    wanted,
                    catalog,
                    capacity,
                ),
                None => after.symbols.len() == self.symbols.len() + 1 && after.symbols
                    == self.symbols.push(after.symbols.last()) && is_first_subscription(
                    Ok(after.symbols.last()),
                    wanted,
                    catalog,
                    capacity,
                    settings,
                    self.is_warmed_up,
                ),
            }
        }
    }

    /// What unsubscribing leads to. On success the subscription is no
    /// longer among those of the strategy, a symbol left without
    /// subscriptions loses its handler, and the change is flagged; on
    /// failure nothing changes.
    pub open spec fn unsubscribed(self, subscription: DataSubscription) -> (
        Subscriptions,
        Result<(), SubscriptionError>,
    ) {
        if subscription.base_data_type == BaseDataType::Fundamentals {
            (
                Subscriptions {
                    fundamentals: spec_dropped(self.fundamentals, subscription@),
                    strategy: spec_dropped(self.strategy, subscription@),
                    updated: true,
                    ..self
                },
                Ok(()),
            )
        } else {
            match find_symbol(self.symbols, subscription.symbol@, 0) {
                None => (self, Err(SubscriptionError::NotSubscribed)),
                Some(at) => {
                    let (handler, outcome) = spec_unsubscribed(self.symbols[at], subscription);
                    match outcome {
                        Err(e) => (self, Err(e)),
                        Ok(()) => (
                            Subscriptions {
                                symbols: if handler.is_empty() {
                                    self.symbols.remove(at)
                                } else {
                                    self.symbols.update(at, handler)
                                },
                                strategy: spec_dropped(self.strategy, subscription@),
                                updated: true,
                                ..self
                            },
                            Ok(()),
                        ),
                    }
                },
            }
        }
    }
}

/// All subscriptions of one strategy.
pub struct SubscriptionHandler {
    symbol_subscriptions: Vec<SymbolSubscriptionHandler>,
    fundamental_subscriptions: Vec<DataSubscription>,
    subscriptions_updated: bool,
    is_warmed_up: bool,
    strategy_mode: StrategyMode,
    strategy_subscriptions: Vec<DataSubscription>,
}

impl View for SubscriptionHandler {
    type V = Subscriptions;

    closed spec fn view(&self) -> Subscriptions {
        Subscriptions {
            symbols: self.symbol_subscriptions@.map_values(|h: SymbolSubscriptionHandler| h@),
            fundamentals: self.fundamental_subscriptions@,
            updated: self.subscriptions_updated,
            is_warmed_up: self.is_warmed_up,
            mode: self.strategy_mode,
            strategy: self.strategy_subscriptions@,
        }
    }
}

fn list_holds(list: &Vec<DataSubscription>, subscription: &DataSubscription) -> (held: bool)
    ensures
        held == lists(list@, subscription@),
{
    let mut i: usize = 0;
    while i < list.len()
        invariant
            i <= list.len(),
            forall|k: int| 0 <= k < i ==> (#[trigger] list@[k])@ != subscription@,
        decreases list.len() - i,
    {
        if list[i] == *subscription {
            return true;
        }
        i = i + 1;
    }
    false
}

fn list_add(list: &mut Vec<DataSubscription>, subscription: &DataSubscription)
    ensures
        final(list)@ == spec_added(old(list)@, *subscription),
{
    if !list_holds(list, subscription) {
        list.push(subscription.clone());
    }
}

fn list_drop(list: &mut Vec<DataSubscription>, subscription: &DataSubscription)
    ensures
        final(list)@ == spec_dropped(old(list)@, subscription@),
{
    let mut kept: Vec<DataSubscription> = Vec::new();
    let ghost keep = |s: DataSubscription| s@ != subscription@;
    let mut i: usize = 0;
    assert(list@.take(0) =~= Seq::<DataSubscription>::empty());
    while i < list.len()
        invariant
            i <= list.len(),
            keep == |s: DataSubscription| s@ != subscription@,
            kept@ == list@.take(i as int).filter(keep),
        decreases list.len() - i,
    {
        proof {
            assert(list@.take(i + 1) =~= list@.take(i as int).push(list@[i as int]));
            list@.take(i as int).lemma_filter_push(list@[i as int], keep);
        }
        if !(list[i] == *subscription) {
            kept.push(list[i].clone());
        }
        i = i + 1;
    }
    assert(list@.take(list.len() as int) =~= list@);
    *list = kept;
}

impl SubscriptionHandler {
    /// The invariant of the handler.
    pub closed spec fn wf(&self) -> bool {
        &&& self@.wf()
        &&& forall|i: int|
            0 <= i < self.symbol_subscriptions@.len() ==> (
            #[trigger] self.symbol_subscriptions@[i]).wf()
    }

    /// A handler without subscriptions. The change flag starts set, so that
    /// the first fetch sees the subscriptions that follow.
    pub fn new(strategy_mode: StrategyMode) -> (handler: Self)
        ensures
            handler.wf(),
            handler@ == (Subscriptions {
                symbols: Seq::empty(),
                fundamentals: Seq::empty(),
                updated: true,
                is_warmed_up: false,
                mode: strategy_mode,
                strategy: Seq::empty(),
            }),
    {
        let handler = SubscriptionHandler {
            fundamental_subscriptions: Vec::new(),
            symbol_subscriptions: Vec::new(),
            subscriptions_updated: true,
            is_warmed_up: false,
            strategy_mode,
            strategy_subscriptions: Vec::new(),
        };
        assert(handler@.symbols =~= Seq::empty());
        handler
    }

    fn put_back(
        &mut self,
        at: usize,
        handler: SymbolSubscriptionHandler,
        Ghost(before): Ghost<Seq<SymbolSubscriptionHandler>>,
    )
        requires
            at <= old(self).symbol_subscriptions@.len(),
            handler.wf(),
            before.len() == old(self).symbol_subscriptions@.len() + 1,
            at < before.len(),
            old(self).symbol_subscriptions@ == before.remove(at as int),
            forall|k: int| 0 <= k < before.len() ==> (#[trigger] before[k]).wf(),
        ensures
            final(self).wf(),
            final(self).symbol_subscriptions@ == before.update(at as int, handler),
            final(self).fundamental_subscriptions == old(self).fundamental_subscriptions,
            final(self).strategy_subscriptions == old(self).strategy_subscriptions,
            final(self).subscriptions_updated == old(self).subscriptions_updated,
            final(self).strategy_mode == old(self).strategy_mode,
            final(self).is_warmed_up == old(self).is_warmed_up,
            final(self)@ == (Subscriptions {
                symbols: before.map_values(|h: SymbolSubscriptionHandler| h@).update(
                    at as int,
                    handler@,
                ),
                ..old(self)@
            }),
    {
        self.symbol_subscriptions.insert(at, handler);
        proof {
            assert(self.symbol_subscriptions@ =~= before.update(at as int, handler));
            assert(self@.symbols =~= before.map_values(|h: SymbolSubscriptionHandler| h@).update(
                at as int,
                handler@,
            ));
            assert forall|k: int| 0 <= k < self@.symbols.len() implies (
            #[trigger] self@.symbols[k]).wf() by {
                self.symbol_subscriptions@[k].lemma_wf_view();
            }
        }
    }

    /// Marks warm-up as complete, here and in every symbol.
    pub fn set_warmup_complete(&mut self)
        requires
            old(self).wf(),
        ensures
            final(self).wf(),
            final(self)@ == old(self)@.warmed_up(),
    {
        self.is_warmed_up = true;
        let mut i: usize = 0;
        let ghost start = self.symbol_subscriptions@;
        while i < self.symbol_subscriptions.len()
            invariant
                i <= self.symbol_subscriptions.len(),
                self.wf(),
                start == old(self).symbol_subscriptions@,
                self.symbol_subscriptions@.len() == start.len(),
                self.fundamental_subscriptions == old(self).fundamental_subscriptions,
                self.strategy_subscriptions == old(self).strategy_subscriptions,
                self.subscriptions_updated == old(self).subscriptions_updated,
                self.strategy_mode == old(self).strategy_mode,
                self.is_warmed_up,
                forall|k: int|
                    0 <= k < i ==> (#[trigger] self.symbol_subscriptions@[k])@ == (
                    SymbolSubscriptions { is_warmed_up: true, ..start[k]@ }),
                forall|k: int|
                    i <= k < start.len() ==> (#[trigger] self.symbol_subscriptions@[k]) == start[k],
            decreases self.symbol_subscriptions.len() - i,
        {
            let ghost before = self.symbol_subscriptions@;
            let mut handler = self.symbol_subscriptions.remove(i);
            assert(handler == before[i as int]);
            handler.set_warmed_up();
            self.put_back(i, handler, Ghost(before));
            i = i + 1;
        }
        assert(self@.symbols =~= old(self)@.symbols.map_values(
            |h: SymbolSubscriptions| SymbolSubscriptions { is_warmed_up: true, ..h },
        ));
    }

    /// Hands out the subscription events collected since the last call, in
    /// the order of the symbols.
    pub fn subscription_events(&mut self) -> (events: Vec<DataSubscriptionEvent>)
        requires
            old(self).wf(),
        ensures
            final(self).wf(),
            events@ == spec_all_events(old(self)@.symbols),
            final(self)@ == (Subscriptions {
                symbols: old(self)@.symbols.map_values(
                    |h: SymbolSubscriptions| SymbolSubscriptions { events: Seq::empty(), ..h },
                ),
                ..old(self)@
            }),
    {
        let mut events: Vec<DataSubscriptionEvent> = Vec::new();
        let mut i: usize = 0;
        let ghost start = self.symbol_subscriptions@;
        let ghost views = old(self)@.symbols;
        assert(views.take(0) =~= Seq::<SymbolSubscriptions>::empty());
        while i < self.symbol_subscriptions.len()
            invariant
                i <= self.symbol_subscriptions.len(),
                self.wf(),
                start == old(self).symbol_subscriptions@,
                views == old(self)@.symbols,
                self.symbol_subscriptions@.len() == start.len(),
                self.fundamental_subscriptions == old(self).fundamental_subscriptions,
                self.strategy_subscriptions == old(self).strategy_subscriptions,
                self.subscriptions_updated == old(self).subscriptions_updated,
                self.strategy_mode == old(self).strategy_mode,
                self.is_warmed_up == old(self).is_warmed_up,
                events@ == spec_all_events(views.take(i as int)),
                forall|k: int|
                    0 <= k < i ==> (#[trigger] self.symbol_subscriptions@[k])@ == (
                    SymbolSubscriptions { events: Seq::empty(), ..start[k]@ }),
                forall|k: int|
                    i <= k < start.len() ==> (#[trigger] self.symbol_subscriptions@[k]) == start[k],
            decreases self.symbol_subscriptions.len() - i,
        {
            let ghost before = self.symbol_subscriptions@;
            let mut handler = self.symbol_subscriptions.remove(i);
            assert(handler == before[i as int]);
            let mut more = handler.get_subscription_event_buffer();
            events.append(&mut more);
            self.put_back(i, handler, Ghost(before));
            proof {
                assert(views.take(i + 1).drop_last() =~= views.take(i as int));
                assert(views.take(i + 1).last() == start[i as int]@);
            }
            i = i + 1;
        }
        assert(views.take(views.len() as int) =~= views);
        assert(self@.symbols =~= old(self)@.symbols.map_values(
            |h: SymbolSubscriptions| SymbolSubscriptions { events: Seq::empty(), ..h },
        ));
        events
    }

    /// What the strategy asked for.
    pub fn strategy_subscriptions(&self) -> (subscriptions: Vec<DataSubscription>)
        ensures
            subscriptions@.len() == self@.strategy.len(),
            forall|i: int|
                0 <= i < subscriptions@.len() ==> (#[trigger] subscriptions@[i])
                    == self@.strategy[i],
    {
        let mut copy: Vec<DataSubscription> = Vec::new();
        let mut i: usize = 0;
        while i < self.strategy_subscriptions.len()
            invariant
                i <= self.strategy_subscriptions.len(),
                copy@.len() == i,
                forall|k: int| 0 <= k < i ==> (#[trigger] copy@[k]) == self@.strategy[k],
            decreases self.strategy_subscriptions.len() - i,
        {
            copy.push(self.strategy_subscriptions[i].clone());
            i = i + 1;
        }
        copy
    }

    fn find_symbol_handler(&self, symbol: &Symbol) -> (at: Option<usize>)
        ensures
            match at {
                Some(i) => find_symbol(self@.symbols, symbol@, 0) == Some(i as int) && i
                    < self.symbol_subscriptions@.len() && self.symbol_subscriptions@[i as int]@.symbol@
                    == symbol@,
                None => find_symbol(self@.symbols, symbol@, 0) is None,
            },
    {
        let mut i: usize = 0;
        while i < self.symbol_subscriptions.len()
            invariant
                i <= self.symbol_subscriptions.len(),
                find_symbol(self@.symbols, symbol@, 0) == find_symbol(
                    self@.symbols,
                    symbol@,
                    i as int,
                ),
            decreases self.symbol_subscriptions.len() - i,
        {
            if *self.symbol_subscriptions[i].symbol() == *symbol {
                return Some(i);
            }
            i = i + 1;
        }
        None
    }

    /// Subscribes the strategy to a stream. `catalog` lists what the vendor
    /// of the symbol serves in its market; `settings` are those of the
    /// symbol. Subscribing to what is already subscribed changes no
    /// subscription.
    pub fn subscribe(
        &mut self,
        new_subscription: DataSubscription,
        history_to_retain: usize,
        catalog: &Vec<SubscriptionResolutionType>,
        settings: ConsolidationSettings,
    ) -> (outcome: Result<(), SubscriptionError>)
        requires
            old(self).wf(),
        ensures
            final(self).wf(),
            old(self)@.is_subscribed(
                final(self)@,
                outcome,
                new_subscription,
                history_to_retain,
                catalog@,
                settings,
            ),
    {
        if new_subscription.base_data_type == BaseDataType::Fundamentals {
            list_add(&mut self.fundamental_subscriptions, &new_subscription);
            list_add(&mut self.strategy_subscriptions, &new_subscription);
            self.subscriptions_updated = true;
            return Ok(());
        }
        match self.find_symbol_handler(&new_subscription.symbol) {
            None => {
                match SymbolSubscriptionHandler::new(
                    new_subscription.clone(),
                    self.is_warmed_up,
                    history_to_retain,
                    catalog,
                    settings,
                ) {
                    Ok(handler) => {
                        proof {
                            handler.lemma_wf_view();
                        }
                        self.symbol_subscriptions.push(handler);
                        assert(self@.symbols =~= old(self)@.symbols.push(handler@));
                    },
                    Err(e) => {
                        return Err(e);
                    },
                }
            },
            Some(at) => {
                let ghost before = self.symbol_subscriptions@;
                let mut handler = self.symbol_subscriptions.remove(at);
                assert(handler == before[at as int]);
                let outcome = handler.subscribe(
                    new_subscription.clone(),
                    history_to_retain,
                    catalog,
                );
                self.put_back(at, handler, Ghost(before));
                match outcome {
                    Ok(()) => {},
                    Err(e) => {
                        proof {
                            lemma_failed_subscribe_changes_nothing(
                                before[at as int]@,
                                handler@,
                                outcome,
                                new_subscription,
                                catalog@,
                                history_to_retain,
                            );
                            assert(self@.symbols =~= old(self)@.symbols);
                        }
                        return Err(e);
                    },
                }
            },
        }
        list_add(&mut self.strategy_subscriptions, &new_subscription);
        self.subscriptions_updated = true;
        Ok(())
    }

    /// Gives up a subscription of the strategy.
    pub fn unsubscribe(&mut self, subscription: &DataSubscription) -> (outcome: Result<
        (),
        SubscriptionError,
    >)
        requires
            old(self).wf(),
        ensures
            final(self).wf(),
            (final(self)@, outcome) == old(self)@.unsubscribed(*subscription),
    {
        if subscription.base_data_type == BaseDataType::Fundamentals {
            list_drop(&mut self.fundamental_subscriptions, subscription);
            list_drop(&mut self.strategy_subscriptions, subscription);
            self.subscriptions_updated = true;
            return Ok(());
        }
        let at = match self.find_symbol_handler(&subscription.symbol) {
            Some(at) => at,
            None => {
                return Err(SubscriptionError::NotSubscribed);
            },
        };
        let ghost before = self.symbol_subscriptions@;
        let mut handler = self.symbol_subscriptions.remove(at);
        assert(handler == before[at as int]);
        let outcome = handler.unsubscribe(subscription);
        match outcome {
            Err(e) => {
                self.put_back(at, handler, Ghost(before));
                assert(self@.symbols =~= old(self)@.symbols);
                Err(e)
            },
            Ok(()) => {
                if handler.is_empty() {
                    proof {
                        assert(self@.symbols =~= old(self)@.symbols.remove(at as int));
                        assert forall|k: int| 0 <= k < self.symbol_subscriptions@.len() implies (
                        #[trigger] self.symbol_subscriptions@[k]).wf() by {
                            if k < at {
                                assert(self.symbol_subscriptions@[k] == before[k]);
                            } else {
                                assert(self.symbol_subscriptions@[k] == before[k + 1]);
                            }
                        }
                        assert forall|k: int| 0 <= k < self@.symbols.len() implies (
                        #[trigger] self@.symbols[k]).wf() by {
                            self.symbol_subscriptions@[k].lemma_wf_view();
                        }
                    }
                } else {
                    self.put_back(at, handler, Ghost(before));
                }
                list_drop(&mut self.strategy_subscriptions, subscription);
                self.subscriptions_updated = true;
                Ok(())
            },
        }
    }

    pub fn subscriptions_updated(&self) -> (updated: bool)
        ensures
            updated == self@.updated,
    {
        self.subscriptions_updated
    }

    pub fn set_subscriptions_updated(&mut self, updated: bool)
        requires
            old(self).wf(),
        ensures
            final(self).wf(),
            final(self)@ == (Subscriptions { updated, ..old(self)@ }),
    {
        self.subscriptions_updated = updated;
    }

    /// The primary subscriptions, one per symbol, in the order of the
    /// symbols.
    pub fn primary_subscriptions(&self) -> (primaries: Vec<DataSubscription>)
        ensures
            primaries@ == self@.primaries(),
    {
        let mut primaries: Vec<DataSubscription> = Vec::new();
        let mut i: usize = 0;
        while i < self.symbol_subscriptions.len()
            invariant
                i <= self.symbol_subscriptions.len(),
                primaries@ == self@.primaries().take(i as int),
            decreases self.symbol_subscriptions.len() - i,
        {
            primaries.push(self.symbol_subscriptions[i].primary_subscription());
            assert(primaries@ =~= self@.primaries().take(i + 1));
            i = i + 1;
        }
        assert(self@.primaries().take(self@.primaries().len() as int) =~= self@.primaries());
        primaries
    }

    /// Every subscription, primary and consolidated, symbol by symbol, then
    /// the fundamental subscriptions.
    pub fn subscriptions(&self) -> (all: Vec<DataSubscription>)
        ensures
            all@.len() == spec_all_subscriptions(self@.symbols).len() + self@.fundamentals.len(),
            all@.subrange(0, spec_all_subscriptions(self@.symbols).len() as int)
                == spec_all_subscriptions(self@.symbols),
            forall|k: int|
                0 <= k < self@.fundamentals.len() ==> #[trigger] all@[spec_all_subscriptions(
                    self@.symbols,
                ).len() + k] == self@.fundamentals[k],
    {
        let mut all: Vec<DataSubscription> = Vec::new();
        let mut i: usize = 0;
        let ghost views = self@.symbols;
        assert(views.take(0) =~= Seq::<SymbolSubscriptions>::empty());
        while i < self.symbol_subscriptions.len()
            invariant
                i <= self.symbol_subscriptions.len(),
                views == self@.symbols,
                all@ == spec_all_subscriptions(views.take(i as int)),
            decreases self.symbol_subscriptions.len() - i,
        {
            let mut more = self.symbol_subscriptions[i].all_subscriptions();
            all.append(&mut more);
            proof {
                assert(views.take(i + 1).drop_last() =~= views.take(i as int));
                assert(views.take(i + 1).last() == views[i as int]);
                assert(all@ =~= spec_all_subscriptions(views.take(i + 1)));
            }
            i = i + 1;
        }
        assert(views.take(views.len() as int) =~= views);
        let ghost first = all@;
        let mut j: usize = 0;
        while j < self.fundamental_subscriptions.len()
            invariant
                j <= self.fundamental_subscriptions.len(),
                all@.len() == first.len() + j,
                all@.subrange(0, first.len() as int) == first,
                forall|k: int|
                    0 <= k < j ==> #[trigger] all@[first.len() + k] == self@.fundamentals[k],
            decreases self.fundamental_subscriptions.len() - j,
        {
            let ghost so_far = all@;
            all.push(self.fundamental_subscriptions[j].clone());
            proof {
                assert(all@.subrange(0, first.len() as int) =~= so_far.subrange(
                    0,
                    first.len() as int,
                ));
            }
            j = j + 1;
        }
        all
    }

    /// Feeds a slice of primary data to the handlers of its symbols and
    /// returns what their consolidators yield; the primary data itself is
    /// not among it.
    pub fn update_time_slice(&mut self, time_slice: &Vec<BaseDataEnum>) -> (out: Vec<BaseDataEnum>)
        requires
            old(self).wf(),
        ensures
            final(self).wf(),
            final(self)@ == (Subscriptions {
                symbols: spec_dispatch_all(old(self)@.symbols, time_slice@).0,
                ..old(self)@
            }),
            out@ == spec_dispatch_all(old(self)@.symbols, time_slice@).1,
    {
        let mut out: Vec<BaseDataEnum> = Vec::new();
        let mut i: usize = 0;
        assert(time_slice@.take(0) =~= Seq::<BaseDataEnum>::empty());
        while i < time_slice.len()
            invariant
                i <= time_slice.len(),
                self.wf(),
                self@ == (Subscriptions {
                    symbols: spec_dispatch_all(old(self)@.symbols, time_slice@.take(i as int)).0,
                    ..old(self)@
                }),
                out@ == spec_dispatch_all(old(self)@.symbols, time_slice@.take(i as int)).1,
            decreases time_slice.len() - i,
        {
            proof {
                assert(time_slice@.take(i + 1).drop_last() =~= time_slice@.take(i as int));
            }
            let data = &time_slice[i];
            match self.find_symbol_handler(data.symbol()) {
                Some(at) => {
                    let ghost before = self.symbol_subscriptions@;
                    let mut handler = self.symbol_subscriptions.remove(at);
                    assert(handler == before[at as int]);
                    let mut more = handler.update(data);
                    out.append(&mut more);
                    self.put_back(at, handler, Ghost(before));
                },
                None => {},
            }
            i = i + 1;
        }
        assert(time_slice@.take(time_slice.len() as int) =~= time_slice@);
        out
    }

    /// Advances the clock of every consolidator and returns what they
    /// yield.
    pub fn update_consolidators_time(&mut self, time: i64) -> (out: Vec<BaseDataEnum>)
        requires
            old(self).wf(),
        ensures
            final(self).wf(),
            final(self)@ == (Subscriptions {
                symbols: spec_tick_all(old(self)@.symbols, time as int).0,
                ..old(self)@
            }),
            out@ == spec_tick_all(old(self)@.symbols, time as int).1,
    {
        let mut out: Vec<BaseDataEnum> = Vec::new();
        let mut i: usize = 0;
        let ghost start = self.symbol_subscriptions@;
        let ghost views = old(self)@.symbols;
        assert(views.take(0) =~= Seq::<SymbolSubscriptions>::empty());
        while i < self.symbol_subscriptions.len()
            invariant
                i <= self.symbol_subscriptions.len(),
                self.wf(),
                start == old(self).symbol_subscriptions@,
                views == old(self)@.symbols,
                self.symbol_subscriptions@.len() == start.len(),
                self.fundamental_subscriptions == old(self).fundamental_subscriptions,
                self.strategy_subscriptions == old(self).strategy_subscriptions,
                self.subscriptions_updated == old(self).subscriptions_updated,
                self.strategy_mode == old(self).strategy_mode,
                self.is_warmed_up == old(self).is_warmed_up,
                self@.symbols.take(i as int) == spec_tick_all(views.take(i as int), time as int).0,
                out@ == spec_tick_all(views.take(i as int), time as int).1,
                forall|k: int|
                    i <= k < start.len() ==> (#[trigger] self.symbol_subscriptions@[k]) == start[k],
            decreases self.symbol_subscriptions.len() - i,
        {
            let ghost before = self.symbol_subscriptions@;
            let ghost done = self@.symbols.take(i as int);
            let mut handler = self.symbol_subscriptions.remove(i);
            assert(handler == before[i as int]);
            let mut more = handler.update_time(time);
            out.append(&mut more);
            self.put_back(i, handler, Ghost(before));
            proof {
                assert(views.take(i + 1).drop_last() =~= views.take(i as int));
                assert(views.take(i + 1).last() == start[i as int]@);
                assert(self@.symbols.take(i + 1) =~= done.push(handler@));
            }
            i = i + 1;
        }
        proof {
            assert(views.take(views.len() as int) =~= views);
            assert(self@.symbols.take(self@.symbols.len() as int) =~= self@.symbols);
        }
        out
    }

    fn consolidator(&self, subscription: &DataSubscription) -> (found: Option<&ConsolidatorEnum>)
        requires
            self.wf(),
        ensures
            match found {
                Some(c) => c.wf() && self@.consolidator_of(*subscription) == Some(c@),
                None => self@.consolidator_of(*subscription) is None,
            },
    {
        if subscription.base_data_type == BaseDataType::Fundamentals {
            return None;
        }
        match self.find_symbol_handler(&subscription.symbol) {
            Some(at) => self.symbol_subscriptions[at].consolidator(subscription),
            None => None,
        }
    }

    /// The closed bars of a consolidated subscription, newest first.
    pub fn history(&self, subscription: &DataSubscription) -> (history: Option<
        &RollingWindow<BaseDataEnum>,
    >)
        requires
            self.wf(),
        ensures
            match history {
                Some(window) => self@.consolidator_of(*subscription) is Some && window@
                    == self@.consolidator_of(*subscription)->Some_0.history(),
                None => self@.consolidator_of(*subscription) is None,
            },
    {
        match self.consolidator(subscription) {
            Some(consolidator) => Some(consolidator.history()),
            None => None,
        }
    }

    /// The closed bar of a consolidated subscription `index` bars back.
    pub fn bar_index(&self, subscription: &DataSubscription, index: usize) -> (bar: Option<
        BaseDataEnum,
    >)
        requires
            self.wf(),
        ensures
            bar == (match self@.consolidator_of(*subscription) {
                Some(model) => if index < model.history().len() {
                    Some(model.history()[index as int])
                } else {
                    None
                },
                None => None,
            }),
    {
        match self.consolidator(subscription) {
            Some(consolidator) => consolidator.index(index),
            None => None,
        }
    }

    /// The bar in progress of a consolidated subscription.
    pub fn bar_current(&self, subscription: &DataSubscription) -> (bar: Option<BaseDataEnum>)
        requires
            self.wf(),
        ensures
            bar == (match self@.consolidator_of(*subscription) {
                Some(model) => model.current(),
                None => None,
            }),
    {
        match self.consolidator(subscription) {
            Some(consolidator) => consolidator.current(),
            None => None,
        }
    }

    /// Replays historical primary data through the consolidator of a
    /// subscription that was added after warm-up. The result says whether
    /// there is such a consolidator.
    pub fn warmup(
        &mut self,
        subscription: &DataSubscription,
        data: &Vec<BaseDataEnum>,
        from_time: i64,
        to_time: i64,
    ) -> (warmed: bool)
        requires
            old(self).wf(),
        ensures
            final(self).wf(),
            warmed == (find_symbol(old(self)@.symbols, subscription.symbol@, 0) is Some
                && find_secondary(
                old(self)@.symbols[find_symbol(
                    old(self)@.symbols,
                    subscription.symbol@,
                    0,
                )->Some_0].secondaries,
                subscription@,
                0,
            ) is Some),
            final(self)@ == old(self)@.warmed(*subscription, data@, from_time as int, to_time as int),
    {
        match self.find_symbol_handler(&subscription.symbol) {
            Some(at) => {
                let ghost before = self.symbol_subscriptions@;
                let mut handler = self.symbol_subscriptions.remove(at);
                assert(handler == before[at as int]);
                let warmed = handler.warmup(subscription, data, from_time, to_time);
                self.put_back(at, handler, Ghost(before));
                proof {
                    assert(self@.symbols =~= old(self)@.warmed(
                        *subscription,
                        data@,
                        from_time as int,
                        to_time as int,
                    ).symbols);
                }
                warmed
            },
            None => false,
        }
    }
}

/// A subscription that fails leaves the subscriptions of the symbol as they
/// were.
pub proof fn lemma_failed_subscribe_changes_nothing(
    before: SymbolSubscriptions,
    after: SymbolSubscriptions,
    outcome: Result<(), SubscriptionError>,
    wanted: DataSubscription,
    catalog: Seq<SubscriptionResolutionType>,
    capacity: usize,
)
    requires
        is_subscribed(before, after, outcome, wanted, catalog, capacity),
        outcome is Err,
    ensures
        after == before,
{
}

/// The strategy finds among its subscriptions what it subscribed to, and
/// the change is flagged.
pub proof fn lemma_subscribed_is_listed(
    before: Subscriptions,
    after: Subscriptions,
    wanted: DataSubscription,
    capacity: usize,
    catalog: Seq<SubscriptionResolutionType>,
    settings: ConsolidationSettings,
)
    requires
        before.is_subscribed(after, Ok(()), wanted, capacity, catalog, settings),
    ensures
        lists(after.strategy, wanted@),
        after.updated,
        lists(before.strategy, wanted@) ==> after.strategy == before.strategy,
{
    if !lists(before.strategy, wanted@) {
        let grown = before.strategy.push(wanted);
        assert(grown[grown.len() - 1]@ == wanted@);
    }
}

} // verus!
