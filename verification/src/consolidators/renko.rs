//! Renko blocks: bars driven by price movement, not by time.
//!
//! The consolidator keeps the close of the last confirmed block. A price at
//! least one block range above it confirms one bullish block per whole range
//! of distance; a price at least one range below confirms bearish blocks in
//! the same way. What is left of the move is the block in progress.
//! Blocks carry the instant of the datum that confirmed them and no
//! volume.

use crate::base_data::{price_in_range, BaseDataEnum, Candle, Price, MAX_PRICE};
use crate::consolidators::candlesticks::ConsolidatorError;
use crate::rolling_window::{window_after_add, RollingWindow};
use crate::subscriptions::{BaseDataType, CandleType, DataSubscription};
use vstd::arithmetic::div_mod::{lemma_div_pos_is_pos, lemma_fundamental_div_mod, lemma_mod_bound};
use vstd::prelude::*;

verus! {

/// The state of a Renko consolidator.
pub struct RenkoBlocks {
    pub subscription: DataSubscription,
    /// The size of a block, in price points.
    pub range: int,
    /// Close of the last confirmed block; before any block, the first price
    /// seen.
    pub anchor: Option<int>,
    /// The block in progress.
    pub current: Option<Candle>,
    /// Confirmed blocks, newest first.
    pub history: Seq<BaseDataEnum>,
    pub capacity: nat,
}

/// The price a datum contributes: the price of a trade or price
/// observation, the close of a candle. Other data carries none.
pub open spec fn incoming_price(data: BaseDataEnum) -> Option<Price> {
    match data {
        BaseDataEnum::Tick(x) => Some(x.price),
        BaseDataEnum::Price(x) => Some(x.price),
        BaseDataEnum::Candle(x) => Some(x.close),
        _ => None,
    }
}

/// A block from price `from` to price `to`.
pub open spec fn spec_block(
    subscription: DataSubscription,
    from: int,
    to: int,
    time: i64,
    is_closed: bool,
) -> Candle {
    Candle {
        symbol: subscription.symbol,
        open: from as i64,
        high: (if from >= to {
            from
        } else {
            to
        }) as i64,
        low: (if from <= to {
            from
        } else {
            to
        }) as i64,
        close: to as i64,
        volume: 0,
        range: (if from <= to {
            to - from
        } else {
            from - to
        }) as i64,
        is_closed,
        resolution: subscription.resolution,
        candle_type: CandleType::Renko,
        time,
    }
}

/// +1 when the price is at or above the anchor, -1 when it is below.
pub open spec fn direction(anchor: int, price: int) -> int {
    if price >= anchor {
        1
    } else {
        -1
    }
}

/// How many whole blocks lie between the anchor and the price.
pub open spec fn block_count(anchor: int, range: int, price: int) -> nat {
    if price >= anchor {
        ((price - anchor) / range) as nat
    } else {
        ((anchor - price) / range) as nat
    }
}

/// The block boundary `i` blocks away from the anchor in direction `dir`.
pub open spec fn edge(anchor: int, dir: int, range: int, i: nat) -> int {
    anchor + dir * (i * range)
}

/// The first `n` blocks from the anchor in direction `dir`, oldest first.
pub open spec fn spec_blocks(
    subscription: DataSubscription,
    anchor: int,
    dir: int,
    range: int,
    time: i64,
    n: nat,
) -> Seq<BaseDataEnum>
    decreases n,
{
    if n == 0 {
        Seq::empty()
    } else {
        spec_blocks(subscription, anchor, dir, range, time, (n - 1) as nat).push(
            BaseDataEnum::Candle(
                spec_block(
                    subscription,
                    edge(anchor, dir, range, (n - 1) as nat),
                    edge(anchor, dir, range, n),
                    time,
                    true,
                ),
            ),
        )
    }
}

/// The history after the blocks have been appended one by one.
pub open spec fn spec_history_after(
    history: Seq<BaseDataEnum>,
    capacity: nat,
    blocks: Seq<BaseDataEnum>,
) -> Seq<BaseDataEnum>
    decreases blocks.len(),
{
    if blocks.len() == 0 {
        history
    } else {
        window_after_add(
            spec_history_after(history, capacity, blocks.drop_last()),
            capacity,
            blocks.last(),
        )
    }
}

/// `history` is a chain of whole, closed blocks, newest first: each opens
/// where the one before it closed, and the newest closes at `anchor`.
pub open spec fn is_chain(history: Seq<BaseDataEnum>, range: int, anchor: int) -> bool {
    &&& forall|i: int|
        0 <= i < history.len() ==> {
            let block = #[trigger] history[i];
            &&& block is Candle
            &&& block.spec_is_closed()
            &&& (block->Candle_0.close - block->Candle_0.open == range
                || block->Candle_0.open - block->Candle_0.close == range)
        }
    &&& forall|i: int, j: int|
        0 <= i && j == i + 1 && j < history.len() ==> (#[trigger] history[i])->Candle_0.open == (
        #[trigger] history[j])->Candle_0.close
    &&& (history.len() > 0 ==> history[0]->Candle_0.close == anchor)
}

impl RenkoBlocks {
    /// What every reachable state satisfies.
    pub open spec fn wf(self) -> bool {
        &&& 1 <= self.range <= MAX_PRICE
        &&& self.history.len() <= self.capacity
        &&& (self.current is Some <==> self.anchor is Some)
        &&& match self.anchor {
            Some(anchor) => {
                let block = self.current->Some_0;
                &&& price_in_range(anchor)
                &&& is_chain(self.history, self.range, anchor)
                &&& block.open == anchor
                &&& !block.is_closed
                &&& price_in_range(block.close as int)
                &&& anchor - self.range < block.close < anchor + self.range
            },
            None => self.history.len() == 0,
        }
    }

    /// A datum is taken in when it carries a price and is well formed.
    pub open spec fn accepts(self, data: BaseDataEnum) -> bool {
        incoming_price(data) is Some && data.well_formed()
    }

    /// State and output after a datum arrives. The first price seeds the
    /// anchor. Later prices confirm `block_count` blocks; the output lists
    /// them oldest first, followed by the block in progress, which runs from
    /// the new anchor to the price.
    pub open spec fn update(self, data: BaseDataEnum) -> (RenkoBlocks, Seq<BaseDataEnum>) {
        if !self.accepts(data) {
            (self, Seq::empty())
        } else {
            let price = incoming_price(data)->Some_0 as int;
            let time = data.spec_time();
            match self.anchor {
                None => {
                    let block = spec_block(self.subscription, price, price, time, false);
                    (
                        RenkoBlocks { anchor: Some(price), current: Some(block), ..self },
                        seq![BaseDataEnum::Candle(block)],
                    )
                },
                Some(anchor) => {
                    let dir = direction(anchor, price);
                    let n = block_count(anchor, self.range, price);
                    let blocks = spec_blocks(self.subscription, anchor, dir, self.range, time, n);
                    let moved = edge(anchor, dir, self.range, n);
                    let block = spec_block(self.subscription, moved, price, time, false);
                    (
                        RenkoBlocks {
                            anchor: Some(moved),
                            current: Some(block),
                            history: spec_history_after(self.history, self.capacity, blocks),
                            ..self
                        },
                        blocks.push(BaseDataEnum::Candle(block)),
                    )
                },
            }
        }
    }
}

/// Why no Renko consolidator exists for the arguments, if there is a
/// reason.
pub open spec fn renko_rejection(subscription: DataSubscription, range: i64) -> Option<
    ConsolidatorError,
> {
    if subscription.base_data_type == BaseDataType::Fundamentals {
        Some(ConsolidatorError::Fundamentals)
    } else if subscription.candle_type != Some(CandleType::Renko) {
        Some(ConsolidatorError::WrongCandleType)
    } else if !(1 <= range <= MAX_PRICE) {
        Some(ConsolidatorError::InvalidTickSize)
    } else {
        None
    }
}

/// Builds Renko blocks of a fixed range from a primary stream.
pub struct RenkoConsolidator {
    subscription: DataSubscription,
    range: i64,
    anchor: Option<i64>,
    current_data: Option<Candle>,
    history: RollingWindow<BaseDataEnum>,
}

impl View for RenkoConsolidator {
    type V = RenkoBlocks;

    closed spec fn view(&self) -> RenkoBlocks {
        RenkoBlocks {
            subscription: self.subscription,
            range: self.range as int,
            anchor: match self.anchor {
                Some(a) => Some(a as int),
                None => None,
            },
            current: self.current_data,
            history: self.history@,
            capacity: self.history.capacity(),
        }
    }
}

impl RenkoConsolidator {
    /// The invariant of the consolidator; `new` establishes it and every
    /// method keeps it.
    pub closed spec fn wf(&self) -> bool {
        self@.wf()
    }

    /// A consolidator is well formed only in well-formed states.
    pub proof fn lemma_wf_view(&self)
        requires
            self.wf(),
        ensures
            self@.wf(),
    {
    }

    /// A consolidator for a Renko subscription with blocks of `range` price
    /// points.
    pub fn new(subscription: DataSubscription, history_to_retain: usize, range: i64) -> (made:
        Result<Self, ConsolidatorError>)
        ensures
            match made {
                Ok(c) => renko_rejection(subscription, range) is None && c.wf() && c@
                    == (RenkoBlocks {
                    subscription,
                    range: range as int,
                    anchor: None,
                    current: None,
                    history: Seq::empty(),
                    capacity: history_to_retain as nat,
                }),
                Err(e) => renko_rejection(subscription, range) == Some(e),
            },
    {
        if subscription.base_data_type == BaseDataType::Fundamentals {
            return Err(ConsolidatorError::Fundamentals);
        }
        match subscription.candle_type {
            Some(CandleType::Renko) => {},
            _ => {
                return Err(ConsolidatorError::WrongCandleType);
            },
        }
        if range < 1 || range > MAX_PRICE {
            return Err(ConsolidatorError::InvalidTickSize);
        }
        Ok(
            RenkoConsolidator {
                subscription,
                range,
                anchor: None,
                current_data: None,
                history: RollingWindow::new(history_to_retain),
            },
        )
    }

    fn block(&self, from: i64, to: i64, time: i64, is_closed: bool) -> (block: Candle)
        requires
            price_in_range(from as int),
            price_in_range(to as int),
        ensures
            block == spec_block(self.subscription, from as int, to as int, time, is_closed),
    {
        Candle {
            symbol: self.subscription.symbol.clone(),
            open: from,
            high: if from >= to {
                from
            } else {
                to
            },
            low: if from <= to {
                from
            } else {
                to
            },
            close: to,
            volume: 0,
            range: if from <= to {
                to - from
            } else {
                from - to
            },
            is_closed,
            resolution: self.subscription.resolution,
            candle_type: CandleType::Renko,
            time,
        }
    }

    /// Feeds one datum of the primary stream.
    pub fn update(&mut self, base_data: &BaseDataEnum) -> (out: Vec<BaseDataEnum>)
        requires
            old(self).wf(),
        ensures
            final(self).wf(),
            final(self)@ == old(self)@.update(*base_data).0,
            out@ == old(self)@.update(*base_data).1,
    {
        let price = match base_data {
            BaseDataEnum::Tick(x) => x.price,
            BaseDataEnum::Price(x) => x.price,
            BaseDataEnum::Candle(x) => x.close,
            _ => {
                return Vec::new();
            },
        };
        if !base_data.is_well_formed() {
            return Vec::new();
        }
        let time = base_data.time_utc();
        let mut out: Vec<BaseDataEnum> = Vec::new();
        let anchor = match self.anchor {
            Some(anchor) => anchor,
            None => {
                let block = self.block(price, price, time, false);
                self.anchor = Some(price);
                self.current_data = Some(block.clone());
                out.push(BaseDataEnum::Candle(block));
                assert(out@ =~= old(self)@.update(*base_data).1);
                return out;
            },
        };
        let up = price >= anchor;
        let ghost dir = direction(anchor as int, price as int);
        let ghost n = block_count(anchor as int, self.range as int, price as int);
        let count: i64 = if up {
            (price - anchor) / self.range
        } else {
            (anchor - price) / self.range
        };
        proof {
            lemma_update_keeps_wf(self@, *base_data);
            lemma_edges_between(anchor as int, self.range as int, price as int, n);
        }
        let mut made: i64 = 0;
        let mut boundary: i64 = anchor;
        while made < count
            invariant
                0 <= made <= count,
                count == n,
                up == (price >= anchor),
                dir == direction(anchor as int, price as int),
                n == block_count(anchor as int, self.range as int, price as int),
                1 <= self.range <= MAX_PRICE,
                price_in_range(anchor as int),
                price_in_range(price as int),
                boundary == edge(anchor as int, dir, self.range as int, made as nat),
                self.subscription == old(self).subscription,
                self.range == old(self).range,
                self.anchor == old(self).anchor,
                self.current_data == old(self).current_data,
                self.history.capacity() == old(self).history.capacity(),
                out@ == spec_blocks(
                    self.subscription,
                    anchor as int,
                    dir,
                    self.range as int,
                    time,
                    made as nat,
                ),
                self.history@ == spec_history_after(
                    old(self).history@,
                    self.history.capacity(),
                    out@,
                ),
            decreases count - made,
        {
            proof {
                lemma_edges_between(anchor as int, self.range as int, price as int, made as nat);
                lemma_edges_between(
                    anchor as int,
                    self.range as int,
                    price as int,
                    (made + 1) as nat,
                );
                lemma_edge_step(anchor as int, dir, self.range as int, made as nat);
            }
            let next: i64 = if up {
                boundary + self.range
            } else {
                boundary - self.range
            };
            let block = BaseDataEnum::Candle(self.block(boundary, next, time, true));
            let ghost before = out@;
            self.history.add(block.clone());
            out.push(block);
            proof {
                assert(out@.drop_last() =~= before);
            }
            boundary = next;
            made = made + 1;
        }
        proof {
            lemma_edges_between(anchor as int, self.range as int, price as int, n);
        }
        let block = self.block(boundary, price, time, false);
        self.anchor = Some(boundary);
        self.current_data = Some(block.clone());
        out.push(BaseDataEnum::Candle(block));
        out
    }

    /// The clock does not drive Renko blocks: nothing changes and nothing is
    /// emitted.
    pub fn update_time(&mut self, time: i64) -> (out: Vec<BaseDataEnum>)
        ensures
            *final(self) == *old(self),
            out@ == Seq::<BaseDataEnum>::empty(),
    {
        Vec::new()
    }

    pub fn subscription(&self) -> (subscription: &DataSubscription)
        ensures
            *subscription == self@.subscription,
    {
        &self.subscription
    }

    /// The confirmed blocks that are retained, newest first.
    pub fn history(&self) -> (bars: &RollingWindow<BaseDataEnum>)
        ensures
            bars@ == self@.history,
            bars.capacity() == self@.capacity,
    {
        &self.history
    }

    /// The confirmed block `index` blocks back; 0 is the most recent.
    pub fn index(&self, index: usize) -> (bar: Option<BaseDataEnum>)
        ensures
            bar == (if index < self@.history.len() {
                Some(self@.history[index as int])
            } else {
                None
            }),
    {
        match self.history.get(index) {
            Some(bar) => Some(bar.clone()),
            None => None,
        }
    }

    /// The block in progress, if a price has been seen.
    pub fn current(&self) -> (bar: Option<BaseDataEnum>)
        ensures
            bar == (match self@.current {
                Some(candle) => Some(BaseDataEnum::Candle(candle)),
                None => None,
            }),
    {
        match &self.current_data {
            Some(candle) => Some(BaseDataEnum::Candle(candle.clone())),
            None => None,
        }
    }
}

/// Each boundary is one block range beyond the one before it.
pub proof fn lemma_edge_step(anchor: int, dir: int, range: int, i: nat)
    ensures
        edge(anchor, dir, range, i + 1) == edge(anchor, dir, range, i) + dir * range,
        edge(anchor, dir, range, 0) == anchor,
{
    assert(dir * ((i + 1) * range) == dir * (i * range) + dir * range) by (nonlinear_arith);
    assert(dir * (0 * range) == 0) by (nonlinear_arith);
}

/// The boundaries of the confirmed blocks lie between the anchor and the
/// price, and after the last of them less than one range is left.
pub proof fn lemma_edges_between(anchor: int, range: int, price: int, i: nat)
    requires
        range >= 1,
        i <= block_count(anchor, range, price),
    ensures
        price >= anchor ==> anchor <= edge(anchor, 1, range, i) <= price,
        price < anchor ==> price <= edge(anchor, -1, range, i) <= anchor,
        i == block_count(anchor, range, price) ==> {
            let moved = edge(anchor, direction(anchor, price), range, i);
            moved - range < price < moved + range
        },
        price >= anchor ==> block_count(anchor, range, price) == (price - anchor) / range,
        price < anchor ==> block_count(anchor, range, price) == (anchor - price) / range,
{
    let n = block_count(anchor, range, price);
    let distance = if price >= anchor {
        price - anchor
    } else {
        anchor - price
    };
    lemma_fundamental_div_mod(distance, range);
    lemma_mod_bound(distance, range);
    lemma_div_pos_is_pos(distance, range);
    assert(n == distance / range);
    assert(i * range <= n * range) by (nonlinear_arith)
        requires
            i <= n,
            range >= 1,
    ;
    assert(range * (distance / range) == (distance / range) * range) by (nonlinear_arith);
    assert(i * range >= 0) by (nonlinear_arith)
        requires
            range >= 1,
    ;
    assert(1 * (i * range) == i * range);
    assert(-1 * (i * range) == -(i * range));
}

/// Appending a block that opens at the anchor and spans one range keeps the
/// history a chain, now ending at the close of that block.
pub proof fn lemma_push_block_keeps_chain(
    history: Seq<BaseDataEnum>,
    capacity: nat,
    range: int,
    anchor: int,
    block: Candle,
)
    requires
        is_chain(history, range, anchor),
        history.len() <= capacity,
        block.is_closed,
        block.open == anchor,
        block.close - block.open == range || block.open - block.close == range,
    ensures
        is_chain(
            window_after_add(history, capacity, BaseDataEnum::Candle(block)),
            range,
            block.close as int,
        ),
        window_after_add(history, capacity, BaseDataEnum::Candle(block)).len() <= capacity,
{
    let grown = seq![BaseDataEnum::Candle(block)] + history;
    let after = window_after_add(history, capacity, BaseDataEnum::Candle(block));
    assert forall|i: int, j: int| 0 <= i && j == i + 1 && j < after.len() implies (
    #[trigger] after[i])->Candle_0.open == (#[trigger] after[j])->Candle_0.close by {
        if i > 0 {
            assert(after[i] == history[i - 1]);
            assert(after[j] == history[j - 1]);
        } else {
            assert(after[0] == BaseDataEnum::Candle(block));
            assert(after[1] == history[0]);
        }
    }
    assert forall|i: int| 0 <= i < after.len() implies {
        let b = #[trigger] after[i];
        &&& b is Candle
        &&& b.spec_is_closed()
        &&& (b->Candle_0.close - b->Candle_0.open == range || b->Candle_0.open - b->Candle_0.close
            == range)
    } by {
        if i > 0 {
            assert(after[i] == history[i - 1]);
        }
    }
}

/// After `n` blocks have been appended the history is a chain that ends at
/// the `n`-th boundary.
pub proof fn lemma_blocks_keep_chain(
    subscription: DataSubscription,
    history: Seq<BaseDataEnum>,
    capacity: nat,
    anchor: int,
    range: int,
    price: int,
    time: i64,
    n: nat,
)
    requires
        1 <= range <= MAX_PRICE,
        price_in_range(anchor),
        price_in_range(price),
        is_chain(history, range, anchor),
        history.len() <= capacity,
        n <= block_count(anchor, range, price),
    ensures
        is_chain(
            spec_history_after(
                history,
                capacity,
                spec_blocks(subscription, anchor, direction(anchor, price), range, time, n),
            ),
            range,
            edge(anchor, direction(anchor, price), range, n),
        ),
        spec_history_after(
            history,
            capacity,
            spec_blocks(subscription, anchor, direction(anchor, price), range, time, n),
        ).len() <= capacity,
        spec_blocks(subscription, anchor, direction(anchor, price), range, time, n).len() == n,
    decreases n,
{
    let dir = direction(anchor, price);
    lemma_edge_step(anchor, dir, range, 0);
    if n == 0 {
        assert(history.len() == 0 || history[0]->Candle_0.close == anchor);
    } else {
        let m = (n - 1) as nat;
        lemma_blocks_keep_chain(subscription, history, capacity, anchor, range, price, time, m);
        lemma_edges_between(anchor, range, price, m);
        lemma_edges_between(anchor, range, price, n);
        lemma_edge_step(anchor, dir, range, m);
        let earlier = spec_blocks(subscription, anchor, dir, range, time, m);
        let blocks = spec_blocks(subscription, anchor, dir, range, time, n);
        let block = spec_block(
            subscription,
            edge(anchor, dir, range, m),
            edge(anchor, dir, range, n),
            time,
            true,
        );
        assert(blocks.drop_last() =~= earlier);
        assert(blocks.last() == BaseDataEnum::Candle(block));
        lemma_push_block_keeps_chain(
            spec_history_after(history, capacity, earlier),
            capacity,
            range,
            edge(anchor, dir, range, m),
            block,
        );
    }
}

/// Feeding a datum keeps the invariant.
pub proof fn lemma_update_keeps_wf(state: RenkoBlocks, data: BaseDataEnum)
    requires
        state.wf(),
    ensures
        state.update(data).0.wf(),
{
    if state.accepts(data) {
        let price = incoming_price(data)->Some_0 as int;
        match state.anchor {
            None => {},
            Some(anchor) => {
                let n = block_count(anchor, state.range, price);
                lemma_blocks_keep_chain(
                    state.subscription,
                    state.history,
                    state.capacity,
                    anchor,
                    state.range,
                    price,
                    data.spec_time(),
                    n,
                );
                lemma_edges_between(anchor, state.range, price, n);
            },
        }
    }
}

/// Every block a datum confirms spans exactly one block range; each opens
/// where the block before it closed, the first of them where the last
/// confirmed block closed; and the block in progress opens where the last
/// confirmed block closed.
pub proof fn lemma_blocks_are_whole_and_linked(state: RenkoBlocks, data: BaseDataEnum, i: int)
    requires
        state.wf(),
        state.anchor is Some,
        state.accepts(data),
        0 <= i < state.update(data).1.len(),
    ensures
        ({
            let out = state.update(data).1;
            let block = out[i]->Candle_0;
            let after = state.update(data).0;
            &&& out.len() == block_count(
                state.anchor->Some_0,
                state.range,
                incoming_price(data)->Some_0 as int,
            ) + 1
            &&& out[i] is Candle
            &&& i == 0 ==> block.open == state.anchor->Some_0
            &&& i > 0 ==> block.open == out[i - 1]->Candle_0.close
            &&& i < out.len() - 1 ==> block.is_closed && (block.close - block.open == state.range
                || block.open - block.close == state.range)
            &&& i == out.len() - 1 ==> !block.is_closed && Some(block) == after.current
                && after.anchor == Some(block.open as int)
        }),
{
    let anchor = state.anchor->Some_0;
    let price = incoming_price(data)->Some_0 as int;
    let dir = direction(anchor, price);
    let n = block_count(anchor, state.range, price);
    let time = data.spec_time();
    lemma_blocks_keep_chain(
        state.subscription,
        state.history,
        state.capacity,
        anchor,
        state.range,
        price,
        time,
        n,
    );
    lemma_edges_between(anchor, state.range, price, n);
    lemma_edge_step(anchor, dir, state.range, 0);
    if i < n {
        lemma_block_at(state.subscription, anchor, state.range, price, time, n, i as nat);
        lemma_edges_between(anchor, state.range, price, i as nat);
        lemma_edges_between(anchor, state.range, price, (i + 1) as nat);
        lemma_edge_step(anchor, dir, state.range, i as nat);
    }
    if i > 0 {
        lemma_block_at(state.subscription, anchor, state.range, price, time, n, (i - 1) as nat);
        lemma_edges_between(anchor, state.range, price, (i - 1) as nat);
        lemma_edges_between(anchor, state.range, price, i as nat);
    }
}

/// The `i`-th confirmed block runs from boundary `i` to boundary `i + 1`.
pub proof fn lemma_block_at(
    subscription: DataSubscription,
    anchor: int,
    range: int,
    price: int,
    time: i64,
    n: nat,
    i: nat,
)
    requires
        i < n,
    ensures
        spec_blocks(subscription, anchor, direction(anchor, price), range, time, n).len() == n,
        spec_blocks(subscription, anchor, direction(anchor, price), range, time, n)[i as int]
            == BaseDataEnum::Candle(
            spec_block(
                subscription,
                edge(anchor, direction(anchor, price), range, i),
                edge(anchor, direction(anchor, price), range, i + 1),
                time,
                true,
            ),
        ),
    decreases n,
{
    lemma_blocks_len(subscription, anchor, direction(anchor, price), range, time, n);
    lemma_blocks_len(subscription, anchor, direction(anchor, price), range, time, (n - 1) as nat);
    if i + 1 < n {
        lemma_block_at(subscription, anchor, range, price, time, (n - 1) as nat, i);
    }
}

proof fn lemma_blocks_len(
    subscription: DataSubscription,
    anchor: int,
    dir: int,
    range: int,
    time: i64,
    n: nat,
)
    ensures
        spec_blocks(subscription, anchor, dir, range, time, n).len() == n,
    decreases n,
{
    if n > 0 {
        lemma_blocks_len(subscription, anchor, dir, range, time, (n - 1) as nat);
    }
}

} // verus!
