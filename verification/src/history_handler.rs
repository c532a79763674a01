//! The most recent data of every subscription, as it was delivered.

use crate::base_data::BaseDataEnum;
use crate::subscriptions::{DataSubscription, DataSubscriptionView};
use std::collections::VecDeque;
use vstd::prelude::*;

verus! {

/// The most recent items of one stream, newest first.
pub struct RollingWindow {
    last: VecDeque<BaseDataEnum>,
    number: usize,
}

impl View for RollingWindow {
    type V = Seq<BaseDataEnum>;

    closed spec fn view(&self) -> Seq<BaseDataEnum> {
        self.last@
    }
}

/// What a window holds after `data` arrives: the oldest item makes room if
/// the window is full, and `data` goes in front. A window of capacity 0
/// holds nothing.
pub open spec fn spec_window_add(before: Seq<BaseDataEnum>, capacity: nat, data: BaseDataEnum) -> Seq<
    BaseDataEnum,
> {
    if capacity == 0 {
        before
    } else if before.len() >= capacity {
        seq![data] + before.take(capacity - 1)
    } else {
        seq![data] + before
    }
}

impl RollingWindow {
    /// The largest number of items the window retains.
    pub closed spec fn capacity(&self) -> nat {
        self.number as nat
    }

    pub fn new(number: usize) -> (window: Self)
        ensures
            window@ == Seq::<BaseDataEnum>::empty(),
            window.capacity() == number,
    {
        RollingWindow { last: VecDeque::new(), number }
    }

    /// Puts `data` in front, after discarding the oldest items that would
    /// not fit beside it.
    pub fn add(&mut self, data: BaseDataEnum)
        ensures
            final(self)@ == spec_window_add(old(self)@, old(self).capacity(), data),
            final(self).capacity() == old(self).capacity(),
            old(self)@.len() <= old(self).capacity() ==> final(self)@.len() <= final(self).capacity(),
    {
        if self.number == 0 {
            return ;
        }
        if self.last.len() >= self.number {
            self.last.truncate(self.number - 1);
        }
        self.last.push_front(data);
    }

    /// The newest item.
    pub fn last(&self) -> (newest: Option<&BaseDataEnum>)
        ensures
            newest == (if self@.len() > 0 {
                Some(&self@[0])
            } else {
                None
            }),
    {
        if self.last.len() > 0 {
            Some(&self.last[0])
        } else {
            None
        }
    }

    /// The item `index` items back; 0 is the newest.
    pub fn get(&self, index: usize) -> (item: Option<&BaseDataEnum>)
        ensures
            item == (if index < self@.len() {
                Some(&self@[index as int])
            } else {
                None
            }),
    {
        if index < self.last.len() {
            Some(&self.last[index])
        } else {
            None
        }
    }

    pub fn len(&self) -> (n: usize)
        ensures
            n == self@.len(),
    {
        self.last.len()
    }

    pub fn is_full(&self) -> (full: bool)
        ensures
            full == (self@.len() == self.capacity()),
    {
        self.last.len() == self.number
    }

    pub fn clear(&mut self)
        ensures
            final(self)@ == Seq::<BaseDataEnum>::empty(),
            final(self).capacity() == old(self).capacity(),
    {
        self.last.clear();
    }
}

/// The windows of a history, by subscription, in the order the
/// subscriptions were first seen.
pub struct Histories {
    pub subscriptions: Seq<DataSubscription>,
    pub windows: Seq<Seq<BaseDataEnum>>,
    pub retain_last: nat,
}

/// Index of the window of a subscription, from `from` on.
pub open spec fn find_window(
    subscriptions: Seq<DataSubscription>,
    subscription: DataSubscriptionView,
    from: int,
) -> Option<int>
    decreases subscriptions.len() - from,
{
    if from < 0 || from >= subscriptions.len() {
        None
    } else if subscriptions[from]@ == subscription {
        Some(from)
    } else {
        find_window(subscriptions, subscription, from + 1)
    }
}

impl Histories {
    pub open spec fn wf(self) -> bool {
        self.subscriptions.len() == self.windows.len()
    }

    /// The history after one datum: it goes in front of the window of its
    /// subscription, which is made if this is its first datum.
    pub open spec fn added(self, data: BaseDataEnum) -> Histories {
        match find_window(self.subscriptions, data.spec_subscription()@, 0) {
            Some(at) => Histories {
                windows: self.windows.update(
                    at,
                    spec_window_add(self.windows[at], self.retain_last, data),
                ),
                ..self
            },
            None => Histories {
                subscriptions: self.subscriptions.push(data.spec_subscription()),
                windows: self.windows.push(
                    spec_window_add(Seq::empty(), self.retain_last, data),
                ),
                ..self
            },
        }
    }

    /// The history after the data of a slice, in order.
    pub open spec fn added_all(self, slice: Seq<BaseDataEnum>) -> Histories
        decreases slice.len(),
    {
        if slice.len() == 0 {
            self
        } else {
            self.added_all(slice.drop_last()).added(slice.last())
        }
    }

    /// The window of a subscription, newest first.
    pub open spec fn window(self, subscription: DataSubscriptionView) -> Option<Seq<BaseDataEnum>> {
        match find_window(self.subscriptions, subscription, 0) {
            Some(at) => Some(self.windows[at]),
            None => None,
        }
    }
}

/// Keeps the last data of every subscription that was delivered.
pub struct HistoryHandler {
    subscriptions: Vec<DataSubscription>,
    history: Vec<RollingWindow>,
    retain_last: usize,
}

impl View for HistoryHandler {
    type V = Histories;

    closed spec fn view(&self) -> Histories {
        Histories {
            subscriptions: self.subscriptions@,
            windows: self.history@.map_values(|w: RollingWindow| w@),
            retain_last: self.retain_last as nat,
        }
    }
}

impl HistoryHandler {
    /// The invariant of the handler.
    pub closed spec fn wf(&self) -> bool {
        &&& self@.wf()
        &&& forall|i: int|
            0 <= i < self.history@.len() ==> (#[trigger] self.history@[i]).capacity()
                == self.retain_last
    }

    /// A handler that retains `retain_last` items per subscription.
    pub fn new(retain_last: usize) -> (handler: Self)
        ensures
            handler.wf(),
            handler@ == (Histories {
                subscriptions: Seq::empty(),
                windows: Seq::empty(),
                retain_last: retain_last as nat,
            }),
    {
        let handler = HistoryHandler {
            subscriptions: Vec::new(),
            history: Vec::new(),
            retain_last,
        };
        assert(handler@.windows =~= Seq::empty());
        handler
    }

    fn find(&self, subscription: &DataSubscription) -> (at: Option<usize>)
        requires
            self.wf(),
        ensures
            match at {
                Some(i) => find_window(self@.subscriptions, subscription@, 0) == Some(i as int)
                    && i < self.history@.len(),
                None => find_window(self@.subscriptions, subscription@, 0) is None,
            },
    {
        let mut i: usize = 0;
        while i < self.subscriptions.len()
            invariant
                i <= self.subscriptions.len(),
                self.subscriptions@.len() == self.history@.len(),
                find_window(self@.subscriptions, subscription@, 0) == find_window(
                    self@.subscriptions,
                    subscription@,
                    i as int,
                ),
            decreases self.subscriptions.len() - i,
        {
            if self.subscriptions[i] == *subscription {
                return Some(i);
            }
            i = i + 1;
        }
        None
    }

    fn add_one(&mut self, data: &BaseDataEnum)
        requires
            old(self).wf(),
        ensures
            final(self).wf(),
            final(self)@ == old(self)@.added(*data),
    {
        let subscription = data.subscription();
        let ghost before = self.history@;
        match self.find(&subscription) {
            Some(at) => {
                let mut window = self.history.remove(at);
                assert(window == before[at as int]);
                window.add(data.clone());
                self.history.insert(at, window);
                proof {
                    assert(self@.windows =~= old(self)@.windows.update(at as int, window@));
                    assert forall|k: int| 0 <= k < self.history@.len() implies (
                    #[trigger] self.history@[k]).capacity() == self.retain_last by {
                        if k != at {
                            assert(self.history@[k] == before[k]);
                        }
                    }
                }
            },
            None => {
                let mut window = RollingWindow::new(self.retain_last);
                window.add(data.clone());
                self.subscriptions.push(subscription);
                self.history.push(window);
                proof {
                    assert(self@.windows =~= old(self)@.windows.push(window@));
                    assert forall|k: int| 0 <= k < self.history@.len() implies (
                    #[trigger] self.history@[k]).capacity() == self.retain_last by {
                        if k < before.len() {
                            assert(self.history@[k] == before[k]);
                        }
                    }
                }
            },
        }
    }

    /// Takes in the data of a slice.
    pub fn add(&mut self, time_slice: &Vec<BaseDataEnum>)
        requires
            old(self).wf(),
        ensures
            final(self).wf(),
            final(self)@ == old(self)@.added_all(time_slice@),
    {
        let mut i: usize = 0;
        assert(time_slice@.take(0) =~= Seq::<BaseDataEnum>::empty());
        while i < time_slice.len()
            invariant
                i <= time_slice.len(),
                self.wf(),
                self@ == old(self)@.added_all(time_slice@.take(i as int)),
            decreases time_slice.len() - i,
        {
            proof {
                assert(time_slice@.take(i + 1).drop_last() =~= time_slice@.take(i as int));
            }
            self.add_one(&time_slice[i]);
            i = i + 1;
        }
        assert(time_slice@.take(time_slice.len() as int) =~= time_slice@);
    }

    /// The window of a subscription, if data of it has been seen.
    pub fn window(&self, subscription: &DataSubscription) -> (window: Option<&RollingWindow>)
        requires
            self.wf(),
        ensures
            match window {
                Some(w) => self@.window(subscription@) == Some(w@),
                None => self@.window(subscription@) is None,
            },
    {
        match self.find(subscription) {
            Some(at) => Some(&self.history[at]),
            None => None,
        }
    }

    /// The item of a subscription `index` items back.
    pub fn index(&self, subscription: &DataSubscription, index: usize) -> (item: Option<
        BaseDataEnum,
    >)
        requires
            self.wf(),
        ensures
            item == (match self@.window(subscription@) {
                Some(w) => if index < w.len() {
                    Some(w[index as int])
                } else {
                    None
                },
                None => None,
            }),
    {
        match self.window(subscription) {
            Some(window) => match window.get(index) {
                Some(item) => Some(item.clone()),
                None => None,
            },
            None => None,
        }
    }

    /// The newest item of a subscription.
    pub fn last(&self, subscription: &DataSubscription) -> (item: Option<BaseDataEnum>)
        requires
            self.wf(),
        ensures
            item == (match self@.window(subscription@) {
                Some(w) => if w.len() > 0 {
                    Some(w[0])
                } else {
                    None
                },
                None => None,
            }),
    {
        match self.window(subscription) {
            Some(window) => match window.last() {
                Some(item) => Some(item.clone()),
                None => None,
            },
            None => None,
        }
    }
}

} // verus!
