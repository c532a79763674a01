//! A bounded window over the most recent items of a stream, newest first.

use vstd::prelude::*;

verus! {

/// Keeps the `capacity` most recent items; index 0 is the newest.
pub struct RollingWindow<T> {
    history: Vec<T>,
    number: usize,
}

impl<T> View for RollingWindow<T> {
    type V = Seq<T>;

    closed spec fn view(&self) -> Seq<T> {
        self.history@
    }
}

/// What a window holds after `data` arrives: the new item in front, and the
/// oldest item gone if that would exceed `capacity`.
pub open spec fn window_after_add<T>(before: Seq<T>, capacity: nat, data: T) -> Seq<T> {
    let grown = seq![data] + before;
    if grown.len() > capacity {
        grown.take(capacity as int)
    } else {
        grown
    }
}

impl<T> RollingWindow<T> {
    /// The largest number of items the window retains.
    pub closed spec fn capacity(&self) -> nat {
        self.number as nat
    }

    /// The window holds no more than its capacity. Every window built by
    /// `new` satisfies this, and every method keeps it.
    pub open spec fn wf(&self) -> bool {
        self@.len() <= self.capacity()
    }

    pub fn new(number: usize) -> (window: Self)
        ensures
            window@ == Seq::<T>::empty(),
            window.capacity() == number,
            window.wf(),
    {
        RollingWindow { history: Vec::new(), number }
    }

    pub fn clear(&mut self)
        ensures
            final(self)@ == Seq::<T>::empty(),
            final(self).capacity() == old(self).capacity(),
            final(self).wf(),
    {
        self.history.clear()
    }

    pub fn is_empty(&self) -> (empty: bool)
        ensures
            empty == (self@.len() == 0),
    {
        self.history.len() == 0
    }

    /// Puts `data` at index 0 and discards the oldest item once the window is
    /// over capacity.
    pub fn add(&mut self, data: T)
        ensures
            final(self)@ == window_after_add(old(self)@, old(self).capacity(), data),
            final(self).capacity() == old(self).capacity(),
            final(self).wf(),
    {
        self.history.insert(0, data);
        assert(self.history@ =~= seq![data] + old(self).history@);
        if self.history.len() > self.number {
            self.history.truncate(self.number);
        }
    }

    pub fn last(&self) -> (newest: Option<&T>)
        ensures
            newest == (if self@.len() > 0 {
                Some(&self@[0])
            } else {
                None
            }),
    {
        if self.history.len() > 0 {
            Some(&self.history[0])
        } else {
            None
        }
    }

    pub fn get(&self, index: usize) -> (item: Option<&T>)
        ensures
            item == (if index < self@.len() {
                Some(&self@[index as int])
            } else {
                None
            }),
    {
        if index < self.history.len() {
            Some(&self.history[index])
        } else {
            None
        }
    }

    pub fn len(&self) -> (n: usize)
        ensures
            n == self@.len(),
    {
        self.history.len()
    }

    pub fn is_full(&self) -> (full: bool)
        ensures
            full == (self@.len() == self.capacity()),
    {
        self.history.len() == self.number
    }

    /// The `n` newest items, or all of them when fewer are held.
    pub fn last_n(&self, n: usize) -> (items: &[T])
        ensures
            items@ == self@.take(if n <= self@.len() {
                n as int
            } else {
                self@.len() as int
            }),
    {
        let n = if n <= self.history.len() {
            n
        } else {
            self.history.len()
        };
        let items = vstd::slice::slice_subrange(self.history.as_slice(), 0, n);
        assert(items@ =~= self.history@.take(n as int));
        items
    }
}

impl<T: Clone> RollingWindow<T> {
    /// A copy of the retained items, newest first.
    pub fn history(&self) -> (items: Vec<T>)
        ensures
            items.len() == self@.len(),
            forall|i: int| 0 <= i < self@.len() ==> cloned::<T>(#[trigger] self@[i], items[i]),
    {
        self.history.clone()
    }
}

} // verus!
