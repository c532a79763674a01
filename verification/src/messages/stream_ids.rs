//! Stream ids: a 16-bit number for every live connection, unique among the
//! connections that are active, and free again when a connection closes.

use vstd::prelude::*;

verus! {

/// How many stream ids there are.
pub const STREAM_ID_COUNT: usize = 0x1_0000;

/// The ids in use, and where the search for a free one starts.
pub struct StreamIds {
    used: Vec<bool>,
    next_id: u16,
}

/// The id `steps` after `from`, going round after the largest.
pub open spec fn spec_id_after(from: u16, steps: int) -> u16 {
    ((from + steps) % 0x1_0000) as u16
}

impl StreamIds {
    /// Whether an id is in use.
    pub closed spec fn in_use(&self, id: u16) -> bool {
        self.used@[id as int]
    }

    /// Where the search for a free id starts.
    pub closed spec fn next(&self) -> u16 {
        self.next_id
    }

    /// The invariant of the allocator.
    pub closed spec fn wf(&self) -> bool {
        self.used@.len() == STREAM_ID_COUNT
    }

    /// No ids in use; the first one given out is 1.
    pub fn new() -> (ids: Self)
        ensures
            ids.wf(),
            ids.next() == 1,
            forall|id: u16| !ids.in_use(id),
    {
        let mut used: Vec<bool> = Vec::new();
        let mut i: usize = 0;
        while i < STREAM_ID_COUNT
            invariant
                i <= STREAM_ID_COUNT,
                used@.len() == i,
                forall|k: int| 0 <= k < i ==> !used@[k],
            decreases STREAM_ID_COUNT - i,
        {
            used.push(false);
            i = i + 1;
        }
        StreamIds { used, next_id: 1 }
    }

    pub fn is_active(&self, id: u16) -> (used: bool)
        requires
            self.wf(),
        ensures
            used == self.in_use(id),
    {
        self.used[id as usize]
    }

    /// Gives out the first free id at or after the starting point, going
    /// round, and continues after it the next time. `None` where every id
    /// is in use.
    pub fn assign(&mut self) -> (given: Option<u16>)
        requires
            old(self).wf(),
        ensures
            final(self).wf(),
            match given {
                Some(id) => !old(self).in_use(id) && final(self).in_use(id) && (forall|other: u16|
                    other != id ==> final(self).in_use(other) == old(self).in_use(other))
                    && final(self).next() == spec_id_after(id, 1) && exists|steps: int|
                    0 <= steps < 0x1_0000 && id == spec_id_after(old(self).next(), steps)
                        && forall|k: int|
                        0 <= k < steps ==> old(self).in_use(
                            #[trigger] spec_id_after(old(self).next(), k),
                        ),
                None => *final(self) == *old(self) && forall|id: u16| old(self).in_use(id),
            },
    {
        let mut steps: u32 = 0;
        let mut candidate = self.next_id;
        while steps < 0x1_0000
            invariant
                steps <= 0x1_0000,
                self.wf(),
                *self == *old(self),
                steps < 0x1_0000 ==> candidate == spec_id_after(self.next_id, steps as int),
                forall|k: int|
                    0 <= k < steps ==> self.in_use(#[trigger] spec_id_after(self.next_id, k)),
            decreases 0x1_0000 - steps,
        {
            if !self.used[candidate as usize] {
                self.used.set(candidate as usize, true);
                self.next_id = if candidate == u16::MAX {
                    0
                } else {
                    candidate + 1
                };
                assert(candidate == spec_id_after(old(self).next(), steps as int));
                return Some(candidate);
            }
            candidate = if candidate == u16::MAX {
                0
            } else {
                candidate + 1
            };
            steps = steps + 1;
        }
        proof {
            assert forall|id: u16| old(self).in_use(id) by {
                let k = (id - self.next_id + 0x1_0000) % 0x1_0000;
                assert(spec_id_after(self.next_id, k) == id);
            }
        }
        None
    }

    /// Frees the id of a connection that has closed.
    pub fn release(&mut self, id: u16)
        requires
            old(self).wf(),
        ensures
            final(self).wf(),
            !final(self).in_use(id),
            forall|other: u16| other != id ==> final(self).in_use(other) == old(self).in_use(other),
            final(self).next() == old(self).next(),
    {
        self.used.set(id as usize, false);
    }
}

} // verus!
