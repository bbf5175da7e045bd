//! Enumeration of the statically compiled rendering backends: a finite,
//! index-bounded cursor over the driver list, restartable by
//! reconstruction.

use vstd::prelude::*;

verus! {

/// A cursor over the engine's compiled-in driver list: `length` drivers,
/// of which those before `index` have been yielded already.
#[derive(Copy, Clone, Debug, PartialEq, Eq, Structural)]
pub struct DriverIterator {
    pub length: i32,
    pub index: i32,
}

impl DriverIterator {
    pub open spec fn wf(self) -> bool {
        0 <= self.index <= self.length
    }

    /// A fresh cursor over a driver list of the given length; the engine
    /// never reports a negative driver count.
    pub fn new(length: i32) -> (r: DriverIterator)
        requires
            0 <= length,
        ensures
            r == (DriverIterator { length, index: 0 }),
            r.wf(),
    {
        DriverIterator { length, index: 0 }
    }

    /// Yields the next driver index, in order, exactly `length` times.
    pub fn next(&mut self) -> (r: Option<i32>)
        requires
            old(self).wf(),
        ensures
            final(self).wf(),
            old(self).index < old(self).length ==> r == Option::Some(old(self).index)
                && *final(self) == (DriverIterator {
                index: (old(self).index + 1) as i32,
                ..*old(self)
            }),
            old(self).index >= old(self).length ==> r == Option::None::<i32> && *final(self)
                == *old(self),
    {
        if self.index >= self.length {
            None
        } else {
            let result = self.index;
            self.index = self.index + 1;
            Some(result)
        }
    }

    /// How many drivers are still to come.
    pub fn remaining(&self) -> (r: usize)
        requires
            self.wf(),
        ensures
            r == self.length - self.index,
    {
        (self.length - self.index) as usize
    }

    /// Drains the cursor, counting what it yields: every cursor yields
    /// exactly the drivers from its position to the end of the list, so a
    /// fresh one yields exactly `length` entries.
    pub fn count_remaining(&mut self) -> (n: usize)
        requires
            old(self).wf(),
        ensures
            n == old(self).length - old(self).index,
            final(self).wf(),
            final(self).index == final(self).length,
            final(self).length == old(self).length,
    {
        let mut n: usize = 0;
        loop
            invariant
                self.wf(),
                self.length == old(self).length,
                n == self.index - old(self).index,
            decreases self.length - self.index,
        {
            match self.next() {
                Some(_) => {
                    n = n + 1;
                },
                None => {
                    return n;
                },
            }
        }
    }
}

} // verus!
