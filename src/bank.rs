//! The actuator bank: the level that each relay's output line was last driven to.
//!
//! Relays are active-low: a relay that is ON has its line LOW, one that is OFF
//! has it HIGH.
use vstd::prelude::*;

verus! {

/// The physical level of an output line.
#[derive(Clone, Copy, Debug, PartialEq, Eq, Structural)]
pub enum Level {
    High,
    Low,
}

/// The level that realises a logical state on an active-low line.
pub open spec fn level_of(on: bool) -> Level {
    if on {
        Level::Low
    } else {
        Level::High
    }
}

/// The level that realises `on`: LOW for ON, HIGH for OFF.
pub fn level_for(on: bool) -> (r: Level)
    ensures
        r == level_of(on),
{
    if on {
        Level::Low
    } else {
        Level::High
    }
}

/// A fixed-length, ordered set of relay lines and the level each one holds.
pub struct RelayBank {
    levels: Vec<Level>,
}

impl View for RelayBank {
    type V = Seq<Level>;

    closed spec fn view(&self) -> Seq<Level> {
        self.levels@
    }
}

impl RelayBank {
    /// A bank of `count` lines, every one HIGH (OFF): the safe state at startup.
    pub fn new(count: usize) -> (r: RelayBank)
        ensures
            r@.len() == count,
            forall|i: int| 0 <= i < count ==> r@[i] == Level::High,
    {
        let mut levels: Vec<Level> = Vec::new();
        let mut i: usize = 0;
        while i < count
            invariant
                i <= count,
                levels@.len() == i,
                forall|j: int| 0 <= j < i ==> levels@[j] == Level::High,
            decreases count - i,
        {
            levels.push(Level::High);
            i = i + 1;
        }
        RelayBank { levels }
    }

    /// The number of lines.
    pub fn len(&self) -> (r: usize)
        ensures
            r == self@.len(),
    {
        self.levels.len()
    }

    /// The level of line `index`.
    pub fn level(&self, index: usize) -> (r: Level)
        requires
            index < self@.len(),
        ensures
            r == self@[index as int],
    {
        self.levels[index]
    }

    /// Records that line `index` is driven for logical state `on`; the other
    /// lines keep their levels. Driving a line to the level it has changes nothing.
    pub fn set_desired(&mut self, index: usize, on: bool) -> (r: Level)
        requires
            index < old(self)@.len(),
        ensures
            r == level_of(on),
            final(self)@ == old(self)@.update(index as int, level_of(on)),
    {
        let level = level_for(on);
        self.levels.set(index, level);
        level
    }
}

} // verus!
