use vstd::prelude::*;

verus! {

/// The in-memory counter behind the increment and read commands.
///
/// The caller guards it with a lock; each call below is one critical
/// section's worth of work.
pub struct Counter {
    value: i32,
}

impl Counter {
    pub closed spec fn spec_value(&self) -> int {
        self.value as int
    }

    /// A fresh counter starts at zero.
    pub fn new() -> (c: Counter)
        ensures
            c.spec_value() == 0,
    {
        Counter { value: 0 }
    }

    /// Adds one and reports the new count.
    pub fn increment(&mut self) -> (r: i32)
        requires
            old(self).spec_value() < i32::MAX,
        ensures
            final(self).spec_value() == old(self).spec_value() + 1,
            r as int == final(self).spec_value(),
    {
        self.value = self.value + 1;
        self.value
    }

    /// Reports the count without changing it.
    pub fn get(&self) -> (r: i32)
        ensures
            r as int == self.spec_value(),
    {
        self.value
    }
}

} // verus!
