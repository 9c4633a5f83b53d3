//! A `usize` that never exceeds a maximum, for cursor arithmetic that cannot
//! leave its range.

use vstd::prelude::*;

verus! {

/// `usize` bounded by a maximum value, for safe incrementation and
/// decrementation.
#[derive(Debug)]
pub struct BoundedUsize {
    /// Maximum value the `value` field can hold.
    max_value: usize,
    /// Inner value of the [`BoundedUsize`].
    value: usize,
}

impl BoundedUsize {
    /// The current value, as a mathematical integer.
    pub closed spec fn spec_value(&self) -> nat {
        self.value as nat
    }

    /// The maximum that the value may reach.
    pub closed spec fn spec_max(&self) -> nat {
        self.max_value as nat
    }

    /// The invariant of the type: the value never exceeds the maximum.
    pub open spec fn wf(&self) -> bool {
        self.spec_value() <= self.spec_max()
    }

    /// Returns the inner value of the [`BoundedUsize`].
    pub fn as_value(&self) -> (value: usize)
        ensures
            value == self.spec_value(),
    {
        self.value
    }

    /// Returns the maximum of the [`BoundedUsize`].
    pub fn as_max(&self) -> (max: usize)
        ensures
            max == self.spec_max(),
    {
        self.max_value
    }

    /// Decrements the inner value, stopping at 0.
    ///
    /// Returns `true` iff the value changed.
    pub fn decrement(&mut self) -> (changed: bool)
        ensures
            final(self).spec_max() == old(self).spec_max(),
            final(self).spec_value() == if old(self).spec_value() == 0 {
                0
            } else {
                old(self).spec_value() - 1
            },
            changed == (old(self).spec_value() != 0),
            old(self).wf() ==> final(self).wf(),
    {
        if self.value == 0 {
            false
        } else {
            self.value = self.value - 1;
            true
        }
    }

    /// Decrements the inner value and the maximum value, each stopping at 0.
    pub fn decrement_with_capacity(&mut self)
        ensures
            final(self).spec_max() == if old(self).spec_max() == 0 {
                0
            } else {
                old(self).spec_max() - 1
            },
            final(self).spec_value() == if old(self).spec_value() == 0 {
                0
            } else {
                old(self).spec_value() - 1
            },
            old(self).wf() ==> final(self).wf(),
    {
        if self.max_value > 0 {
            self.max_value = self.max_value - 1;
        }
        if self.value > 0 {
            self.value = self.value - 1;
        }
    }

    /// Increments the inner value, stopping at the maximum.
    ///
    /// Returns `true` iff the value changed.
    pub fn increment(&mut self) -> (changed: bool)
        ensures
            final(self).wf(),
            final(self).spec_max() == old(self).spec_max(),
            final(self).spec_value() == if old(self).spec_value() < old(self).spec_max() {
                old(self).spec_value() + 1
            } else {
                old(self).spec_max()
            },
            changed == (old(self).spec_value() != old(self).spec_max()),
    {
        let old_value = self.value;
        self.value = if self.value < self.max_value {
            self.value + 1
        } else {
            self.max_value
        };
        old_value != self.value
    }

    /// Increments the inner value and the maximum value.
    pub fn increment_with_capacity_unchecked(&mut self)
        requires
            old(self).wf(),
            old(self).spec_max() < usize::MAX,
        ensures
            final(self).wf(),
            final(self).spec_max() == old(self).spec_max() + 1,
            final(self).spec_value() == old(self).spec_value() + 1,
    {
        self.max_value = self.max_value + 1;
        self.value = self.value + 1;
    }

    /// Sets the value to the given index, or to the maximum if the index
    /// exceeds it.
    pub fn set(&mut self, value: usize)
        ensures
            final(self).wf(),
            final(self).spec_max() == old(self).spec_max(),
            final(self).spec_value() == if value <= old(self).spec_max() {
                value as nat
            } else {
                old(self).spec_max()
            },
    {
        self.value = if value < self.max_value {
            value
        } else {
            self.max_value
        };
    }

    /// Changes the maximum value of the [`BoundedUsize`], and lowers the value
    /// to it where it would exceed it.
    pub fn set_max(&mut self, max: usize)
        ensures
            final(self).wf(),
            final(self).spec_max() == max,
            final(self).spec_value() == if old(self).spec_value() <= max {
                old(self).spec_value()
            } else {
                max as nat
            },
    {
        self.max_value = max;
        let value = self.value;
        self.set(value);
    }

    /// Sets the value to the maximum.
    pub fn set_to_max(&mut self)
        ensures
            final(self).wf(),
            final(self).spec_max() == old(self).spec_max(),
            final(self).spec_value() == old(self).spec_max(),
    {
        self.value = self.max_value;
    }

    /// Creates a new [`BoundedUsize`] with a given maximum value, at 0.
    pub fn with_capacity(max_value: usize) -> (bounded: Self)
        ensures
            bounded.wf(),
            bounded.spec_max() == max_value,
            bounded.spec_value() == 0,
    {
        Self { max_value, value: 0 }
    }
}

impl Default for BoundedUsize {
    /// A [`BoundedUsize`] at 0 whose maximum is 0.
    fn default() -> (bounded: Self)
        ensures
            bounded.wf(),
            bounded.spec_max() == 0,
            bounded.spec_value() == 0,
    {
        Self { max_value: 0, value: 0 }
    }
}

} // verus!
