//! A slot that is written once.

use vstd::prelude::*;

verus! {

/// A value that is set once and read from then on. A second attempt to set
/// it is refused and leaves the first value in place.
pub struct InitData<T> {
    data: Option<T>,
}

impl<T> InitData<T> {
    /// The value held, if the slot was set.
    pub closed spec fn value(&self) -> Option<T> {
        self.data
    }

    /// A slot that holds nothing yet.
    pub fn uninit() -> (slot: Self)
        ensures
            slot.value().is_none(),
    {
        InitData { data: None }
    }

    /// Sets the slot to `data` and reports `true`, unless it was set before:
    /// then nothing changes and the report is `false`.
    pub fn init(&mut self, data: T) -> (stored: bool)
        ensures
            stored == old(self).value().is_none(),
            final(self).value() == if stored {
                Some(data)
            } else {
                old(self).value()
            },
    {
        if self.data.is_some() {
            return false;
        }
        self.data = Some(data);
        true
    }

    /// Whether the slot was set.
    pub fn is_init(&self) -> (set: bool)
        ensures
            set == self.value().is_some(),
    {
        self.data.is_some()
    }

    /// The value, if the slot was set.
    pub fn get(&self) -> (value: Option<&T>)
        ensures
            value.is_some() == self.value().is_some(),
            value matches Some(held) ==> self.value() == Some(*held),
    {
        self.data.as_ref()
    }
}

} // verus!
