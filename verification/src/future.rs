//! The slot through which a promise hands its value to a future.
use vstd::prelude::*;

verus! {

/// What taking the value out of a slot holding `slot` gives: the value that
/// was there, and the slot left empty.
pub open spec fn take_spec<T>(slot: Option<T>) -> (Option<T>, Option<T>) {
    (slot, None)
}

/// What setting `value` into a slot leaves there.
pub open spec fn set_spec<T>(value: T) -> Option<T> {
    Some(value)
}

/// The slot of a future: empty until the promise is fulfilled, and emptied
/// again when the value is taken.
pub struct FutureCell<T> {
    value: Option<T>,
}

impl<T> View for FutureCell<T> {
    type V = Option<T>;

    closed spec fn view(&self) -> Option<T> {
        self.value
    }
}

impl<T> FutureCell<T> {
    /// An empty slot.
    pub fn new() -> (r: Self)
        ensures
            r@ is None,
    {
        FutureCell { value: None }
    }

    /// Takes the value out of the slot, if there is one.
    pub fn take(&mut self) -> (r: Option<T>)
        ensures
            (r, final(self)@) == take_spec(old(self)@),
    {
        let mut taken = None;
        std::mem::swap(&mut taken, &mut self.value);
        taken
    }

    /// Takes the value out of a slot that holds one.
    pub fn get(&mut self) -> (r: T)
        requires
            old(self)@ is Some,
        ensures
            (Some(r), final(self)@) == take_spec(old(self)@),
    {
        self.take().unwrap()
    }

    /// Puts `value` into the slot, in place of what it held.
    pub fn set(&mut self, value: T)
        ensures
            final(self)@ == set_spec(value),
    {
        self.value = Some(value);
    }
}

/// A future gives back what its promise fulfilled it with: taking the value
/// out of a slot just set to `value` gives `value`, and a second take gives
/// nothing.
pub proof fn law_take_after_set<T>(value: T)
    ensures
        take_spec(set_spec(value)).0 == Some(value),
        take_spec(take_spec(set_spec(value)).1).0 is None,
{
}

} // verus!
