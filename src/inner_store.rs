use vstd::prelude::*;

verus! {

/// A single slot holding the protected value.
///
/// Access goes through `get` and `get_mut`; the borrow checker decides who
/// may hold which reference, so the slot needs no locking of its own.
pub struct InnerStore<T> {
    value: T,
}

impl<T> View for InnerStore<T> {
    type V = T;

    /// The value held in the slot.
    closed spec fn view(&self) -> T {
        self.value
    }
}

impl<T> InnerStore<T> {
    pub fn new(x: T) -> (r: InnerStore<T>)
        ensures
            r@ == x,
    {
        InnerStore { value: x }
    }

    /// A shared view of the value.
    pub fn get(&self) -> (r: &T)
        ensures
            *r == self@,
    {
        &self.value
    }

    /// An exclusive view of the value; what is written through it is what
    /// the slot holds afterwards.
    pub fn get_mut(&mut self) -> (r: &mut T)
        ensures
            *r == old(self)@,
            final(self)@ == *final(r),
    {
        &mut self.value
    }

    /// Takes the value out of the slot.
    pub fn into_inner(self) -> (r: T)
        ensures
            r == self@,
    {
        self.value
    }
}

} // verus!
