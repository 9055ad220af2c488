use vstd::prelude::*;

verus! {

/// A shared reference to protected state, handed to a closure that runs
/// under a shared admission.
pub struct RefInner<'a, T> {
    value: &'a T,
}

impl<'a, T> RefInner<'a, T> {
    /// The state the reference points to.
    pub closed spec fn target(&self) -> T {
        *self.value
    }

    pub fn new(value: &'a T) -> (r: Self)
        ensures
            r.target() == *value,
    {
        RefInner { value }
    }

    pub fn get(&self) -> (r: &T)
        ensures
            *r == self.target(),
    {
        self.value
    }
}

impl<'a, T> std::ops::Deref for RefInner<'a, T> {
    type Target = T;

    fn deref(&self) -> &T {
        self.value
    }
}

/// An exclusive reference to protected state, handed to a closure that runs
/// under an exclusive admission. What is written through it is what the
/// borrowed value holds once the wrapper is gone.
pub struct RefMutInner<'a, T> {
    pub value: &'a mut T,
}

impl<'a, T> RefMutInner<'a, T> {
    /// The state the reference points to now.
    pub closed spec fn target(&self) -> T {
        *self.value
    }

    pub fn new(value: &'a mut T) -> (r: Self)
        ensures
            r.target() == *old(value),
            *final(r.value) == *final(value),
    {
        RefMutInner { value }
    }

    /// Once the wrapper is given up, the borrowed value holds what the
    /// wrapper held last.
    pub proof fn lemma_resolved(self)
        requires
            has_resolved(self),
        ensures
            self.target() == *final(self.value),
    {
    }

    pub fn get(&self) -> (r: &T)
        ensures
            *r == self.target(),
    {
        self.value
    }

    pub fn get_mut(&mut self) -> (r: &mut T)
        ensures
            *r == old(self).target(),
            final(self).target() == *final(r),
            *final(final(self).value) == *final(old(self).value),
    {
        self.value
    }
}

impl<'a, T> std::ops::Deref for RefMutInner<'a, T> {
    type Target = T;

    fn deref(&self) -> &T {
        self.value
    }
}

impl<'a, T> std::ops::DerefMut for RefMutInner<'a, T> {
    fn deref_mut(&mut self) -> &mut T {
        self.value
    }
}

} // verus!
