use crate::slot::Slot;
use vstd::prelude::*;

verus! {

/// A transparent wrapper around one value of type `T` whose destructor runs
/// the inner value's teardown through a single out-of-line call.
///
/// A live wrapper always holds its value; `into_inner` hands it back and
/// disarms the wrapper's own teardown.
#[derive(Ord)]
pub struct NoInlineDrop<T> {
    slot: Slot<T>,
}

impl<T> NoInlineDrop<T> {
    #[verifier::type_invariant]
    spec fn live(self) -> bool {
        self.slot.value is Some
    }

    /// The wrapper holding `value`.
    pub closed spec fn wrap(value: T) -> Self {
        NoInlineDrop { slot: Slot { value: Some(value) } }
    }

    /// The value held by the wrapper.
    pub closed spec fn view(self) -> T {
        self.slot.value.unwrap()
    }

    /// How many values the wrapper holds for its teardown to destroy. The
    /// teardown of the underlying cell leaves it emptied, owing none.
    pub closed spec fn owed_teardowns(self) -> nat {
        self.slot.owed()
    }

    /// The wrapper of `value` holds `value` and owes one teardown of it.
    pub proof fn lemma_wrap(value: T)
        ensures
            Self::wrap(value)@ == value,
            Self::wrap(value).owed_teardowns() == 1,
    {
    }

    pub fn new(value: T) -> (r: Self)
        ensures
            r == Self::wrap(value),
            r@ == value,
            r.owed_teardowns() == 1,
    {
        NoInlineDrop { slot: Slot::filled(value) }
    }

    /// Hands the inner value back; the wrapper's teardown then destroys nothing.
    pub fn into_inner(this: Self) -> (r: T)
        ensures
            r == this@,
    {
        proof {
            use_type_invariant(&this);
        }
        let NoInlineDrop { slot } = this;
        let mut slot = slot;
        let taken = slot.take();
        assert(slot.owed() == 0);
        taken.unwrap()
    }

    pub fn as_ref(&self) -> (r: &T)
        ensures
            *r == self@,
    {
        proof {
            use_type_invariant(self);
        }
        self.slot.get()
    }

    pub fn as_mut(&mut self) -> (r: &mut T)
        ensures
            *r == old(self)@,
            *final(self) == Self::wrap(*final(r)),
            final(self)@ == *final(r),
    {
        proof {
            use_type_invariant(&*self);
        }
        self.slot.get_mut()
    }
}

impl<T> core::ops::Deref for NoInlineDrop<T> {
    type Target = T;

    fn deref(&self) -> (r: &T)
        ensures
            *r == self@,
    {
        self.as_ref()
    }
}

impl<T> core::ops::DerefMut for NoInlineDrop<T> {
    fn deref_mut(&mut self) -> (r: &mut T)
        ensures
            *r == old(self)@,
            *final(self) == Self::wrap(*final(r)),
            final(self)@ == *final(r),
    {
        self.as_mut()
    }
}

impl<T> AsRef<T> for NoInlineDrop<T> {
    fn as_ref(&self) -> (r: &T)
        ensures
            *r == self@,
    {
        NoInlineDrop::as_ref(self)
    }
}

impl<T> AsMut<T> for NoInlineDrop<T> {
    fn as_mut(&mut self) -> (r: &mut T)
        ensures
            *r == old(self)@,
            *final(self) == Self::wrap(*final(r)),
            final(self)@ == *final(r),
    {
        NoInlineDrop::as_mut(self)
    }
}

impl<T> core::borrow::Borrow<T> for NoInlineDrop<T> {
    fn borrow(&self) -> &T
        returns
            &self@,
    {
        NoInlineDrop::as_ref(self)
    }
}

impl<T> core::borrow::BorrowMut<T> for NoInlineDrop<T> {
    fn borrow_mut(&mut self) -> (r: &mut T)
        ensures
            *r == old(self)@,
            *final(self) == Self::wrap(*final(r)),
            final(self)@ == *final(r),
    {
        NoInlineDrop::as_mut(self)
    }
}

impl<T> From<T> for NoInlineDrop<T> {
    fn from(value: T) -> (r: Self)
        ensures
            r == Self::wrap(value),
            r@ == value,
    {
        Self::new(value)
    }
}

impl<T> vstd::std_specs::convert::FromSpecImpl<T> for NoInlineDrop<T> {
    open spec fn obeys_from_spec() -> bool {
        true
    }

    open spec fn from_spec(v: T) -> Self {
        Self::wrap(v)
    }
}

} // verus!
