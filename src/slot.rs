use vstd::prelude::*;

verus! {

/// Storage cell whose teardown is the single place where the held value is
/// destroyed. Emptying it first disarms that teardown.
#[derive(PartialEq, Eq, PartialOrd, Ord)]
pub struct Slot<T> {
    pub value: Option<T>,
}

/// Destroys the held value where it lies, in a call of its own, so that the
/// destructor glue of `T` is emitted once here instead of at every place a
/// wrapper goes out of scope. The value is never moved before it is destroyed.
#[inline(never)]
fn drop_value<T>(slot: &mut Option<T>)
    ensures
        *final(slot) is None,
    opens_invariants none
    no_unwind
{
    *slot = None;
}

impl<T> Slot<T> {
    /// Number of destructor runs of the held value still owed by this cell.
    pub open spec fn owed(self) -> nat {
        if self.value is Some {
            1
        } else {
            0
        }
    }

    pub(crate) fn filled(value: T) -> (r: Self)
        ensures
            r.value == Some(value),
            r.owed() == 1,
    {
        Slot { value: Some(value) }
    }

    /// The cell holds nothing: its teardown has destroyed the value, or the
    /// value was moved out before.
    pub open spec fn emptied(self) -> bool {
        self.value is None
    }

    /// Moves the held value out, leaving the cell empty.
    pub(crate) fn take(&mut self) -> (r: Option<T>)
        ensures
            r == old(self).value,
            final(self).value is None,
            final(self).owed() == 0,
        opens_invariants none
        no_unwind
    {
        let mut taken: Option<T> = None;
        core::mem::swap(&mut self.value, &mut taken);
        taken
    }

    pub(crate) fn get(&self) -> (r: &T)
        requires
            self.value is Some,
        ensures
            *r == self.value.unwrap(),
    {
        self.value.as_ref().unwrap()
    }

    pub(crate) fn get_mut(&mut self) -> (r: &mut T)
        requires
            old(self).value is Some,
        ensures
            *r == old(self).value.unwrap(),
            final(self).value == Some(*final(r)),
        opens_invariants none
        no_unwind
    {
        match &mut self.value {
            Some(v) => v,
            None => vstd::pervasive::unreached(),
        }
    }
}

impl<T> Drop for Slot<T> {
    fn drop(&mut self)
        ensures
            final(self).emptied(),
            final(self).owed() == 0,
        opens_invariants none
        no_unwind
    {
        drop_value(&mut self.value);
    }
}

} // verus!
