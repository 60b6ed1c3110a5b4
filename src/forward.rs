use crate::NoInlineDrop;
use vstd::prelude::*;
use vstd::std_specs::cmp::{PartialEqSpec, PartialOrdSpec};

verus! {

impl<T: Default> Default for NoInlineDrop<T> {
    fn default() -> (r: Self)
        ensures
            call_ensures(T::default, (), r@),
    {
        Self::new(T::default())
    }
}

impl<T: Clone> Clone for NoInlineDrop<T> {
    fn clone(&self) -> (r: Self)
        ensures
            cloned(self@, r@),
    {
        Self::new(self.as_ref().clone())
    }
}

impl<T: PartialEq> PartialEq for NoInlineDrop<T> {
    fn eq(&self, other: &Self) -> bool {
        self.as_ref().eq(other.as_ref())
    }
}

impl<T: PartialEq> vstd::std_specs::cmp::PartialEqSpecImpl for NoInlineDrop<T> {
    open spec fn obeys_eq_spec() -> bool {
        <T as PartialEqSpec>::obeys_eq_spec()
    }

    open spec fn eq_spec(&self, other: &Self) -> bool {
        self@.eq_spec(&other@)
    }
}

impl<T: Eq> Eq for NoInlineDrop<T> {}

/// Relies on `Hash::hash` of `V`: feeds `value` into the hasher. Nothing is
/// claimed of what it writes.
#[verifier::external_body]
fn hash_value<V: core::hash::Hash, H: core::hash::Hasher>(value: &V, state: &mut H) {
    value.hash(state)
}

/// Relies on `Display::fmt` of `V`: renders `value` into the formatter.
#[verifier::external_body]
fn display_value<V: core::fmt::Display>(value: &V, f: &mut core::fmt::Formatter) -> core::fmt::Result {
    value.fmt(f)
}

/// Relies on `Debug::fmt` of `V`: renders `value` into the formatter.
#[verifier::external_body]
fn debug_value<V: core::fmt::Debug>(value: &V, f: &mut core::fmt::Formatter) -> core::fmt::Result {
    value.fmt(f)
}

impl<T: core::hash::Hash> core::hash::Hash for NoInlineDrop<T> {
    /// Hashes as the value does.
    fn hash<H: core::hash::Hasher>(&self, state: &mut H) {
        hash_value(self.as_ref(), state)
    }
}

/// The formatter that `Debug` and `Display` write into, carried through opaquely.
#[verifier::external_type_specification]
#[verifier::external_body]
pub struct ExFormatter<'a>(core::fmt::Formatter<'a>);

/// The error a formatting call may report, carried through opaquely.
#[verifier::external_type_specification]
#[verifier::external_body]
pub struct ExFmtError(core::fmt::Error);

impl<T: core::fmt::Display> core::fmt::Display for NoInlineDrop<T> {
    /// Renders as the value does.
    fn fmt(&self, f: &mut core::fmt::Formatter) -> core::fmt::Result {
        display_value(self.as_ref(), f)
    }
}

impl<T: core::fmt::Debug> core::fmt::Debug for NoInlineDrop<T> {
    /// Renders as the value does.
    fn fmt(&self, f: &mut core::fmt::Formatter) -> core::fmt::Result {
        debug_value(self.as_ref(), f)
    }
}

impl<T: PartialOrd> PartialOrd for NoInlineDrop<T> {
    fn partial_cmp(&self, other: &Self) -> Option<core::cmp::Ordering> {
        self.as_ref().partial_cmp(other.as_ref())
    }
}

impl<T: PartialOrd> vstd::std_specs::cmp::PartialOrdSpecImpl for NoInlineDrop<T> {
    open spec fn obeys_partial_cmp_spec() -> bool {
        <T as PartialOrdSpec>::obeys_partial_cmp_spec()
    }

    open spec fn partial_cmp_spec(&self, other: &Self) -> Option<core::cmp::Ordering> {
        self@.partial_cmp_spec(&other@)
    }
}

} // verus!
