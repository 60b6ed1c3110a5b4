use crate::NoInlineDrop;
use vstd::prelude::*;
use vstd::std_specs::cmp::{PartialEqSpec, PartialOrdSpec};

verus! {

/// A wrapper built from any value holds exactly that one value for its
/// teardown to destroy.
pub proof fn lemma_single_teardown<T>(v: T)
    ensures
        NoInlineDrop::wrap(v).owed_teardowns() == 1,
{
    NoInlineDrop::lemma_wrap(v);
}

/// Unwrapping a freshly built wrapper gives back the value it was built from.
pub proof fn lemma_round_trip<T>(v: T)
    ensures
        NoInlineDrop::wrap(v)@ == v,
{
    NoInlineDrop::lemma_wrap(v);
}

/// Two wrappers compare equal exactly when their values do.
pub proof fn lemma_eq_transparent<T: PartialEq>(a: T, b: T)
    ensures
        <NoInlineDrop<T> as PartialEqSpec>::obeys_eq_spec() == <T as PartialEqSpec>::obeys_eq_spec(),
        NoInlineDrop::wrap(a).eq_spec(&NoInlineDrop::wrap(b)) == a.eq_spec(&b),
{
    NoInlineDrop::lemma_wrap(a);
    NoInlineDrop::lemma_wrap(b);
}

/// Two wrappers are ordered exactly as their values are.
pub proof fn lemma_cmp_transparent<T: PartialOrd>(a: T, b: T)
    ensures
        <NoInlineDrop<T> as PartialOrdSpec>::obeys_partial_cmp_spec()
            == <T as PartialOrdSpec>::obeys_partial_cmp_spec(),
        NoInlineDrop::wrap(a).partial_cmp_spec(&NoInlineDrop::wrap(b)) == a.partial_cmp_spec(&b),
{
    NoInlineDrop::lemma_wrap(a);
    NoInlineDrop::lemma_wrap(b);
}

} // verus!
