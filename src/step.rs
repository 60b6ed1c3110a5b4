use crate::NoInlineDrop;
use vstd::prelude::*;

verus! {

/// The task context handed to each step of a suspendable computation,
/// carried through opaquely.
#[verifier::external_type_specification]
#[verifier::external_body]
pub struct ExContext<'a>(core::task::Context<'a>);

/// The outcome of one step of a suspendable computation, carried through opaquely.
#[verifier::external_type_specification]
#[verifier::external_body]
#[verifier::reject_recursive_types(V)]
pub struct ExPoll<V>(core::task::Poll<V>);

/// A pinned pointer, carried through opaquely.
#[verifier::external_type_specification]
#[verifier::external_body]
#[verifier::reject_recursive_types(Ptr)]
pub struct ExPin<Ptr>(core::pin::Pin<Ptr>);

/// Relies on `Pin::get_mut`: unpins the exclusive reference to a wrapper
/// whose value may move freely.
#[verifier::external_body]
fn pin_get_mut<T: Unpin>(pinned: core::pin::Pin<&mut NoInlineDrop<T>>) -> &mut NoInlineDrop<T> {
    pinned.get_mut()
}

/// Relies on `Future::poll` of `F`, through `Pin::new`: drives `computation`
/// one step. Nothing is claimed of the outcome.
#[verifier::external_body]
fn poll_unpinned<F: core::future::Future + Unpin>(
    computation: &mut F,
    cx: &mut core::task::Context,
) -> core::task::Poll<F::Output> {
    core::pin::Pin::new(computation).poll(cx)
}

impl<T: core::future::Future + Unpin> core::future::Future for NoInlineDrop<T> {
    type Output = T::Output;

    /// One step of the wrapper is one step of its value, with the same outcome.
    fn poll(
        self: core::pin::Pin<&mut Self>,
        cx: &mut core::task::Context,
    ) -> core::task::Poll<T::Output> {
        poll_unpinned(pin_get_mut(self).as_mut(), cx)
    }
}

} // verus!
