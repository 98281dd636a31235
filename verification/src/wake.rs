//! The native wake capability and the context it comes from.
//!
//! Nothing in this crate signals a capability. An operation that calls for
//! a signal returns the capability to signal, and the caller signals it.
use vstd::prelude::*;
use std::task::{Context, Waker};

verus! {

/// The context that a task is polled in. The type is opaque here: it only
/// hands out the wake capability of the task.
#[verifier::external_type_specification]
#[verifier::external_body]
pub struct ExContext<'a>(Context<'a>);

/// The wake capability of the task that is polled in `context`: what
/// `Context::waker` returns.
pub uninterp spec fn task_capability(context: &Context<'_>) -> Waker;

/// The second handle to the wake capability `waker` that `Waker::clone`
/// makes. It signals the same task as `waker` does.
pub uninterp spec fn cloned_capability(waker: Waker) -> Waker;

/// A second handle to the wake capability `waker`. Wraps `Waker::clone`;
/// the result is spoken of as [`cloned_capability`] of the argument.
#[verifier::external_body]
pub(crate) fn clone_waker(waker: &Waker) -> (r: Waker)
    ensures
        r == cloned_capability(*waker),
{
    waker.clone()
}

/// The wake capability of the task that is polled in `context`. Wraps
/// `Context::waker`; the result is spoken of as [`task_capability`] of the
/// argument.
#[verifier::external_body]
pub(crate) fn context_waker<'a>(context: &'a Context<'_>) -> (r: &'a Waker)
    ensures
        *r == task_capability(context),
{
    context.waker()
}

} // verus!
