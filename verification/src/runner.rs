use vstd::prelude::*;
use core::pin::Pin;

verus! {

/// `core::pin::Pin`, declared so pinned boxes can be carried through;
/// nothing about a value of it is assumed.
#[verifier::external_type_specification]
#[verifier::external_body]
#[verifier::reject_recursive_types(Ptr)]
pub struct ExPin<Ptr>(Pin<Ptr>);

/// An owned, pinned task — the shape in which the engine driver's loop is
/// handed to whatever executor the caller runs. The pinned box is public so
/// the surrounding program can poll it.
#[verifier::reject_recursive_types(F)]
pub struct BoxFuture<F>(pub Pin<Box<F>>);

impl<F> BoxFuture<F> {
    /// Relies on std's `Box::new` and `Box::into_pin`: boxes the task and
    /// pins it on the heap.
    #[verifier::external_body]
    pub fn new(f: F) -> (r: BoxFuture<F>) {
        BoxFuture(Box::into_pin(Box::new(f)))
    }

    /// Wraps a task someone else already boxed and pinned.
    pub fn wrap(f: Pin<Box<F>>) -> (r: BoxFuture<F>)
        ensures
            r.0 == f,
    {
        BoxFuture(f)
    }
}

/// The engine driver's top-level task, in the box the caller schedules.
pub type Runner<F> = BoxFuture<F>;

} // verus!
