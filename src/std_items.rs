//! Declarations of the std items that the runtime uses and that vstd leaves
//! without a specification.
use vstd::prelude::*;

verus! {

/// `std::task::Poll`, with its two public variants visible to proofs.
#[verifier::external_type_specification]
#[verifier::reject_recursive_types(T)]
pub struct ExPoll<T>(std::task::Poll<T>);

/// `std::task::Context`, carried through to the body's poll.
#[verifier::external_type_specification]
#[verifier::external_body]
pub struct ExContext<'a>(std::task::Context<'a>);

/// `std::pin::Pin`, which holds the boxed body and the receiver of `Future::poll`.
#[verifier::external_type_specification]
#[verifier::external_body]
#[verifier::reject_recursive_types(Ptr)]
pub struct ExPin<Ptr>(std::pin::Pin<Ptr>);

/// `std::cell::Cell`, the shared slot between a body and its driver.
#[verifier::external_type_specification]
#[verifier::external_body]
#[verifier::reject_recursive_types(T)]
pub struct ExCell<T: ?Sized>(std::cell::Cell<T>);

/// Relies on `Cell::new` to make the slot; it never panics.
pub assume_specification<T>[ std::cell::Cell::<T>::new ](value: T) -> std::cell::Cell<T>;

/// Relies on `Box::pin` to pin the body on the heap.
pub assume_specification<T>[ std::boxed::Box::<T>::pin ](x: T) -> std::pin::Pin<Box<T>>;

/// Relies on `Pin`'s `Deref` to read the fields of a pinned `Suspend`.
pub assume_specification<Ptr: std::ops::Deref>[ <std::pin::Pin<Ptr> as std::ops::Deref>::deref ](
    p: &std::pin::Pin<Ptr>,
) -> &<Ptr as std::ops::Deref>::Target;

/// Relies on `Cell::replace`: stores `value` and hands back what the cell held.
/// The cell is shared by the body and the driver, so what it held is not
/// known here.
#[verifier::external_body]
pub(crate) fn slot_replace<Y>(cell: &std::cell::Cell<Option<Y>>, value: Option<Y>) -> Option<Y> {
    cell.replace(value)
}

} // verus!
