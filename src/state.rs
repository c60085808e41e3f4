//! The values that a resumption reports, and the value that ends a body.
use vstd::prelude::*;

verus! {

/// What one resumption of a generator reports.
#[derive(Clone, Copy, PartialEq, Eq, PartialOrd, Ord, Debug, Hash)]
pub enum GeneratorState<Y, R> {
    /// The body staged a value and is suspended until the next resumption.
    Yielded(Y),
    /// The body finished with this return value; the generator is done.
    Complete(R),
}

/// The final value of a generator body, made by `Yield::return_`.
pub struct Return<T = ()>(T);

impl<T> Return<T> {
    /// The value carried.
    pub closed spec fn value(&self) -> T {
        self.0
    }

    /// Wraps `value` as the final value of a body.
    pub fn new(value: T) -> (r: Self)
        ensures
            r.value() == value,
    {
        Return(value)
    }

    /// Takes out the value carried.
    pub fn into_inner(self) -> (r: T)
        ensures
            r == self.value(),
    {
        self.0
    }
}

} // verus!
