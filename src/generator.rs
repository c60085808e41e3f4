//! The generator runtime: the producer handle that a body yields through, the
//! generator that drives the body, and the async-sequence adapter.
use vstd::prelude::*;
use std::cell::Cell;
use std::future::Future;
use std::pin::Pin;
use std::rc::Rc;
use std::task::{Context, Poll};
use crate::protocol::{item_of, next_step, resume_step, suspend_step};
use crate::state::{GeneratorState, Return};
use crate::std_items::slot_replace;

verus! {

/// Generators whose body runs as a future and is advanced one resumption at a
/// time.
pub trait AsyncGenerator {
    /// The type of the values the generator yields.
    type Yield;

    /// The type of the value the generator returns when it finishes.
    type Return;

    /// Whether a resumption has reported `Complete`.
    spec fn is_done(&self) -> bool;

    /// Whether a resumption has reported `Complete`.
    fn is_complete(&self) -> (r: bool)
        ensures
            r == self.is_done(),
    ;

    /// Advances the generator by one step: `Ready(Yielded(v))` when the body
    /// staged `v`, `Ready(Complete(r))` when it finished with `r`, `Pending`
    /// when it waits on something else. Once `Complete` has been reported,
    /// the generator stays done and every further resumption is `Pending`.
    fn poll_resume(&mut self, cx: &mut Context<'_>) -> (r: Poll<
        GeneratorState<Self::Yield, Self::Return>,
    >)
        ensures
            old(self).is_done() ==> r is Pending && final(self).is_done(),
            final(self).is_done() == (old(self).is_done() || r matches Poll::Ready(
                GeneratorState::Complete(_),
            )),
    ;
}

/// The producer handle that a generator body yields through. It shares the
/// one-value slot with the generator that drives the body.
#[verifier::reject_recursive_types(Y)]
pub struct Yield<Y = ()> {
    inner: Rc<Cell<Option<Y>>>,
}

/// The wait that a yield makes: its first poll stages the value in the slot,
/// and it stays pending until the driver has read it. It borrows the handle,
/// so a body has at most one yield under way at a time.
#[verifier::reject_recursive_types(Y)]
pub struct Suspend<'a, Y> {
    handle: &'a Yield<Y>,
    value: Cell<Option<Y>>,
    staged: Ghost<Y>,
}

impl<'a, Y> Suspend<'a, Y> {
    /// The value that this yield stages.
    pub closed spec fn staged(&self) -> Y {
        self.staged@
    }
}

impl<Y> Yield<Y> {
    /// Yields `val`: awaiting the result stages `val` for the driver and
    /// suspends the body until the driver has read it.
    pub fn yield_(&mut self, val: Y) -> (r: Suspend<'_, Y>)
        ensures
            r.staged() == val,
    {
        let ghost v = val;
        Suspend { handle: self, value: Cell::new(Some(val)), staged: Ghost(v) }
    }

    /// Ends the body with `v` as the generator's return value.
    pub fn return_<R>(self, v: R) -> (r: Return<R>)
        ensures
            r.value() == v,
    {
        Return::new(v)
    }
}

impl<'a, Y> Future for Suspend<'a, Y> {
    type Output = ();

    fn poll(self: Pin<&mut Self>, cx: &mut Context<'_>) -> Poll<()> {
        let unstaged = slot_replace(&self.value, None);
        let mut slot = slot_replace(&self.handle.inner, None);
        let r = suspend_step(unstaged, &mut slot);
        let _ = slot_replace(&self.handle.inner, slot);
        r
    }
}

/// An asynchronous generator: a body future and the slot it yields through.
/// Made by `gen`. Once the body has finished, it is not polled again: further
/// resumptions stay pending and the async-sequence view stays exhausted.
#[verifier::reject_recursive_types(Y)]
#[verifier::reject_recursive_types(Fut)]
pub struct AsyncGen<Fut, Y> {
    inner: Rc<Cell<Option<Y>>>,
    fut: Pin<Box<Fut>>,
    done: bool,
    body: Ghost<Box<Fut>>,
    polls: Ghost<nat>,
}

impl<Fut, Y> AsyncGen<Fut, Y> {
    /// Whether the body has finished.
    pub closed spec fn is_done(&self) -> bool {
        self.done
    }

    /// The body future, as the factory given to `gen` returned it.
    pub closed spec fn body(&self) -> Fut {
        *self.body@
    }

    /// How many times the body has been polled.
    pub closed spec fn polls(&self) -> nat {
        self.polls@
    }

    /// Whether the body has finished.
    pub fn is_complete(&self) -> (r: bool)
        ensures
            r == self.is_done(),
    {
        self.done
    }
}

impl<Fut: Future, Y> AsyncGen<Fut, Y> {
    /// Relies on `Future::poll` of the boxed body (reached through
    /// `Pin::as_mut`): what it reports depends on the body and on the events
    /// it waits for, so nothing is promised of it. A body that has finished
    /// may panic when polled again, so it is polled only before that.
    #[verifier::external_body]
    fn poll_body(&mut self, cx: &mut Context<'_>) -> (r: Poll<Fut::Output>)
        requires
            !old(self).is_done(),
        ensures
            final(self).is_done() == old(self).is_done(),
            final(self).body() == old(self).body(),
            final(self).polls() == old(self).polls(),
    {
        self.fut.as_mut().poll(cx)
    }
}

impl<Fut: Future<Output = Return<R>>, Y, R> AsyncGen<Fut, Y> {
    /// Advances the generator by one step, as `AsyncGenerator::poll_resume`:
    /// the body is polled once with `cx`, and `resume_step` decides from what
    /// it reported and what the slot holds. After `Complete` the body is left
    /// alone and the result is `Pending`.
    pub fn poll_resume(&mut self, cx: &mut Context<'_>) -> (r: Poll<GeneratorState<Y, R>>)
        ensures
            old(self).is_done() ==> r is Pending && final(self).is_done(),
            final(self).is_done() == (old(self).is_done() || r matches Poll::Ready(
                GeneratorState::Complete(_),
            )),
            final(self).polls() == old(self).polls() + if old(self).is_done() {
                0nat
            } else {
                1nat
            },
            final(self).body() == old(self).body(),
    {
        if self.done {
            return Poll::Pending;
        }
        let polled = self.poll_body(cx);
        self.polls = Ghost(self.polls@ + 1);
        let mut staged = slot_replace(&self.inner, None);
        let r = resume_step(polled, &mut staged);
        let _ = slot_replace(&self.inner, staged);
        if let Poll::Ready(GeneratorState::Complete(_)) = &r {
            self.done = true;
        }
        r
    }
}

impl<Fut: Future<Output = Return<()>>, Y> AsyncGen<Fut, Y> {
    /// Wraps this generator as an async sequence of its yielded values.
    pub fn into_async_iter(self) -> (r: AsyncIter<Self>)
        ensures
            r.generator() == self,
    {
        AsyncIter { gen: self }
    }

    /// Pulls the next yielded value; `Ready(None)` once the body has
    /// finished, and from then on without polling it again.
    pub fn poll_next(&mut self, cx: &mut Context<'_>) -> (r: Poll<Option<Y>>)
        ensures
            old(self).is_done() ==> r == Poll::<Option<Y>>::Ready(None),
            final(self).is_done() == (old(self).is_done() || r == Poll::<Option<Y>>::Ready(None)),
            final(self).polls() == old(self).polls() + if old(self).is_done() {
                0nat
            } else {
                1nat
            },
            final(self).body() == old(self).body(),
    {
        if self.done {
            return Poll::Ready(None);
        }
        let polled = self.poll_body(cx);
        self.polls = Ghost(self.polls@ + 1);
        let mut staged = slot_replace(&self.inner, None);
        let r = next_step(polled, &mut staged);
        let _ = slot_replace(&self.inner, staged);
        if let Poll::Ready(None) = &r {
            self.done = true;
        }
        r
    }
}

impl<Fut: Future<Output = Return<R>>, Y, R> AsyncGenerator for AsyncGen<Fut, Y> {
    type Yield = Y;

    type Return = R;

    closed spec fn is_done(&self) -> bool {
        self.done
    }

    fn is_complete(&self) -> (r: bool) {
        self.done
    }

    fn poll_resume(&mut self, cx: &mut Context<'_>) -> (r: Poll<GeneratorState<Y, R>>) {
        AsyncGen::poll_resume(self, cx)
    }
}

/// An async sequence over the values that a generator returning `()` yields.
pub struct AsyncIter<G> {
    gen: G,
}

impl<G> AsyncIter<G> {
    /// The generator that this sequence drains.
    pub closed spec fn generator(&self) -> G {
        self.gen
    }
}

impl<G> From<G> for AsyncIter<G> {
    fn from(gen: G) -> (r: Self)
        ensures
            r.generator() == gen,
    {
        AsyncIter { gen }
    }
}

impl<G> vstd::std_specs::convert::FromSpecImpl<G> for AsyncIter<G> {
    open spec fn obeys_from_spec() -> bool {
        true
    }

    closed spec fn from_spec(v: G) -> Self {
        AsyncIter { gen: v }
    }
}

impl<G: AsyncGenerator<Return = ()>> AsyncIter<G> {
    /// Pulls the next value: `Ready(Some(v))` for a yielded value,
    /// `Ready(None)` once the generator has completed, `Pending` while it
    /// waits on something else. Once exhausted it keeps reporting
    /// `Ready(None)` without resuming the generator.
    pub fn poll_next(&mut self, cx: &mut Context<'_>) -> (r: Poll<Option<G::Yield>>)
        ensures
            old(self).generator().is_done() ==> r == Poll::<Option<G::Yield>>::Ready(None),
            final(self).generator().is_done() == (old(self).generator().is_done() || r
                == Poll::<Option<G::Yield>>::Ready(None)),
    {
        if self.gen.is_complete() {
            return Poll::Ready(None);
        }
        let state = self.gen.poll_resume(cx);
        item_of(state)
    }
}

/// Makes a generator: `factory` receives the producer handle and returns the
/// body future, which ends with `Yield::return_`. The body is not polled
/// here: nothing of it runs before the first resumption.
pub fn gen<Fut, Y, R, F: FnOnce(Yield<Y>) -> Fut>(factory: F) -> (r: AsyncGen<Fut, Y>) where
    Fut: Future<Output = Return<R>>,

    requires
        forall|y: Yield<Y>| factory.requires((y,)),
    ensures
        !r.is_done(),
        r.polls() == 0,
        exists|y: Yield<Y>| factory.ensures((y,), r.body()),
{
    let inner = Rc::new(Cell::new(None));
    let handle = Yield { inner: inner.clone() };
    let ghost h = handle;
    let fut = factory(handle);
    let ghost f = fut;
    let r = AsyncGen { inner, fut: Box::pin(fut), done: false, body: Ghost(Box::new(f)), polls: Ghost(0) };
    assert(factory.ensures((h,), r.body()));
    r
}

} // verus!
