//! The handshake between a generator body and its driver, over the one-value
//! slot they share. Each step here is a decision on plain values: what the
//! poll of the body reported and what the slot holds.
use vstd::prelude::*;
use std::task::Poll;
use crate::state::{GeneratorState, Return};

verus! {

/// One resumption: what it reports and what the slot holds afterwards, given
/// what the poll of the body reported and what the slot held then. A finished
/// body wins; otherwise a staged value is drained and reported; otherwise the
/// body waits on something else and the resumption is pending.
pub open spec fn resume_spec<Y, R>(polled: Poll<Return<R>>, slot: Option<Y>) -> (Poll<
    GeneratorState<Y, R>,
>, Option<Y>) {
    match polled {
        Poll::Ready(ret) => (Poll::Ready(GeneratorState::Complete(ret.value())), slot),
        Poll::Pending => match slot {
            Some(v) => (Poll::Ready(GeneratorState::Yielded(v)), None),
            None => (Poll::Pending, None),
        },
    }
}

/// The async-sequence view of a resumption of a generator that returns `()`:
/// a yielded value is the next item, completion is exhaustion.
pub open spec fn item_spec<Y>(state: Poll<GeneratorState<Y, ()>>) -> Poll<Option<Y>> {
    match state {
        Poll::Ready(GeneratorState::Yielded(v)) => Poll::Ready(Some(v)),
        Poll::Ready(GeneratorState::Complete(_)) => Poll::Ready(None),
        Poll::Pending => Poll::Pending,
    }
}

/// One step of draining a generator that returns `()` as an async sequence.
pub open spec fn next_spec<Y>(polled: Poll<Return<()>>, slot: Option<Y>) -> (Poll<Option<Y>>, Option<Y>) {
    match polled {
        Poll::Ready(_) => (Poll::Ready(None), slot),
        Poll::Pending => match slot {
            Some(v) => (Poll::Ready(Some(v)), None),
            None => (Poll::Pending, None),
        },
    }
}

/// The wait that follows a staged value: pending while the value is unread.
pub open spec fn wait_spec<Y>(slot: Option<Y>) -> Poll<()> {
    match slot {
        Some(_) => Poll::Pending,
        None => Poll::Ready(()),
    }
}

/// Decides one resumption from the poll of the body and the slot.
pub fn resume_step<Y, R>(polled: Poll<Return<R>>, slot: &mut Option<Y>) -> (r: Poll<
    GeneratorState<Y, R>,
>)
    ensures
        (r, *final(slot)) == resume_spec(polled, *old(slot)),
{
    match polled {
        Poll::Ready(ret) => Poll::Ready(GeneratorState::Complete(ret.into_inner())),
        Poll::Pending => match slot.take() {
            Some(v) => Poll::Ready(GeneratorState::Yielded(v)),
            None => Poll::Pending,
        },
    }
}

/// Turns the report of a resumption into the next item of an async sequence.
pub fn item_of<Y>(state: Poll<GeneratorState<Y, ()>>) -> (r: Poll<Option<Y>>)
    ensures
        r == item_spec(state),
{
    match state {
        Poll::Ready(GeneratorState::Yielded(v)) => Poll::Ready(Some(v)),
        Poll::Ready(GeneratorState::Complete(_)) => Poll::Ready(None),
        Poll::Pending => Poll::Pending,
    }
}

/// Decides one step of draining a generator that returns `()`.
pub fn next_step<Y>(polled: Poll<Return<()>>, slot: &mut Option<Y>) -> (r: Poll<Option<Y>>)
    ensures
        (r, *final(slot)) == next_spec(polled, *old(slot)),
{
    match polled {
        Poll::Ready(_) => Poll::Ready(None),
        Poll::Pending => match slot.take() {
            Some(v) => Poll::Ready(Some(v)),
            None => Poll::Pending,
        },
    }
}

/// One poll of a yield: a value not yet staged is put in the slot, then the
/// yield waits while the slot holds a value.
pub open spec fn suspend_spec<Y>(unstaged: Option<Y>, slot: Option<Y>) -> (Poll<()>, Option<Y>) {
    let after = match unstaged {
        Some(v) => Some(v),
        None => slot,
    };
    (wait_spec(after), after)
}

/// Decides one poll of a yield from the value it has still to stage and the
/// slot.
pub fn suspend_step<Y>(unstaged: Option<Y>, slot: &mut Option<Y>) -> (r: Poll<()>)
    ensures
        (r, *final(slot)) == suspend_spec(unstaged, *old(slot)),
{
    if let Some(v) = unstaged {
        *slot = Some(v);
    }
    match slot {
        Some(_) => Poll::Pending,
        None => Poll::Ready(()),
    }
}

/// Draining a generator as an async sequence agrees with resuming it: each
/// step reports the item view of what the resumption reports, and leaves the
/// slot as the resumption does.
pub proof fn lemma_next_agrees_with_resume<Y>(polled: Poll<Return<()>>, slot: Option<Y>)
    ensures
        next_spec(polled, slot) == (
            item_spec(resume_spec(polled, slot).0),
            resume_spec(polled, slot).1,
        ),
{
}

} // verus!
