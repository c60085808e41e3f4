//! A model of a generator body as the sequence of suspension points it
//! reaches, and the laws that the resumption protocol gives over it. A body
//! polled by its generator runs to its next suspension point: a `yield`
//! stages a value and then waits until the driver has read it; a wait on an
//! outside event reports pending; the end of the body reports its return value.
//!
//! The model speaks of the decisions that the runtime makes (`resume_spec`,
//! `next_spec` and `suspend_spec`, which `AsyncGen::poll_resume`,
//! `AsyncGen::poll_next` and the poll of `Suspend` follow exactly), composed
//! with a body whose suspension points are given. A real body is a future of
//! the caller's; its suspension points are not known to the proofs, so the
//! laws here hold of the model and are not stated of `AsyncGen` itself.
use vstd::prelude::*;
use std::task::Poll;
use crate::protocol::{item_spec, lemma_next_agrees_with_resume, next_spec, resume_spec, suspend_spec};
use crate::state::{GeneratorState, Return};

verus! {

/// One suspension point of a generator body.
pub enum Op<Y> {
    /// `yield v`: stage `v` and wait until the driver has read it.
    Emit(Y),
    /// Wait on an outside event for one poll. An event that stays unresolved
    /// for `k` polls is `k` of these in a row.
    Wait,
}

/// Where a body stands: how many suspension points it has passed, whether it
/// is suspended at the last of them, and what the shared slot holds.
pub type Stand<Y> = (nat, bool, Option<Y>);

/// A body that has not been polled yet, with an empty slot.
pub open spec fn fresh<Y>() -> Stand<Y> {
    (0, false, None)
}

/// One poll of the body `prog` that ends with `ret`: where it stands after,
/// and what the poll reports.
pub open spec fn body_poll<Y, R>(prog: Seq<Op<Y>>, ret: Return<R>, st: Stand<Y>) -> (Stand<Y>, Poll<
    Return<R>,
>) {
    let (pc, parked, slot) = st;
    if parked && 0 < pc <= prog.len() && prog[pc - 1] is Emit && suspend_spec(None, slot).0 is Pending {
        (st, Poll::Pending)
    } else if pc >= prog.len() {
        ((pc, false, slot), Poll::Ready(ret))
    } else {
        match prog[pc as int] {
            Op::Emit(v) => (((pc + 1) as nat, true, suspend_spec(Some(v), slot).1), Poll::Pending),
            Op::Wait => (((pc + 1) as nat, true, slot), Poll::Pending),
        }
    }
}

/// One resumption of the generator over the body: the body is polled, then
/// the driver decides as `resume_spec` says.
pub open spec fn resume_model<Y, R>(prog: Seq<Op<Y>>, ret: Return<R>, st: Stand<Y>) -> (Stand<Y>, Poll<
    GeneratorState<Y, R>,
>) {
    let (after, polled) = body_poll(prog, ret, st);
    let (r, slot) = resume_spec(polled, after.2);
    ((after.0, after.1, slot), r)
}

/// What `n` resumptions from `st` report, in order.
pub open spec fn resumptions<Y, R>(prog: Seq<Op<Y>>, ret: Return<R>, st: Stand<Y>, n: nat) -> Seq<
    Poll<GeneratorState<Y, R>>,
>
    decreases n,
{
    if n == 0 {
        seq![]
    } else {
        let (next, r) = resume_model(prog, ret, st);
        seq![r] + resumptions(prog, ret, next, (n - 1) as nat)
    }
}

/// One step of draining the generator as an async sequence.
pub open spec fn next_model<Y>(prog: Seq<Op<Y>>, ret: Return<()>, st: Stand<Y>) -> (Stand<Y>, Poll<
    Option<Y>,
>) {
    let (after, polled) = body_poll(prog, ret, st);
    let (r, slot) = next_spec(polled, after.2);
    ((after.0, after.1, slot), r)
}

/// What `n` steps of draining from `st` report, in order.
pub open spec fn items<Y>(prog: Seq<Op<Y>>, ret: Return<()>, st: Stand<Y>, n: nat) -> Seq<Poll<Option<Y>>>
    decreases n,
{
    if n == 0 {
        seq![]
    } else {
        let (next, r) = next_model(prog, ret, st);
        seq![r] + items(prog, ret, next, (n - 1) as nat)
    }
}

/// What the resumption that reaches a suspension point reports.
pub open spec fn report_of<Y, R>(op: Op<Y>) -> Poll<GeneratorState<Y, R>> {
    match op {
        Op::Emit(v) => Poll::Ready(GeneratorState::Yielded(v)),
        Op::Wait => Poll::Pending,
    }
}

/// The body of a generator that drains another one and re-yields each item:
/// an item becomes a `yield`, a pending step a wait, and exhaustion ends it.
pub open spec fn relay<Y>(drained: Seq<Poll<Option<Y>>>) -> Seq<Op<Y>>
    decreases drained.len(),
{
    if drained.len() == 0 {
        seq![]
    } else {
        match drained[0] {
            Poll::Ready(Some(v)) => seq![Op::Emit(v)] + relay(drained.drop_first()),
            Poll::Ready(None) => seq![],
            Poll::Pending => seq![Op::Wait] + relay(drained.drop_first()),
        }
    }
}

proof fn lemma_resumptions_from<Y, R>(prog: Seq<Op<Y>>, ret: Return<R>, k: nat, parked: bool)
    requires
        k <= prog.len(),
    ensures
        resumptions(prog, ret, (k, parked, None), (prog.len() - k + 1) as nat) == prog.subrange(
            k as int,
            prog.len() as int,
        ).map_values(|op: Op<Y>| report_of::<Y, R>(op)) + seq![
            Poll::Ready(GeneratorState::Complete(ret.value())),
        ],
    decreases prog.len() - k,
{
    let n = (prog.len() - k + 1) as nat;
    let tail = prog.subrange(k as int, prog.len() as int).map_values(
        |op: Op<Y>| report_of::<Y, R>(op),
    );
    if k == prog.len() {
        assert(resumptions(prog, ret, (k, false, None), 0) =~= seq![]);
        assert(tail =~= seq![]);
        assert(resumptions(prog, ret, (k, parked, None), n) =~= tail + seq![
            Poll::Ready(GeneratorState::Complete(ret.value())),
        ]);
    } else {
        lemma_resumptions_from(prog, ret, k + 1, true);
        let rest = prog.subrange(k + 1 as int, prog.len() as int).map_values(
            |op: Op<Y>| report_of::<Y, R>(op),
        );
        assert(tail =~= seq![report_of::<Y, R>(prog[k as int])] + rest);
        assert(resumptions(prog, ret, (k, parked, None), n) =~= tail + seq![
            Poll::Ready(GeneratorState::Complete(ret.value())),
        ]);
    }
}

/// Resuming a fresh generator once per suspension point of its body, and once
/// more, reports each point in order (a yielded value, or pending for a wait
/// on an outside event, with the slot left empty) and then the return value.
pub proof fn lemma_resumptions<Y, R>(prog: Seq<Op<Y>>, ret: Return<R>)
    ensures
        resumptions(prog, ret, fresh(), prog.len() + 1) == prog.map_values(
            |op: Op<Y>| report_of::<Y, R>(op),
        ) + seq![Poll::Ready(GeneratorState::Complete(ret.value()))],
{
    lemma_resumptions_from(prog, ret, 0, false);
    assert(prog.subrange(0, prog.len() as int) =~= prog);
}

/// A body of `n` yields of `vals[0]`, ..., `vals[n - 1]` that returns `ret`:
/// `n + 1` resumptions report `Yielded(vals[0])`, ..., `Yielded(vals[n - 1])`
/// and then `Complete` with the return value.
pub proof fn lemma_yields_in_order<Y, R>(vals: Seq<Y>, ret: Return<R>)
    ensures
        resumptions(vals.map_values(|v: Y| Op::Emit(v)), ret, fresh(), vals.len() + 1)
            == vals.map_values(|v: Y| Poll::Ready(GeneratorState::<Y, R>::Yielded(v))) + seq![
            Poll::Ready(GeneratorState::Complete(ret.value())),
        ],
{
    let prog = vals.map_values(|v: Y| Op::Emit(v));
    lemma_resumptions(prog, ret);
    assert(prog.map_values(|op: Op<Y>| report_of::<Y, R>(op)) =~= vals.map_values(
        |v: Y| Poll::Ready(GeneratorState::<Y, R>::Yielded(v)),
    ));
}

/// A body without yields that returns `ret` completes at the first
/// resumption.
pub proof fn lemma_no_yield<Y, R>(ret: Return<R>)
    ensures
        resume_model(Seq::<Op<Y>>::empty(), ret, fresh()).1 == Poll::<GeneratorState<Y, R>>::Ready(
            GeneratorState::Complete(ret.value()),
        ),
{
}

proof fn lemma_items_match<Y>(prog: Seq<Op<Y>>, ret: Return<()>, st: Stand<Y>, n: nat)
    ensures
        items(prog, ret, st, n) == resumptions(prog, ret, st, n).map_values(
            |s: Poll<GeneratorState<Y, ()>>| item_spec(s),
        ),
    decreases n,
{
    if n == 0 {
        assert(items(prog, ret, st, n) =~= resumptions(prog, ret, st, n).map_values(
            |s: Poll<GeneratorState<Y, ()>>| item_spec(s),
        ));
    } else {
        let (after, polled) = body_poll(prog, ret, st);
        lemma_next_agrees_with_resume(polled, after.2);
        let next = resume_model(prog, ret, st).0;
        lemma_items_match(prog, ret, next, (n - 1) as nat);
        assert(items(prog, ret, st, n) =~= resumptions(prog, ret, st, n).map_values(
            |s: Poll<GeneratorState<Y, ()>>| item_spec(s),
        ));
    }
}

/// Draining a generator that returns `()` as an async sequence reports the
/// yielded values of its body in order, a pending step for each wait, and
/// then exhaustion: the item view of resuming it directly.
pub proof fn lemma_drain_matches_resume<Y>(prog: Seq<Op<Y>>, ret: Return<()>)
    ensures
        items(prog, ret, fresh(), prog.len() + 1) == resumptions(
            prog,
            ret,
            fresh(),
            prog.len() + 1,
        ).map_values(|s: Poll<GeneratorState<Y, ()>>| item_spec(s)),
        items(prog, ret, fresh(), prog.len() + 1) == prog.map_values(
            |op: Op<Y>| item_spec(report_of::<Y, ()>(op)),
        ) + seq![Poll::Ready(None)],
{
    lemma_items_match(prog, ret, fresh(), prog.len() + 1);
    lemma_resumptions(prog, ret);
    let reports = prog.map_values(|op: Op<Y>| report_of::<Y, ()>(op));
    assert((reports + seq![Poll::Ready(GeneratorState::Complete(ret.value()))]).map_values(
        |s: Poll<GeneratorState<Y, ()>>| item_spec(s),
    ) =~= prog.map_values(|op: Op<Y>| item_spec(report_of::<Y, ()>(op))) + seq![
        Poll::Ready(None),
    ]);
}

proof fn lemma_relay_inverse<Y>(prog: Seq<Op<Y>>)
    ensures
        relay(prog.map_values(|op: Op<Y>| item_spec(report_of::<Y, ()>(op))) + seq![
            Poll::Ready(None),
        ]) == prog,
    decreases prog.len(),
{
    let drained = prog.map_values(|op: Op<Y>| item_spec(report_of::<Y, ()>(op))) + seq![
        Poll::Ready(None),
    ];
    if prog.len() == 0 {
        assert(drained[0] == Poll::<Option<Y>>::Ready(None));
        assert(relay(drained) =~= prog);
    } else {
        lemma_relay_inverse(prog.drop_first());
        assert(drained.drop_first() =~= prog.drop_first().map_values(
            |op: Op<Y>| item_spec(report_of::<Y, ()>(op)),
        ) + seq![Poll::Ready(None)]);
        assert(relay(drained) =~= prog);
    }
}

/// A generator whose body drains an inner generator to exhaustion and
/// re-yields each item has the inner body's suspension points, so it yields
/// the inner generator's values unchanged and in order before it completes.
pub proof fn lemma_nested_relay<Y, R>(inner: Seq<Op<Y>>, inner_ret: Return<()>, ret: Return<R>)
    ensures
        relay(items(inner, inner_ret, fresh(), inner.len() + 1)) == inner,
        resumptions(
            relay(items(inner, inner_ret, fresh(), inner.len() + 1)),
            ret,
            fresh(),
            inner.len() + 1,
        ) == inner.map_values(|op: Op<Y>| report_of::<Y, R>(op)) + seq![
            Poll::Ready(GeneratorState::Complete(ret.value())),
        ],
{
    lemma_drain_matches_resume(inner, inner_ret);
    lemma_relay_inverse(inner);
    lemma_resumptions(inner, ret);
}

} // verus!
