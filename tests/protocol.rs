use async_gen::protocol::{item_of, next_step, resume_step, suspend_step};
use async_gen::{gen, GeneratorState, Return, Yield};
use std::task::{Context, Poll, Waker};

fn ret<R>(v: R) -> Return<R> {
    Return::new(v)
}

#[test]
fn resume_reports_completion_first() {
    let mut slot = Some(5);
    let r = resume_step(Poll::Ready(ret("end")), &mut slot);
    assert_eq!(r, Poll::Ready(GeneratorState::Complete("end")));
    assert_eq!(slot, Some(5));
}

#[test]
fn resume_drains_staged_value() {
    let mut slot = Some(5);
    let r = resume_step::<i32, ()>(Poll::Pending, &mut slot);
    assert_eq!(r, Poll::Ready(GeneratorState::Yielded(5)));
    assert_eq!(slot, None);
}

#[test]
fn resume_pending_on_empty_slot() {
    let mut slot: Option<i32> = None;
    let r = resume_step::<i32, ()>(Poll::Pending, &mut slot);
    assert_eq!(r, Poll::Pending);
    assert_eq!(slot, None);
}

#[test]
fn next_step_matches_resume() {
    let mut slot = Some('x');
    assert_eq!(next_step(Poll::Pending, &mut slot), Poll::Ready(Some('x')));
    assert_eq!(slot, None);
    assert_eq!(next_step::<char>(Poll::Pending, &mut slot), Poll::Pending);
    let mut slot = Some('y');
    assert_eq!(next_step(Poll::Ready(ret(())), &mut slot), Poll::Ready(None));
    assert_eq!(slot, Some('y'));
}

#[test]
fn item_view_of_states() {
    assert_eq!(item_of(Poll::Ready(GeneratorState::Yielded(3))), Poll::Ready(Some(3)));
    assert_eq!(item_of::<i32>(Poll::Ready(GeneratorState::Complete(()))), Poll::Ready(None));
    assert_eq!(item_of::<i32>(Poll::Pending), Poll::Pending);
}

#[test]
fn yield_stages_then_waits() {
    let mut slot = None;
    assert_eq!(suspend_step(Some(1), &mut slot), Poll::Pending);
    assert_eq!(slot, Some(1));
    assert_eq!(suspend_step(None, &mut slot), Poll::Pending);
    assert_eq!(slot, Some(1));
    slot = None;
    assert_eq!(suspend_step::<i32>(None, &mut slot), Poll::Ready(()));
    assert_eq!(slot, None);
}

#[test]
fn return_carries_value() {
    let mut cx = Context::from_waker(Waker::noop());
    let mut g = gen(|y: Yield| async move { y.return_(17u8) });
    assert_eq!(g.poll_resume(&mut cx), Poll::Ready(GeneratorState::Complete(17u8)));
}
