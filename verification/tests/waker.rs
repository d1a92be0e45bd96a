use ruchei_ffi::waker::{FfiWakerInner, FfiWakers};

const NOOP: FfiWakerInner = FfiWakerInner { wptr: 0, vtable: 1 };
const TASK: FfiWakerInner = FfiWakerInner { wptr: 10, vtable: 2 };
const OTHER: FfiWakerInner = FfiWakerInner { wptr: 20, vtable: 2 };

#[test]
fn repeated_polls_reuse_the_cell() {
    let mut wakers = FfiWakers::new(NOOP);
    let first = wakers.lend(TASK);
    let cell = first.waker();
    assert!(wakers.wake_by_ref(cell) == TASK);
    wakers.take_back(first);
    let second = wakers.lend(OTHER);
    assert_eq!(second.waker(), cell);
    assert!(wakers.wake_by_ref(cell) == OTHER);
    wakers.take_back(second);
}

#[test]
fn a_kept_clone_is_left_alone() {
    let mut wakers = FfiWakers::new(NOOP);
    let lent = wakers.lend(TASK);
    let cell = lent.waker();
    let clone = wakers.clone_waker(cell, true, TASK);
    assert_eq!(clone, cell);
    wakers.take_back(lent);
    let next = wakers.lend(OTHER);
    assert_ne!(next.waker(), clone);
    assert!(wakers.wake_by_ref(clone) == TASK);
    assert!(wakers.wake_by_ref(next.waker()) == OTHER);
    wakers.take_back(next);
    assert!(wakers.wake(clone) == TASK);
}

#[test]
fn a_cell_that_was_given_up_is_used_again() {
    let mut wakers = FfiWakers::new(NOOP);
    let lent = wakers.lend(TASK);
    let first = wakers.clone_waker(lent.waker(), true, TASK);
    wakers.take_back(lent);
    let lent = wakers.lend(OTHER);
    let second = wakers.clone_waker(lent.waker(), true, OTHER);
    wakers.take_back(lent);
    assert_ne!(first, second);
    assert!(wakers.drop_waker(first) == TASK);
    let lent = wakers.lend(TASK);
    assert_eq!(lent.waker(), first);
    assert!(wakers.wake_by_ref(second) == OTHER);
    wakers.take_back(lent);
    assert!(wakers.drop_waker(second) == OTHER);
}

#[test]
fn nested_polls_lend_different_cells() {
    let mut wakers = FfiWakers::new(NOOP);
    let outer = wakers.lend(TASK);
    let inner = wakers.lend(OTHER);
    assert_ne!(outer.waker(), inner.waker());
    assert!(wakers.wake_by_ref(outer.waker()) == TASK);
    assert!(wakers.wake_by_ref(inner.waker()) == OTHER);
    wakers.take_back(inner);
    wakers.take_back(outer);
}

#[test]
fn a_different_clone_becomes_the_threads_own_cell() {
    let mut wakers = FfiWakers::new(NOOP);
    let lent = wakers.lend(TASK);
    let cell = lent.waker();
    let clone = wakers.clone_waker(cell, false, OTHER);
    assert_ne!(clone, cell);
    assert!(wakers.wake_by_ref(clone) == OTHER);
    assert!(wakers.wake_by_ref(cell) == TASK);
    wakers.take_back(lent);
    assert_eq!(wakers.new_waker(TASK), clone);
}

#[test]
fn a_waker_is_held_until_it_is_given_up() {
    let mut wakers = FfiWakers::new(NOOP);
    assert!(wakers.is_live(0));
    assert!(!wakers.is_held(0));
    assert!(!wakers.is_live(7));
    assert!(!wakers.is_held(7));
    let lent = wakers.lend(TASK);
    let cell = lent.waker();
    assert!(wakers.is_held(cell));
    assert!(wakers.can_clone(cell, true));
    assert!(wakers.can_clone(cell, false));
    assert!(!wakers.can_clone(7, true));
    wakers.clone_waker(cell, true, TASK);
    wakers.take_back(lent);
    assert!(wakers.is_held(cell));
    wakers.new_waker(OTHER);
    assert!(wakers.is_held(cell));
    wakers.drop_waker(cell);
    assert!(!wakers.is_live(cell));
    assert!(!wakers.is_held(cell));
    assert!(!wakers.can_clone(cell, true));
}

#[test]
fn a_different_clone_is_not_held() {
    let mut wakers = FfiWakers::new(NOOP);
    let lent = wakers.lend(TASK);
    let clone = wakers.clone_waker(lent.waker(), false, OTHER);
    assert!(wakers.is_live(clone));
    assert!(!wakers.is_held(clone));
    let next = wakers.lend(TASK);
    assert_eq!(next.waker(), clone);
    assert!(wakers.wake_by_ref(clone) == TASK);
    wakers.take_back(next);
    wakers.take_back(lent);
}
