//! Counted wakers that stand in for task wakers on the far side of the boundary.
//!
//! A waker that is lent over the boundary refers to a counted cell, which holds what
//! the waker forwards to. A thread keeps one cell for itself and writes the next waker
//! into the same cell as long as nobody else refers to it, so that most polls allocate
//! nothing and repeated polls with one waker lend equal wakers.

use vstd::multiset::Multiset;
use vstd::prelude::*;

verus! {

/// What a waker forwards to: the addresses of its data and of its function table.
#[derive(Clone, Copy, PartialEq, Eq, Structural)]
pub struct FfiWakerInner {
    pub wptr: usize,
    pub vtable: usize,
}

struct WakerCell {
    inner: FfiWakerInner,
    strong: usize,
}

/// The waker that a poll on the far side is given. It is borrowed: the far side may
/// clone it, but neither wakes nor drops it by value.
pub struct FfiContext {
    waker: usize,
}

impl FfiContext {
    /// The cell that is lent.
    pub closed spec fn cell(self) -> usize {
        self.waker
    }

    fn new(waker: usize) -> (cx: Self)
        ensures
            cx.cell() == waker,
    {
        FfiContext { waker }
    }

    /// The cell that is lent.
    pub fn waker(&self) -> (cell: usize)
        ensures
            cell == self.cell(),
    {
        self.waker
    }
}

/// The waker cells of one thread. A cell whose count is zero is free.
pub struct FfiWakers {
    cells: Vec<WakerCell>,
    current: usize,
}

impl FfiWakers {
    /// The thread's own cell is among the cells, and counts the thread's reference to it.
    pub closed spec fn wf(self) -> bool {
        &&& self.current < self.cells@.len()
        &&& self.cells@[self.current as int].strong >= 1
    }

    /// The number of references to a cell.
    pub closed spec fn strong(self, cell: usize) -> nat {
        if cell < self.cells@.len() {
            self.cells@[cell as int].strong as nat
        } else {
            0
        }
    }

    /// What a cell forwards to.
    pub closed spec fn inner(self, cell: usize) -> FfiWakerInner {
        self.cells@[cell as int].inner
    }

    /// The cell that the thread keeps for itself.
    pub closed spec fn current(self) -> usize {
        self.current
    }

    /// Every cell but `cell` has the same count, and forwards to the same where it is
    /// in use.
    pub open spec fn same_but(self, other: Self, cell: usize) -> bool {
        forall|i: usize|
            i != cell ==> {
                &&& #[trigger] self.strong(i) == other.strong(i)
                &&& self.strong(i) > 0 ==> self.inner(i) == other.inner(i)
            }
    }

    /// `after` is what `self` becomes when the thread's own cell is made to forward to
    /// `inner`, with a count of `strong`: the cell itself is overwritten where the thread
    /// holds the only reference, else the thread leaves it for a free cell.
    pub open spec fn renewed(self, after: Self, inner: FfiWakerInner, strong: nat) -> bool {
        &&& after.wf()
        &&& after.inner(after.current()) == inner
        &&& after.strong(after.current()) == strong
        &&& if self.strong(self.current()) == 1 {
            &&& after.current() == self.current()
            &&& self.same_but(after, self.current())
        } else {
            &&& self.strong(after.current()) == 0
            &&& after.strong(self.current()) == self.strong(self.current()) - 1
            &&& after.inner(self.current()) == self.inner(self.current())
            &&& forall|i: usize|
                i != self.current() && i != after.current() ==> {
                    &&& #[trigger] self.strong(i) == after.strong(i)
                    &&& self.strong(i) > 0 ==> self.inner(i) == after.inner(i)
                }
        }
    }

    /// `after` is `self` with one more reference to a cell.
    pub open spec fn retained(self, after: Self, cell: usize) -> bool {
        &&& after.wf()
        &&& after.current() == self.current()
        &&& after.strong(cell) == self.strong(cell) + 1
        &&& after.inner(cell) == self.inner(cell)
        &&& self.same_but(after, cell)
    }

    /// `after` is `self` with one reference less to a cell.
    pub open spec fn released(self, after: Self, cell: usize) -> bool {
        &&& after.wf()
        &&& after.current() == self.current()
        &&& after.strong(cell) == self.strong(cell) - 1
        &&& after.inner(cell) == self.inner(cell)
        &&& self.same_but(after, cell)
    }

    /// `cell` is referred to by somebody other than the thread that owns the cells.
    pub open spec fn held(self, cell: usize) -> bool {
        self.strong(cell) > self.own(cell)
    }

    /// The thread's own references to a cell: one to the cell that it keeps.
    pub open spec fn own(self, cell: usize) -> nat {
        if cell == self.current() {
            1
        } else {
            0
        }
    }

    /// The counts are right: a cell is counted once for each waker in `wakers` that
    /// refers to it, and the thread's own cell once more.
    pub open spec fn counts(self, wakers: Multiset<usize>) -> bool {
        forall|cell: usize| #[trigger]
            self.strong(cell) == wakers.count(cell) + self.own(cell)
    }

    /// The cells of a thread that has lent no waker yet; its own cell forwards to `noop`.
    pub fn new(noop: FfiWakerInner) -> (wakers: Self)
        ensures
            wakers.wf(),
            wakers.counts(Multiset::empty()),
            wakers.inner(wakers.current()) == noop,
    {
        let mut cells: Vec<WakerCell> = Vec::new();
        cells.push(WakerCell { inner: noop, strong: 1 });
        FfiWakers { cells, current: 0 }
    }

    /// Whether a cell is referred to by somebody other than the thread that owns the cells.
    pub fn is_held(&self, cell: usize) -> (result: bool)
        requires
            self.wf(),
        ensures
            result == self.held(cell),
    {
        if cell >= self.cells.len() {
            false
        } else if cell == self.current {
            self.cells[cell].strong > 1
        } else {
            self.cells[cell].strong > 0
        }
    }

    /// Whether a cell is in use.
    pub fn is_live(&self, cell: usize) -> (result: bool)
        ensures
            result == (self.strong(cell) > 0),
    {
        cell < self.cells.len() && self.cells[cell].strong > 0
    }

    /// Whether a waker can be cloned, where `same` tells whether the clone of the waker
    /// behind it is the same.
    pub fn can_clone(&self, waker: usize, same: bool) -> (result: bool)
        ensures
            result == (self.strong(waker) > 0 && (same ==> self.strong(waker) < usize::MAX)),
    {
        self.is_live(waker) && (!same || self.cells[waker].strong < usize::MAX)
    }

    /// The first free cell, or the number of cells where none is free.
    fn free_cell(&self) -> (cell: usize)
        ensures
            cell <= self.cells@.len(),
            self.strong(cell) == 0,
    {
        let mut cell: usize = 0;
        while cell < self.cells.len()
            invariant
                cell <= self.cells@.len(),
            ensures
                cell <= self.cells@.len(),
                self.strong(cell) == 0,
            decreases self.cells@.len() - cell,
        {
            if self.cells[cell].strong == 0 {
                break;
            }
            cell = cell + 1;
        }
        cell
    }

    fn set_strong(&mut self, cell: usize, strong: usize)
        requires
            old(self).wf(),
            cell < old(self).cells@.len(),
        ensures
            final(self).cells@ == old(self).cells@.update(
                cell as int,
                (WakerCell { inner: old(self).cells@[cell as int].inner, strong }),
            ),
            final(self).current == old(self).current,
    {
        let inner = self.cells[cell].inner;
        self.cells.set(cell, WakerCell { inner, strong });
    }

    /// Makes the thread's own cell forward to `inner`. Its number is returned, without
    /// a reference of its own.
    pub fn new_waker(&mut self, inner: FfiWakerInner) -> (cell: usize)
        requires
            old(self).wf(),
        ensures
            old(self).renewed(*final(self), inner, 1),
            cell == final(self).current(),
    {
        let current: usize = self.current;
        let strong: usize = self.cells[current].strong;
        if strong == 1 {
            self.cells.set(current, WakerCell { inner, strong: 1 });
        } else {
            let cell: usize = self.free_cell();
            self.set_strong(current, strong - 1);
            let renewed = WakerCell { inner, strong: 1 };
            if cell < self.cells.len() {
                self.cells.set(cell, renewed);
            } else {
                self.cells.push(renewed);
            }
            self.current = cell;
        }
        self.current
    }

    /// Lends a waker for the time of one poll.
    pub fn lend(&mut self, inner: FfiWakerInner) -> (cx: FfiContext)
        requires
            old(self).wf(),
        ensures
            old(self).renewed(*final(self), inner, 2),
            cx.cell() == final(self).current(),
    {
        let cell: usize = self.new_waker(inner);
        self.set_strong(cell, 2);
        FfiContext::new(cell)
    }

    /// Takes back the waker that was lent for a poll.
    pub fn take_back(&mut self, cx: FfiContext)
        requires
            old(self).wf(),
            old(self).held(cx.cell()),
        ensures
            old(self).released(*final(self), cx.cell()),
    {
        self.release(cx.waker);
    }

    fn release(&mut self, cell: usize)
        requires
            old(self).wf(),
            old(self).held(cell),
        ensures
            old(self).released(*final(self), cell),
    {
        let strong: usize = self.cells[cell].strong;
        self.set_strong(cell, strong - 1);
    }

    /// Clones a waker, given what the clone of the waker behind it forwards to, and
    /// whether that clone wakes the same task by the same means. If so the clone is one
    /// more reference to the cell; otherwise it is the thread's own cell, which is
    /// made to forward to the clone and gets no further reference.
    pub fn clone_waker(&mut self, waker: usize, same: bool, cloned: FfiWakerInner) -> (cell: usize)
        requires
            old(self).wf(),
            old(self).strong(waker) > 0,
            same ==> old(self).strong(waker) < usize::MAX,
        ensures
            same ==> cell == waker && old(self).retained(*final(self), waker),
            !same ==> cell == final(self).current() && old(self).renewed(
                *final(self),
                cloned,
                1,
            ),
    {
        if same {
            let strong: usize = self.cells[waker].strong;
            self.set_strong(waker, strong + 1);
            waker
        } else {
            self.new_waker(cloned)
        }
    }

    /// Wakes by value: tells what to wake, and gives the reference up.
    pub fn wake(&mut self, waker: usize) -> (target: FfiWakerInner)
        requires
            old(self).wf(),
            old(self).held(waker),
        ensures
            target == old(self).inner(waker),
            old(self).released(*final(self), waker),
    {
        let target = self.cells[waker].inner;
        self.release(waker);
        target
    }

    /// Wakes by reference: tells what to wake, and keeps the reference.
    pub fn wake_by_ref(&self, waker: usize) -> (target: FfiWakerInner)
        requires
            self.wf(),
            self.strong(waker) > 0,
        ensures
            target == self.inner(waker),
    {
        self.cells[waker].inner
    }

    /// Drops a waker: tells what to drop along with it, and gives the reference up.
    pub fn drop_waker(&mut self, waker: usize) -> (target: FfiWakerInner)
        requires
            old(self).wf(),
            old(self).held(waker),
        ensures
            target == old(self).inner(waker),
            old(self).released(*final(self), waker),
    {
        let target = self.cells[waker].inner;
        self.release(waker);
        target
    }
}

/// Making the thread's own cell forward to another waker makes it forward to that waker,
/// whichever cell it then is, leaves alone what a waker that is still held forwards to, and keeps the counts right: a count of one stands for the
/// thread alone, a count of two for the waker that is lent along with it.
pub proof fn renewal_leaves_held_wakers_alone(
    before: FfiWakers,
    after: FfiWakers,
    inner: FfiWakerInner,
    strong: nat,
    wakers: Multiset<usize>,
)
    requires
        before.counts(wakers),
        before.renewed(after, inner, strong),
    ensures
        strong == 1 ==> after.counts(wakers),
        strong == 2 ==> after.counts(wakers.insert(after.current())),
        forall|cell: usize|
            wakers.count(cell) > 0 ==> #[trigger] after.inner(cell) == before.inner(cell),
        after.inner(after.current()) == inner,
        !wakers.contains(after.current()),
{
    assert(before.strong(before.current()) == wakers.count(before.current()) + 1);
    assert(before.strong(after.current()) == wakers.count(after.current()) + before.own(after.current()));
    assert forall|cell: usize| #[trigger]
        after.strong(cell) == wakers.count(cell) + (if cell == after.current() {
            strong
        } else {
            0
        }) by {
        assert(before.strong(cell) == wakers.count(cell) + before.own(cell));
    }
    assert forall|cell: usize| wakers.count(cell) > 0 implies #[trigger] after.inner(cell)
        == before.inner(cell) by {
        assert(before.strong(cell) == wakers.count(cell) + before.own(cell));
    }
}

/// A clone of a waker that is not the same is nobody's to give up: it is the thread's own cell,
/// which counts the thread alone, and the next waker that the thread lends is written over it.
///
/// `after` is what the cells become when such a clone is made, and `next` what they become when
/// the thread's own cell is made to forward to `other`.
pub proof fn a_different_clone_is_not_held(
    before: FfiWakers,
    after: FfiWakers,
    next: FfiWakers,
    inner: FfiWakerInner,
    other: FfiWakerInner,
    strong: nat,
)
    requires
        before.renewed(after, inner, 1),
    ensures
        !after.held(after.current()),
        after.inner(after.current()) == inner,
        after.renewed(next, other, strong) ==> {
            &&& next.current() == after.current()
            &&& next.inner(after.current()) == other
        },
{
}

/// A thread lends the same cell again and again, and so equal wakers, as long as nobody
/// keeps one of them.
pub proof fn an_idle_cell_is_lent_again(
    before: FfiWakers,
    after: FfiWakers,
    inner: FfiWakerInner,
    strong: nat,
    wakers: Multiset<usize>,
)
    requires
        before.counts(wakers),
        !wakers.contains(before.current()),
        before.renewed(after, inner, strong),
    ensures
        after.current() == before.current(),
{
    assert(before.strong(before.current()) == wakers.count(before.current()) + before.own(
        before.current(),
    ));
}

/// A counted reference more goes with a waker more: cloning a waker whose clone is the same keeps
/// the counts right, and leaves alone what every waker that is held forwards to.
pub proof fn retaining_counts_a_waker(
    before: FfiWakers,
    after: FfiWakers,
    cell: usize,
    wakers: Multiset<usize>,
)
    requires
        before.counts(wakers),
        before.retained(after, cell),
    ensures
        after.counts(wakers.insert(cell)),
        forall|i: usize|
            wakers.count(i) > 0 ==> #[trigger] after.inner(i) == before.inner(i),
{
    assert forall|i: usize| wakers.count(i) > 0 implies #[trigger] after.inner(i) == before.inner(
        i,
    ) by {
        assert(before.strong(i) == wakers.count(i) + before.own(i));
    }
    assert forall|i: usize| #[trigger]
        after.strong(i) == wakers.insert(cell).count(i) + after.own(i) by {
        assert(before.strong(i) == wakers.count(i) + before.own(i));
    }
}

/// A waker that is held can be given up, whether it is woken, dropped or taken back,
/// and the counts stay right, and what every waker that is held forwards to stays.
pub proof fn releasing_uncounts_a_waker(
    before: FfiWakers,
    after: FfiWakers,
    cell: usize,
    wakers: Multiset<usize>,
)
    requires
        before.counts(wakers),
        wakers.contains(cell),
    ensures
        before.held(cell),
        before.released(after, cell) ==> after.counts(wakers.remove(cell)),
        before.released(after, cell) ==> forall|i: usize|
            wakers.count(i) > 0 ==> #[trigger] after.inner(i) == before.inner(i),
{
    assert(before.strong(cell) == wakers.count(cell) + before.own(cell));
    if before.released(after, cell) {
        assert forall|i: usize| wakers.count(i) > 0 implies #[trigger] after.inner(i)
            == before.inner(i) by {
            assert(before.strong(i) == wakers.count(i) + before.own(i));
        }
        assert forall|i: usize| #[trigger]
            after.strong(i) == wakers.remove(cell).count(i) + after.own(i) by {
            assert(before.strong(i) == wakers.count(i) + before.own(i));
        }
    }
}

/// A poll leaves the counts as they were: a waker that is lent and taken back, with
/// whatever the far side keeps of it in between, leaves one reference for each waker that
/// is still held.
pub proof fn a_poll_leaves_the_counts_right(
    before: FfiWakers,
    lent: FfiWakers,
    polled: FfiWakers,
    after: FfiWakers,
    inner: FfiWakerInner,
    wakers: Multiset<usize>,
    kept: Multiset<usize>,
)
    requires
        before.counts(wakers),
        before.renewed(lent, inner, 2),
        polled.counts(kept.insert(lent.current())),
        polled.released(after, lent.current()),
    ensures
        lent.counts(wakers.insert(lent.current())),
        polled.held(lent.current()),
        after.counts(kept),
{
    renewal_leaves_held_wakers_alone(before, lent, inner, 2, wakers);
    releasing_uncounts_a_waker(polled, after, lent.current(), kept.insert(lent.current()));
    assert(kept.insert(lent.current()).remove(lent.current()) =~= kept);
}

/// A lent waker forwards to the waker that it was lent for, whichever cell is lent: waking or
/// dropping what was lent tells that waker, whatever the cells held before, and whether the
/// thread's own cell was idle or kept by others.
pub proof fn a_lent_waker_wakes_its_own_task(
    wakers: &mut FfiWakers,
    later: &mut FfiWakers,
    inner: FfiWakerInner,
    cx: FfiContext,
    cell: usize,
    target: FfiWakerInner,
)
    requires
        call_ensures(FfiWakers::lend, (wakers, inner), cx),
        call_ensures(FfiContext::waker, (&cx,), cell),
        *old(later) == *final(wakers),
        (call_ensures(FfiWakers::wake, (later, cell), target)
            || call_ensures(FfiWakers::wake_by_ref, (&*old(later), cell), target)
            || call_ensures(FfiWakers::drop_waker, (later, cell), target)),
    ensures
        target == inner,
{
}

/// A waker that a thread's own cell is made for, and the clone of a waker whose clone is not the
/// same, forward to what they were made for.
pub proof fn a_new_waker_wakes_its_own_task(
    wakers: &mut FfiWakers,
    waker: usize,
    inner: FfiWakerInner,
    cell: usize,
    target: FfiWakerInner,
)
    requires
        call_ensures(FfiWakers::new_waker, (wakers, inner), cell) || call_ensures(
            FfiWakers::clone_waker,
            (wakers, waker, false, inner),
            cell,
        ),
        call_ensures(FfiWakers::wake_by_ref, (&*final(wakers), cell), target),
    ensures
        target == inner,
{
}

/// Nothing that is done to the cells changes what a waker that is held wakes: whatever else is
/// lent, taken back, cloned, woken or dropped, waking it tells the same before and after, also
/// where it is that very waker that is cloned or given up.
pub proof fn a_held_waker_keeps_its_task(
    wakers: &mut FfiWakers,
    inner: FfiWakerInner,
    cx: FfiContext,
    waker: usize,
    same: bool,
    cell: usize,
    target: FfiWakerInner,
    kept: usize,
    told_before: FfiWakerInner,
    told_after: FfiWakerInner,
)
    requires
        old(wakers).wf(),
        (call_ensures(FfiWakers::lend, (wakers, inner), cx)
            || call_ensures(FfiWakers::new_waker, (wakers, inner), cell)
            || call_ensures(FfiWakers::take_back, (wakers, cx), ())
            || call_ensures(FfiWakers::clone_waker, (wakers, waker, same, inner), cell)
            || call_ensures(FfiWakers::wake, (wakers, waker), target)
            || call_ensures(FfiWakers::drop_waker, (wakers, waker), target)),
        call_ensures(FfiWakers::is_held, (&*old(wakers), kept), true),
        call_ensures(FfiWakers::wake_by_ref, (&*old(wakers), kept), told_before),
        call_ensures(FfiWakers::wake_by_ref, (&*final(wakers), kept), told_after),
    ensures
        told_after == told_before,
{
}

/// Cloning a waker whose clone is the same hands the waker itself out once more: the clone wakes
/// what the waker woke before, and so does the waker.
pub proof fn a_clone_wakes_the_same_task(
    wakers: &mut FfiWakers,
    later: &mut FfiWakers,
    waker: usize,
    cloned: FfiWakerInner,
    clone: usize,
    told_before: FfiWakerInner,
    told_after: FfiWakerInner,
    target: FfiWakerInner,
)
    requires
        call_ensures(FfiWakers::clone_waker, (wakers, waker, true, cloned), clone),
        call_ensures(FfiWakers::wake_by_ref, (&*old(wakers), waker), told_before),
        call_ensures(FfiWakers::wake_by_ref, (&*final(wakers), waker), told_after),
        *old(later) == *final(wakers),
        call_ensures(FfiWakers::wake, (later, clone), target) || call_ensures(
            FfiWakers::drop_waker,
            (later, clone),
            target,
        ),
    ensures
        clone == waker,
        told_after == told_before,
        target == told_before,
{
}

/// Waking a waker by value, by reference and dropping it concern the same task.
pub proof fn waking_and_dropping_concern_the_same_task(
    woken: &mut FfiWakers,
    dropped: &mut FfiWakers,
    waker: usize,
    by_value: FfiWakerInner,
    by_ref: FfiWakerInner,
    with_drop: FfiWakerInner,
)
    requires
        *old(woken) == *old(dropped),
        call_ensures(FfiWakers::wake, (woken, waker), by_value),
        call_ensures(FfiWakers::wake_by_ref, (&*old(woken), waker), by_ref),
        call_ensures(FfiWakers::drop_waker, (dropped, waker), with_drop),
    ensures
        by_value == by_ref,
        with_drop == by_ref,
{
}

/// References are counted one for one: lending counts the cell that is lent once more, cloning a
/// waker whose clone is the same counts the waker once more, giving a waker up uncounts it once,
/// and nothing else is counted but the thread's own reference, which goes with its own cell.
///
/// `i` is any cell, and `own_before` and `own_after` are the thread's references to it.
pub proof fn references_are_counted_one_for_one(
    wakers: &mut FfiWakers,
    inner: FfiWakerInner,
    cx: FfiContext,
    waker: usize,
    same: bool,
    cell: usize,
    target: FfiWakerInner,
    i: usize,
    own_before: int,
    own_after: int,
)
    requires
        old(wakers).wf(),
        own_before == (if i == old(wakers).current() {
            1int
        } else {
            0
        }),
        own_after == (if i == final(wakers).current() {
            1int
        } else {
            0
        }),
    ensures
        call_ensures(FfiWakers::lend, (wakers, inner), cx) ==> final(wakers).strong(i) - own_after
            == old(wakers).strong(i) - own_before + (if i == cx.cell() {
            1int
        } else {
            0
        }),
        call_ensures(FfiWakers::new_waker, (wakers, inner), cell) ==> final(wakers).strong(i)
            - own_after == old(wakers).strong(i) - own_before,
        call_ensures(FfiWakers::clone_waker, (wakers, waker, same, inner), cell)
            ==> final(wakers).strong(i) - own_after == old(wakers).strong(i) - own_before + (if same && i == waker {
            1int
        } else {
            0
        }),
        call_ensures(FfiWakers::take_back, (wakers, cx), ()) ==> final(wakers).strong(i) - own_after
            == old(wakers).strong(i) - own_before - (if i == cx.cell() {
            1int
        } else {
            0
        }),
        call_ensures(FfiWakers::wake, (wakers, waker), target) || call_ensures(
            FfiWakers::drop_waker,
            (wakers, waker),
            target,
        ) ==> final(wakers).strong(i) - own_after == old(wakers).strong(i) - own_before - (if i
            == waker {
            1int
        } else {
            0
        }),
{
}

/// Nothing is held at first, and what is lent is held: by nobody before the first waker is lent,
/// and by the far side from then on.
pub proof fn what_is_lent_is_held(
    noop: FfiWakerInner,
    new: FfiWakers,
    any: usize,
    any_held: bool,
    own: FfiWakerInner,
    wakers: &mut FfiWakers,
    inner: FfiWakerInner,
    cx: FfiContext,
    lent_held: bool,
)
    requires
        call_ensures(FfiWakers::new, (noop,), new),
        call_ensures(FfiWakers::is_held, (&new, any), any_held),
        call_ensures(FfiWakers::wake_by_ref, (&new, new.current()), own),
        call_ensures(FfiWakers::lend, (wakers, inner), cx),
        call_ensures(FfiWakers::is_held, (&*final(wakers), cx.cell()), lent_held),
    ensures
        !any_held,
        own == noop,
        lent_held,
{
    assert(new.strong(any) == Multiset::<usize>::empty().count(any) + new.own(any));
}

/// A clone that the far side keeps is held after the poll, until it is woken or dropped: a cell
/// that nobody held is lent, cloned, taken back and given up.
pub proof fn a_clone_is_held_until_it_is_given_up(
    before: &mut FfiWakers,
    lent: &mut FfiWakers,
    cloned: &mut FfiWakers,
    after: &mut FfiWakers,
    inner: FfiWakerInner,
    cx: FfiContext,
    clone: usize,
    target: FfiWakerInner,
    kept: bool,
    given_up: bool,
)
    requires
        old(before).wf(),
        call_ensures(FfiWakers::lend, (before, inner), cx),
        call_ensures(FfiWakers::is_held, (&*old(before), cx.cell()), false),
        *old(lent) == *final(before),
        call_ensures(FfiWakers::clone_waker, (lent, cx.cell(), true, inner), clone),
        *old(cloned) == *final(lent),
        call_ensures(FfiWakers::take_back, (cloned, cx), ()),
        *old(after) == *final(cloned),
        call_ensures(FfiWakers::is_held, (&*old(after), clone), kept),
        call_ensures(FfiWakers::wake, (after, clone), target) || call_ensures(
            FfiWakers::drop_waker,
            (after, clone),
            target,
        ),
        call_ensures(FfiWakers::is_held, (&*final(after), clone), given_up),
    ensures
        kept,
        !given_up,
        target == inner,
{
}

/// A cell is lent again if and only if nobody keeps a waker of it: after a poll, the next poll on
/// the thread is lent the same cell where that is not held, and a cell that is not in use where
/// it is.
pub proof fn a_cell_is_lent_again_unless_it_is_kept(
    before: &mut FfiWakers,
    polled: &mut FfiWakers,
    after: &mut FfiWakers,
    first_inner: FfiWakerInner,
    second_inner: FfiWakerInner,
    first: FfiContext,
    second: FfiContext,
    kept: bool,
    second_live: bool,
)
    requires
        call_ensures(FfiWakers::lend, (before, first_inner), first),
        *old(polled) == *final(before),
        call_ensures(FfiWakers::take_back, (polled, first), ()),
        *old(after) == *final(polled),
        call_ensures(FfiWakers::is_held, (&*old(after), first.cell()), kept),
        call_ensures(FfiWakers::lend, (after, second_inner), second),
        call_ensures(FfiWakers::is_live, (&*old(after), second.cell()), second_live),
    ensures
        second.cell() == first.cell() <==> !kept,
        kept ==> !second_live,
{
}

/// A waker that is held is never lent to another poll.
pub proof fn a_held_waker_is_not_lent(
    wakers: &mut FfiWakers,
    inner: FfiWakerInner,
    cx: FfiContext,
    kept: usize,
)
    requires
        call_ensures(FfiWakers::is_held, (&*old(wakers), kept), true),
        call_ensures(FfiWakers::lend, (wakers, inner), cx),
    ensures
        cx.cell() != kept,
{
}

/// What is told of a waker is enough to use it: a thread can always lend, a waker that is in use
/// can be woken by reference and, where so told, cloned, and one that is held can be given up.
pub proof fn a_waker_can_be_used_as_told(
    wakers: &mut FfiWakers,
    inner: FfiWakerInner,
    cx: FfiContext,
    waker: usize,
    same: bool,
    is_held: bool,
    is_live: bool,
    can_clone: bool,
)
    requires
        old(wakers).wf(),
        call_ensures(FfiWakers::is_held, (&*old(wakers), waker), is_held),
        call_ensures(FfiWakers::is_live, (&*old(wakers), waker), is_live),
        call_ensures(FfiWakers::can_clone, (&*old(wakers), waker, same), can_clone),
        cx.cell() == waker,
    ensures
        call_requires(FfiWakers::lend, (wakers, inner)),
        call_requires(FfiWakers::new_waker, (wakers, inner)),
        is_live ==> call_requires(FfiWakers::wake_by_ref, (&*old(wakers), waker)),
        can_clone ==> call_requires(FfiWakers::clone_waker, (wakers, waker, same, inner)),
        is_held ==> {
            &&& is_live
            &&& call_requires(FfiWakers::wake, (wakers, waker))
            &&& call_requires(FfiWakers::drop_waker, (wakers, waker))
            &&& call_requires(FfiWakers::take_back, (wakers, cx))
        },
        is_live && !same ==> can_clone,
        is_live && old(wakers).strong(waker) < usize::MAX ==> can_clone,
{
}

/// Who holds a waker changes only by lending, cloning and giving up that very waker: any other
/// waker is held after whatever is done to the cells if and only if it was held before.
pub proof fn only_what_is_handed_out_or_given_up_changes_hands(
    wakers: &mut FfiWakers,
    inner: FfiWakerInner,
    cx: FfiContext,
    waker: usize,
    same: bool,
    cell: usize,
    target: FfiWakerInner,
    other: usize,
    held_before: bool,
    held_after: bool,
)
    requires
        old(wakers).wf(),
        other != cx.cell(),
        other != waker,
        (call_ensures(FfiWakers::lend, (wakers, inner), cx)
            || call_ensures(FfiWakers::new_waker, (wakers, inner), cell)
            || call_ensures(FfiWakers::take_back, (wakers, cx), ())
            || call_ensures(FfiWakers::clone_waker, (wakers, waker, same, inner), cell)
            || call_ensures(FfiWakers::wake, (wakers, waker), target)
            || call_ensures(FfiWakers::drop_waker, (wakers, waker), target)),
        call_ensures(FfiWakers::is_held, (&*old(wakers), other), held_before),
        call_ensures(FfiWakers::is_held, (&*final(wakers), other), held_after),
    ensures
        held_after == held_before,
{
}

/// An idle cell of the thread's own is the one that is lent, and one that somebody holds is not.
pub proof fn an_idle_cell_is_the_one_that_is_lent(
    wakers: &mut FfiWakers,
    inner: FfiWakerInner,
    cx: FfiContext,
    busy: bool,
)
    requires
        old(wakers).wf(),
        call_ensures(FfiWakers::is_held, (&*old(wakers), old(wakers).current()), busy),
        call_ensures(FfiWakers::lend, (wakers, inner), cx),
    ensures
        cx.cell() == old(wakers).current() <==> !busy,
        cx.cell() == final(wakers).current(),
{
}

/// The cells stay fit for use whatever is done to them.
pub proof fn the_cells_stay_fit_for_use(
    wakers: &mut FfiWakers,
    inner: FfiWakerInner,
    cx: FfiContext,
    waker: usize,
    same: bool,
    cell: usize,
    target: FfiWakerInner,
)
    requires
        (call_ensures(FfiWakers::lend, (wakers, inner), cx)
            || call_ensures(FfiWakers::new_waker, (wakers, inner), cell)
            || call_ensures(FfiWakers::take_back, (wakers, cx), ())
            || call_ensures(FfiWakers::clone_waker, (wakers, waker, same, inner), cell)
            || call_ensures(FfiWakers::wake, (wakers, waker), target)
            || call_ensures(FfiWakers::drop_waker, (wakers, waker), target)),
    ensures
        final(wakers).wf(),
{
}

}
