//! Cells, snapshots, states and stores.
use std::rc::Rc;
use vstd::prelude::*;

use crate::cell::{ReCell, Ref, RefMut};
use crate::graphics::Layer;
use crate::snap::Snap;
use crate::state::{Held, ReadSource, Shown, State};
use crate::store::{
    found_shared, found_unique, law_pointers_are_asked, settle_commit, settle_update, views_cell,
    MutableState, ReadGuard, Repaint, Shared, Store, UpdateError,
};

verus! {

// ── Cells ───────────────────────────────────────────────────────────────────────

/// A new cell holds its value and is not borrowed.
pub proof fn law_new_cell<T>(value: T, cell: ReCell<T>)
    requires
        call_ensures(ReCell::<T>::new, (value,), cell),
    ensures
        cell@.value == value,
        cell@.borrow == 0,
{
}

/// A shared borrow counts one up and keeps the value; it belongs to the cell.
pub proof fn law_borrow<T>(cell: &mut ReCell<T>, guard: Ref<T>)
    requires
        call_ensures(ReCell::<T>::borrow, (cell,), guard),
    ensures
        final(cell)@.borrow == old(cell)@.borrow + 1,
        final(cell)@.value == old(cell)@.value,
        guard.of() == old(cell).id(),
        final(cell).id() == old(cell).id(),
{
}

/// The mutable borrow sets the counter to `-1` and keeps the value.
pub proof fn law_borrow_mut<T>(cell: &mut ReCell<T>, guard: RefMut<T>)
    requires
        call_ensures(ReCell::<T>::borrow_mut, (cell,), guard),
    ensures
        final(cell)@.borrow == -1,
        final(cell)@.value == old(cell)@.value,
        guard.of() == old(cell).id(),
        final(cell).id() == old(cell).id(),
{
}

/// The mutable borrow is given exactly when the counter is `0`; otherwise nothing changes.
pub proof fn law_try_borrow_mut<T>(cell: &mut ReCell<T>, guard: Option<RefMut<T>>)
    requires
        call_ensures(ReCell::<T>::try_borrow_mut, (cell,), guard),
    ensures
        guard is Some <==> old(cell)@.borrow == 0,
        final(cell)@.value == old(cell)@.value,
        final(cell)@.borrow == if old(cell)@.borrow == 0 {
            -1
        } else {
            old(cell)@.borrow
        },
        final(cell).id() == old(cell).id(),
        guard matches Some(guard) ==> guard.of() == old(cell).id(),
{
}

/// Guards and looks show the value of the cell.
pub proof fn law_guards_show_the_value<T>(
    cell: &ReCell<T>,
    peeked: &T,
    shared: &Ref<T>,
    read: &T,
    exclusive: &RefMut<T>,
    looked: &T,
)
    requires
        call_ensures(ReCell::<T>::peek, (cell,), peeked),
        call_ensures(Ref::<T>::deref, (shared, cell), read),
        call_ensures(RefMut::<T>::deref, (exclusive, cell), looked),
    ensures
        *peeked == cell@.value,
        *read == cell@.value,
        *looked == cell@.value,
{
}

/// What is written through the mutable guard is what the cell holds.
pub proof fn law_write_through_a_guard<T>(
    guard: &RefMut<T>,
    cell: &mut ReCell<T>,
    value: &mut T,
)
    requires
        call_ensures(RefMut::<T>::deref_mut, (guard, cell), value),
    ensures
        *old(value) == old(cell)@.value,
        final(cell)@.value == *final(value),
        final(cell)@.borrow == -1,
        final(cell).id() == old(cell).id(),
{
}

/// Releasing a shared borrow counts one down, releasing the mutable one frees the cell, and
/// both keep the value.
pub proof fn law_release<T>(
    shared: Ref<T>,
    one: &mut ReCell<T>,
    exclusive: RefMut<T>,
    other: &mut ReCell<T>,
)
    requires
        call_ensures(Ref::<T>::release, (shared, one), ()),
        call_ensures(RefMut::<T>::release, (exclusive, other), ()),
    ensures
        final(one)@.borrow == old(one)@.borrow - 1,
        final(one)@.value == old(one)@.value,
        final(other)@.borrow == 0,
        final(other)@.value == old(other)@.value,
        final(one).id() == old(one).id(),
        final(other).id() == old(other).id(),
{
}

// ── Snapshots ───────────────────────────────────────────────────────────────────

/// A whole snapshot shows its value and no other; a copy shows what the snap shows; what is
/// got from a snap is shown by it.
pub proof fn law_whole_snap<T>(
    root: Rc<T>,
    snap: Snap<T>,
    copy: Snap<T>,
    got: &T,
    pointed: &T,
    value: T,
)
    requires
        call_ensures(Snap::<T>::whole, (root,), snap),
        call_ensures(<Snap<T> as Clone>::clone, (&snap,), copy),
        call_ensures(Snap::<T>::get, (&copy,), got),
        call_ensures(<Snap<T> as std::ops::Deref>::deref, (&copy,), pointed),
    ensures
        *got == *root,
        *pointed == *root,
        snap.points_to(&value) <==> value == *root,
        copy.points_to(&value) <==> value == *root,
{
}

/// A narrowed snap gives what the projection gives of what the snap shows.
pub proof fn law_narrowed_snap<T: 'static, U: 'static, F: Fn(&T) -> &U + 'static>(
    root: Rc<T>,
    snap: Snap<T>,
    f: F,
    part: Snap<U>,
    got: &U,
)
    requires
        call_ensures(Snap::<T>::whole, (root,), snap),
        call_ensures(Snap::<T>::focus::<U, F>, (&snap, f), part),
        call_ensures(Snap::<U>::get, (&part,), got),
    ensures
        call_ensures(f, (&*root,), got),
{
    assert(part.points_to(got));
    let p = choose|p: &T| #[trigger] snap.points_to(p) && call_ensures(f, (p,), got);
    assert(*p == *root);
}

/// Narrowing twice gives what the second projection gives of what the first one gives.
pub proof fn law_narrowed_twice<
    T: 'static,
    U: 'static,
    V: 'static,
    F: Fn(&T) -> &U + 'static,
    G: Fn(&U) -> &V + 'static,
>(
    snap: Snap<T>,
    f: F,
    part: Snap<U>,
    g: G,
    inner: Snap<V>,
    got: &V,
)
    requires
        call_ensures(Snap::<T>::focus::<U, F>, (&snap, f), part),
        call_ensures(Snap::<U>::focus::<V, G>, (&part, g), inner),
        call_ensures(Snap::<V>::get, (&inner,), got),
    ensures
        exists|p: &T, q: &U|
            #![trigger snap.points_to(p), call_ensures(g, (q,), got)]
            snap.points_to(p) && call_ensures(f, (p,), q) && call_ensures(g, (q,), got),
{
    assert(inner.points_to(got));
    let q = choose|q: &U| #[trigger] part.points_to(q) && call_ensures(g, (q,), got);
    let p = choose|p: &T| #[trigger] snap.points_to(p) && call_ensures(f, (p,), q);
    assert(snap.points_to(p) && call_ensures(g, (q,), got));
}

// ── Reads ───────────────────────────────────────────────────────────────────────

/// A read runs its closure once, on a value that the state shows, and so do a scoped read
/// and a snapshot show one.
pub proof fn law_reads_agree<W: 'static, T: 'static, R, F: FnOnce(&T) -> R>(
    state: &State<W, T>,
    one: &mut W,
    f: F,
    out: R,
    other: &mut W,
    snap: Snap<T>,
    got: &T,
)
    requires
        call_ensures(State::<W, T>::with::<R, F>, (state, one, f), out),
        call_ensures(State::<W, T>::snapshot, (state, other), snap),
        call_ensures(Snap::<T>::get, (&snap,), got),
    ensures
        exists|value: T| #[trigger]
            state.reads(*old(one), value, *final(one)) && call_ensures(f, (&value,), out),
        state.snaps(*old(other), snap, *final(other)),
        state.reads(*old(other), *got, *final(other)),
{
    assert(snap.points_to(got));
}

/// A scoped read and a held value show what the state shows.
pub proof fn law_shown_values<W: 'static, T: 'static>(
    state: &State<W, T>,
    one: &mut W,
    shown: Shown<'_, T>,
    got: &T,
    other: &mut W,
    held: Held<T>,
    kept: &T,
)
    requires
        call_ensures(State::<W, T>::read, (state, one), shown),
        call_ensures(Shown::<T>::get, (&shown,), got),
        call_ensures(State::<W, T>::hold, (state, other), held),
        call_ensures(Held::<T>::get, (&held,), kept),
    ensures
        state.reads(*old(one), *got, *final(one)),
        state.holds(*old(other), *kept, *final(other)),
        held.keeps() == state.keeps(),
{
    assert(shown.points_to(got));
    assert(held.points_to(kept));
}

/// What is got of a shown value is the value that is there, the one that was built, or one
/// that the snapshot shows.
pub proof fn law_shown<T>(here: &T, built: T, part: Snap<T>, one: &T, other: &T, third: &T)
    requires
        call_ensures(Shown::<T>::get, (&Shown::Here(here),), one),
        call_ensures(Shown::<T>::get, (&Shown::Built(built),), other),
        call_ensures(Shown::<T>::get, (&Shown::Part(part),), third),
    ensures
        *one == *here,
        *other == built,
        part.points_to(third),
{
}

/// A held snapshot shows what the snapshot shows, also while it pins others; letting go of a
/// held value leaves what the state says; and a copy of a state is the state.
pub proof fn law_held_values<W: 'static, T: 'static, A: 'static>(
    snap: Snap<T>,
    held: Held<T>,
    other: Snap<A>,
    pinned: Held<T>,
    value: T,
    state: &State<W, T>,
    kept: Held<T>,
    world: &mut W,
    copy: State<W, T>,
)
    requires
        call_ensures(Held::<T>::of, (snap,), held),
        call_ensures(Held::<T>::pinning::<A>, (held, other), pinned),
        call_ensures(State::<W, T>::release, (state, kept, world), ()),
        call_ensures(<State<W, T> as Clone>::clone, (state,), copy),
    ensures
        held.points_to(&value) <==> snap.points_to(&value),
        pinned.points_to(&value) <==> snap.points_to(&value),
        held.keeps() == 0,
        pinned.keeps() == 1,
        state.releases(*old(world), *final(world)),
        copy == *state,
{
}

/// A state over a source of one's own is, in every way of reading it, that source.
pub proof fn law_own_source<W: 'static, T: 'static, S: ReadSource<W, T> + 'static>(
    source: S,
    state: State<W, T>,
    pre: W,
    value: T,
    snap: Snap<T>,
    post: W,
)
    requires
        call_ensures(State::<W, T>::from_source::<S>, (source,), state),
    ensures
        state.readable(pre) <==> source.readable(pre),
        state.reads(pre, value, post) <==> source.reads(pre, value, post),
        state.snaps(pre, snap, post) <==> source.snaps(pre, snap, post),
        state.can_hold(pre) <==> source.can_hold(pre),
        state.holds(pre, value, post) <==> source.holds(pre, value, post),
        state.can_release(pre) <==> source.can_release(pre),
        state.releases(pre, post) <==> source.releases(pre, post),
        state.keeps() == source.keeps(),
{
}

/// A constant is readable everywhere, reads as the value that it was made of, and leaves the
/// world alone, whichever way it is read.
pub proof fn law_fixed<W: 'static, T: 'static>(
    value: T,
    state: State<W, T>,
    pre: W,
    shown: T,
    snap: Snap<T>,
    post: W,
)
    requires
        call_ensures(State::<W, T>::fixed, (value,), state),
    ensures
        state.readable(pre),
        state.can_hold(pre),
        state.can_release(pre),
        state.reads(pre, shown, post) <==> shown == value && post == pre,
        state.holds(pre, shown, post) <==> shown == value && post == pre,
        state.releases(pre, post) <==> post == pre,
        state.keeps() == 0,
        state.snaps(pre, snap, post) ==> post == pre && (snap.points_to(&shown) <==> shown
            == value),
{
}

/// A lens can be read, and held, wherever its source can and the projection takes whatever
/// that shows; it shows exactly the projections of what the source shows, and leaves what
/// the source leaves; a snapshot of it shows projections of what a snapshot of the source
/// shows.
pub proof fn law_focus<W: 'static, T: 'static, U: 'static, F: Fn(&T) -> &U + 'static>(
    src: &State<W, T>,
    f: F,
    state: State<W, U>,
    pre: W,
    value: U,
    snap: Snap<U>,
    post: W,
)
    requires
        call_ensures(State::<W, T>::focus::<U, F>, (src, f), state),
    ensures
        state.readable(pre) <==> src.readable(pre) && forall|a: T, left: W| #[trigger]
            src.reads(pre, a, left) ==> call_requires(f, (&a,)),
        state.can_hold(pre) <==> src.can_hold(pre) && forall|a: T, left: W| #[trigger]
            src.holds(pre, a, left) ==> call_requires(f, (&a,)),
        state.reads(pre, value, post) <==> exists|a: T| #[trigger]
            src.reads(pre, a, post) && call_ensures(f, (&a,), &value),
        state.snaps(pre, snap, post) ==> exists|parent: Snap<T>| #[trigger]
            src.snaps(pre, parent, post) && (snap.points_to(&value) <==> exists|a: &T| #[trigger]
                parent.points_to(a) && call_ensures(f, (a,), &value)),
        state.holds(pre, value, post) <==> exists|a: T| #[trigger]
            src.holds(pre, a, post) && call_ensures(f, (&a,), &value),
        state.can_release(pre) <==> src.can_release(pre),
        state.releases(pre, post) <==> src.releases(pre, post),
        state.keeps() == src.keeps(),
{
    if state.snaps(pre, snap, post) {
        let parent = choose|parent: Snap<T>| #[trigger]
            src.snaps(pre, parent, post) && snap.narrows(parent, f);
        assert(src.snaps(pre, parent, post));
    }
}

/// A built value can be read wherever its source can and the builder takes whatever snapshot
/// of it there is; it shows exactly what the builder gives of a snapshot of the source, and
/// so does a snapshot of it. While it is held it keeps that one snapshot.
pub proof fn law_map<W: 'static, T: 'static, U: 'static, F: Fn(&Snap<T>) -> U + 'static>(
    src: &State<W, T>,
    f: F,
    state: State<W, U>,
    pre: W,
    value: U,
    snap: Snap<U>,
    post: W,
)
    requires
        call_ensures(State::<W, T>::map::<U, F>, (src, f), state),
    ensures
        state.readable(pre) <==> src.readable(pre) && forall|s: Snap<T>, left: W| #[trigger]
            src.snaps(pre, s, left) ==> call_requires(f, (&s,)),
        state.can_hold(pre) <==> state.readable(pre),
        state.can_release(pre),
        state.releases(pre, post) <==> post == pre,
        state.keeps() == 1,
        state.reads(pre, value, post) <==> exists|s: Snap<T>| #[trigger]
            src.snaps(pre, s, post) && call_ensures(f, (&s,), value),
        state.holds(pre, value, post) <==> state.reads(pre, value, post),
        state.snaps(pre, snap, post) && snap.points_to(&value) ==> state.reads(pre, value, post),
{
}

/// A combined value shows exactly what the builder gives of a snapshot of the first state
/// and one of the second, taken in this order. While it is held it keeps both.
pub proof fn law_combine<
    W: 'static,
    A: 'static,
    B: 'static,
    T: 'static,
    F: Fn(&Snap<A>, &Snap<B>) -> T + 'static,
>(
    a: &State<W, A>,
    b: &State<W, B>,
    f: F,
    state: State<W, T>,
    pre: W,
    value: T,
    snap: Snap<T>,
    post: W,
)
    requires
        call_ensures(State::<W, T>::combine::<A, B, F>, (a, b, f), state),
    ensures
        state.reads(pre, value, post) <==> exists|sa: Snap<A>, mid: W, sb: Snap<B>|
            #![trigger a.snaps(pre, sa, mid), b.snaps(mid, sb, post)]
            a.snaps(pre, sa, mid) && b.snaps(mid, sb, post) && call_ensures(
                f,
                (&sa, &sb),
                value,
            ),
        state.holds(pre, value, post) <==> state.reads(pre, value, post),
        state.snaps(pre, snap, post) && snap.points_to(&value) ==> state.reads(pre, value, post),
        (forall|sa: Snap<A>, sb: Snap<B>| #[trigger] call_requires(f, (&sa, &sb))) && a.readable(
            pre,
        ) && (forall|w: W| #[trigger] b.readable(w)) ==> state.readable(pre),
        state.readable(pre) ==> a.readable(pre),
        state.can_hold(pre) <==> state.readable(pre),
        state.can_release(pre),
        state.releases(pre, post) <==> post == pre,
        state.keeps() == 2,
{
}

/// A lifted state reads from its own half of the pair, and the other half stays as it is.
pub proof fn law_lifted<W1: 'static, W2: 'static, T: 'static, U: 'static>(
    one: &State<W1, T>,
    first: State<(W1, W2), T>,
    other: &State<W2, U>,
    second: State<(W1, W2), U>,
    pre: (W1, W2),
    t: T,
    u: U,
    ts: Snap<T>,
    us: Snap<U>,
    post: (W1, W2),
)
    requires
        call_ensures(State::<W1, T>::in_first::<W2>, (one,), first),
        call_ensures(State::<W2, U>::in_second::<W1>, (other,), second),
    ensures
        first.readable(pre) <==> one.readable(pre.0),
        second.readable(pre) <==> other.readable(pre.1),
        first.reads(pre, t, post) <==> one.reads(pre.0, t, post.0) && post.1 == pre.1,
        second.reads(pre, u, post) <==> other.reads(pre.1, u, post.1) && post.0 == pre.0,
        first.holds(pre, t, post) <==> one.holds(pre.0, t, post.0) && post.1 == pre.1,
        second.holds(pre, u, post) <==> other.holds(pre.1, u, post.1) && post.0 == pre.0,
        first.snaps(pre, ts, post) <==> one.snaps(pre.0, ts, post.0) && post.1 == pre.1,
        second.snaps(pre, us, post) <==> other.snaps(pre.1, us, post.1) && post.0 == pre.0,
        first.can_hold(pre) <==> one.can_hold(pre.0),
        second.can_hold(pre) <==> other.can_hold(pre.1),
        first.can_release(pre) <==> one.can_release(pre.0),
        second.can_release(pre) <==> other.can_release(pre.1),
        first.releases(pre, post) <==> one.releases(pre.0, post.0) && post.1 == pre.1,
        second.releases(pre, post) <==> other.releases(pre.1, post.1) && post.0 == pre.0,
        first.keeps() == one.keeps(),
        second.keeps() == other.keeps(),
{
}

// ── Stores ──────────────────────────────────────────────────────────────────────

/// A new store has no cells and asks for nothing.
pub proof fn law_new_store<V>(store: Store<V>)
    requires
        call_ensures(Store::<V>::new, (), store),
    ensures
        store@.cells.len() == 0,
        store@.repaints.len() == 0,
{
}

/// A new cell goes behind all others, free and with its value; the handle is to that cell;
/// nothing else changes.
pub proof fn law_share<V>(store: &mut Store<V>, initial: V, cell: Shared<V>, i: int)
    requires
        call_ensures(Store::<V>::share, (store, initial), cell),
    ensures
        cell.index() == old(store)@.cells.len(),
        cell.store() == old(store)@.id,
        final(store)@.id == old(store)@.id,
        final(store)@.cells.len() == old(store)@.cells.len() + 1,
        final(store)@.cells[cell.index()].value == initial,
        final(store)@.cells[cell.index()].borrow == 0,
        0 <= i < old(store)@.cells.len() ==> final(store)@.cells[i] == old(store)@.cells[i],
        final(store)@.repaints == old(store)@.repaints,
{
}

/// Taking the repaints hands out all that were asked for, in order, and leaves none; the
/// cells stay.
pub proof fn law_take_repaints<V>(store: &mut Store<V>, taken: Vec<Repaint>)
    requires
        call_ensures(Store::<V>::take_repaints, (store,), taken),
    ensures
        taken@ == old(store)@.repaints,
        final(store)@.repaints.len() == 0,
        final(store)@.cells == old(store)@.cells,
        final(store)@.id == old(store)@.id,
{
}

/// The handles that the three constructors give: a new cell, an existing cell, and a new
/// cell whose updates repaint a layer.
pub proof fn law_new_handles<V: 'static>(
    one: &mut Store<V>,
    initial: V,
    rerender: Repaint,
    fresh: MutableState<V>,
    cell: Shared<V>,
    wrapped: MutableState<V>,
    other: &mut Store<V>,
    layer: Layer,
    local: MutableState<V>,
)
    requires
        call_ensures(MutableState::<V>::new, (one, initial, rerender), fresh),
        call_ensures(MutableState::<V>::from_shared, (cell, rerender), wrapped),
        call_ensures(MutableState::<V>::for_layer, (other, layer, initial), local),
    ensures
        fresh.cell().index() == old(one)@.cells.len(),
        fresh.cell().store() == old(one)@.id,
        fresh.rerender() == rerender,
        final(one)@.cells.len() == old(one)@.cells.len() + 1,
        final(one)@.cells.take(old(one)@.cells.len() as int) == old(one)@.cells,
        final(one)@.cells.last().value == initial,
        final(one)@.cells.last().borrow == 0,
        final(one)@.repaints == old(one)@.repaints,
        final(one)@.id == old(one)@.id,
        wrapped.cell() == cell,
        wrapped.rerender() == rerender,
        local.cell().index() == old(other)@.cells.len(),
        local.cell().store() == old(other)@.id,
        local.rerender() == Repaint::Layer(layer),
        final(other)@.cells.len() == old(other)@.cells.len() + 1,
        final(other)@.cells.take(old(other)@.cells.len() as int) == old(other)@.cells,
        final(other)@.cells.last().value == initial,
        final(other)@.cells.last().borrow == 0,
        final(other)@.repaints == old(other)@.repaints,
        final(other)@.id == old(other)@.id,
{
    assert(final(one)@.cells.take(old(one)@.cells.len() as int) =~= old(one)@.cells);
    assert(final(other)@.cells.take(old(other)@.cells.len() as int) =~= old(other)@.cells);
}

/// A view of a cell can be read unless the cell is being written; it shows the value of the
/// cell that the handle writes, and nothing else, and changes nothing. While its value is
/// held the cell counts one borrow more, and everything else is as it was.
pub proof fn law_view_of_a_handle<V: 'static>(
    handle: &MutableState<V>,
    state: State<Store<V>, V>,
    pre: Store<V>,
    value: V,
    snap: Snap<V>,
    post: Store<V>,
    i: int,
)
    requires
        call_ensures(MutableState::<V>::as_state, (handle,), state),
        handle.cell().store() == pre@.id,
        0 <= handle.cell().index() < pre@.cells.len(),
    ensures
        state.readable(pre) <==> pre@.cells[handle.cell().index()].borrow >= 0,
        state.reads(pre, value, post) <==> value == pre@.cells[handle.cell().index()].value
            && post == pre,
        state.snaps(pre, snap, post) ==> post == pre && (snap.points_to(&value) <==> value
            == pre@.cells[handle.cell().index()].value),
        state.can_hold(pre) <==> 0 <= pre@.cells[handle.cell().index()].borrow < isize::MAX,
        state.holds(pre, value, post) ==> {
            &&& value == pre@.cells[handle.cell().index()].value
            &&& post@.cells[handle.cell().index()].borrow
                == pre@.cells[handle.cell().index()].borrow + 1
            &&& post@.cells[handle.cell().index()].value == value
            &&& post@.cells.len() == pre@.cells.len()
            &&& 0 <= i < pre@.cells.len() && i != handle.cell().index() ==> post@.cells[i]
                == pre@.cells[i]
            &&& post@.repaints == pre@.repaints
            &&& post@.id == pre@.id
        },
        state.can_release(pre) <==> pre@.cells[handle.cell().index()].borrow > 0,
        state.releases(pre, post) ==> {
            &&& post@.cells[handle.cell().index()].borrow
                == pre@.cells[handle.cell().index()].borrow - 1
            &&& post@.cells[handle.cell().index()].value
                == pre@.cells[handle.cell().index()].value
            &&& post@.cells.len() == pre@.cells.len()
            &&& 0 <= i < pre@.cells.len() && i != handle.cell().index() ==> post@.cells[i]
                == pre@.cells[i]
            &&& post@.repaints == pre@.repaints
            &&& post@.id == pre@.id
        },
{
}

/// A copy of a handle is that handle, a copy of a cell's handle too, and a handle that is
/// made a state reads what its view reads.
pub proof fn law_copies_of_a_handle<V: 'static>(
    handle: MutableState<V>,
    copy: MutableState<V>,
    cell: Shared<V>,
    same: Shared<V>,
    state: State<Store<V>, V>,
    converted: State<Store<V>, V>,
    borrowed: State<Store<V>, V>,
    pre: Store<V>,
    value: V,
    snap: Snap<V>,
    post: Store<V>,
)
    requires
        call_ensures(<MutableState<V> as Clone>::clone, (&handle,), copy),
        call_ensures(<Shared<V> as Clone>::clone, (&cell,), same),
        call_ensures(MutableState::<V>::as_state, (&handle,), state),
        call_ensures(<State<Store<V>, V> as From<MutableState<V>>>::from, (handle,), converted),
        call_ensures(<State<Store<V>, V> as From<&MutableState<V>>>::from, (&handle,), borrowed),
    ensures
        copy.cell() == handle.cell(),
        copy.rerender() == handle.rerender(),
        same == cell,
        converted.readable(pre) <==> state.readable(pre),
        converted.reads(pre, value, post) <==> state.reads(pre, value, post),
        converted.snaps(pre, snap, post) <==> state.snaps(pre, snap, post),
        converted.holds(pre, value, post) <==> state.holds(pre, value, post),
        borrowed.readable(pre) <==> state.readable(pre),
        borrowed.reads(pre, value, post) <==> state.reads(pre, value, post),
        borrowed.snaps(pre, snap, post) <==> state.snaps(pre, snap, post),
        borrowed.holds(pre, value, post) <==> state.holds(pre, value, post),
{
}

/// A lens on a handle reads exactly what the projection gives of the value of the cell, and
/// a built value exactly what the builder gives of a snapshot that shows this value.
pub proof fn law_derived_from_a_handle<
    V: 'static,
    U: 'static,
    F: Fn(&V) -> &U + 'static,
    G: Fn(&Snap<V>) -> U + 'static,
>(
    handle: &MutableState<V>,
    f: F,
    part: State<Store<V>, U>,
    g: G,
    built: State<Store<V>, U>,
    pre: Store<V>,
    value: U,
    post: Store<V>,
)
    requires
        call_ensures(MutableState::<V>::focus::<U, F>, (handle, f), part),
        call_ensures(MutableState::<V>::map::<U, G>, (handle, g), built),
    ensures
        part.reads(pre, value, post) <==> post == pre && call_ensures(
            f,
            (&pre@.cells[handle.cell().index()].value,),
            &value,
        ),
        built.reads(pre, value, post) ==> post == pre && exists|snap: Snap<V>|
            (forall|v: V| #[trigger]
                snap.points_to(&v) <==> v == pre@.cells[handle.cell().index()].value)
                && #[trigger] call_ensures(g, (&snap,), value),
{
    let base = choose|base: State<Store<V>, V>| #[trigger]
        views_cell(base, handle.cell()) && part.is_focus(base, f);
    let now = pre@.cells[handle.cell().index()].value;
    assert(base.reads(pre, now, pre));
    if built.reads(pre, value, post) {
        let other = choose|other: State<Store<V>, V>| #[trigger]
            views_cell(other, handle.cell()) && built.is_map(other, g);
        let snap = choose|snap: Snap<V>| #[trigger]
            other.snaps(pre, snap, post) && call_ensures(g, (&snap,), value);
        assert(call_ensures(g, (&snap,), value));
    }
}

/// Reading through a handle shows the value of its cell.
pub proof fn law_read_a_handle<V: 'static, R, F: FnOnce(&V) -> R>(
    handle: &MutableState<V>,
    store: &Store<V>,
    f: F,
    out: R,
    root: Rc<V>,
)
    requires
        call_ensures(MutableState::<V>::with::<R, F>, (handle, store, f), out),
        call_ensures(MutableState::<V>::snapshot, (handle, store), root),
    ensures
        call_ensures(f, (&store@.cells[handle.cell().index()].value,), out),
        *root == store@.cells[handle.cell().index()].value,
{
}

/// A read guard counts one borrow more of its own cell, shows its value, and counts one less
/// when it is released; nothing else changes.
pub proof fn law_read_guard<V: 'static>(
    handle: &MutableState<V>,
    store: &mut Store<V>,
    guard: ReadGuard<V>,
    during: &Store<V>,
    value: &V,
    end: &mut Store<V>,
    i: int,
)
    requires
        call_ensures(MutableState::<V>::read, (handle, store), guard),
        call_ensures(ReadGuard::<V>::deref, (&guard, during), value),
        call_ensures(ReadGuard::<V>::release, (guard, end), ()),
        0 <= handle.cell().index() < old(store)@.cells.len(),
        0 <= handle.cell().index() < old(end)@.cells.len(),
    ensures
        guard.cell() == handle.cell(),
        final(store)@.cells.len() == old(store)@.cells.len(),
        final(store)@.cells[handle.cell().index()].borrow == old(
            store,
        )@.cells[handle.cell().index()].borrow + 1,
        final(store)@.cells[handle.cell().index()].value == old(
            store,
        )@.cells[handle.cell().index()].value,
        0 <= i < old(store)@.cells.len() && i != handle.cell().index() ==> final(store)@.cells[i]
            == old(store)@.cells[i],
        final(store)@.repaints == old(store)@.repaints,
        final(store)@.id == old(store)@.id,
        *value == during@.cells[handle.cell().index()].value,
        final(end)@.cells.len() == old(end)@.cells.len(),
        final(end)@.cells[handle.cell().index()].borrow == old(
            end,
        )@.cells[handle.cell().index()].borrow - 1,
        final(end)@.cells[handle.cell().index()].value == old(
            end,
        )@.cells[handle.cell().index()].value,
        0 <= i < old(end)@.cells.len() && i != handle.cell().index() ==> final(end)@.cells[i]
            == old(end)@.cells[i],
        final(end)@.repaints == old(end)@.repaints,
        final(end)@.id == old(end)@.id,
{
}

/// An update of a borrowed cell, and no other, is refused as coming from a render. On a free
/// cell the pointer to the value decides: the update is refused only where the pointer was
/// asked and found shared, and runs only where it was found to be the only one. A refused
/// update changes nothing. An update that is not refused leaves in the cell what `f` made of its value, the
/// cell free, all other cells as they were, and one repaint more, the one of the handle.
pub proof fn law_update<V: 'static, F: FnOnce(&mut V)>(
    handle: &MutableState<V>,
    store: &mut Store<V>,
    f: F,
    out: Result<(), UpdateError>,
    i: int,
)
    requires
        call_ensures(MutableState::<V>::update::<F>, (handle, store, f), out),
        0 <= handle.cell().index() < old(store)@.cells.len(),
    ensures
        out == Err::<(), UpdateError>(UpdateError::DuringRender) <==> old(
            store,
        )@.cells[handle.cell().index()].borrow != 0,
        out == Err::<(), UpdateError>(UpdateError::SnapHeld) ==> found_shared(
            old(store)@.cells[handle.cell().index()].value,
        ),
        out is Ok ==> found_unique(old(store)@.cells[handle.cell().index()].value),
        out is Err ==> final(store)@ == old(store)@,
        out is Ok ==> exists|m: &mut V| #[trigger]
            call_ensures(f, (m,), ()) && *m == old(store)@.cells[handle.cell().index()].value
                && final(store)@.cells[handle.cell().index()].value == *final(m),
        out is Ok ==> {
            &&& final(store)@.cells[handle.cell().index()].borrow == 0
            &&& final(store)@.cells.len() == old(store)@.cells.len()
            &&& 0 <= i < old(store)@.cells.len() && i != handle.cell().index()
                ==> final(store)@.cells[i] == old(store)@.cells[i]
            &&& final(store)@.repaints.len() == old(store)@.repaints.len() + 1
            &&& final(store)@.repaints.last() == handle.rerender()
            &&& final(store)@.repaints.drop_last() == old(store)@.repaints
            &&& final(store)@.id == old(store)@.id
        },
{
    if let Err(error) = out {
        assert(error is DuringRender || error is SnapHeld);
        if error is SnapHeld {
            law_pointers_are_asked(old(store)@.cells[handle.cell().index()].value, false);
        }
    } else {
        law_pointers_are_asked(old(store)@.cells[handle.cell().index()].value, true);
        assert(final(store)@.repaints.drop_last() =~= old(store)@.repaints);
    }
}

/// What is read of a cell after an update is what the update left in it, through whichever
/// handle it is read.
pub proof fn law_read_after_update<V: 'static, F: FnOnce(&mut V), R, G: FnOnce(&V) -> R>(
    handle: &MutableState<V>,
    store: &mut Store<V>,
    f: F,
    other: &MutableState<V>,
    after: &Store<V>,
    g: G,
    out: R,
)
    requires
        call_ensures(
            MutableState::<V>::update::<F>,
            (handle, store, f),
            Ok::<(), UpdateError>(()),
        ),
        call_ensures(MutableState::<V>::with::<R, G>, (other, after, g), out),
        0 <= handle.cell().index() < old(store)@.cells.len(),
        other.cell() == handle.cell(),
        after@ == final(store)@,
    ensures
        exists|m: &mut V| #[trigger]
            call_ensures(f, (m,), ()) && *m == old(store)@.cells[handle.cell().index()].value
                && call_ensures(g, (&*final(m),), out),
{
    law_update(handle, store, f, Ok(()), 0);
}

/// What became of an update or a commit follows from the pointer: with a value at hand `f`
/// runs on it and its result is handed out; without one the refusal is `SnapHeld` and
/// nothing changes.
pub proof fn law_settling<V, X, R, F: FnOnce(&mut V) -> R, G: FnOnce(&mut V, &mut X) -> R>(
    f: F,
    refused: Result<R, UpdateError>,
    staged: &mut X,
    g: G,
    kept: Result<R, UpdateError>,
    value: &mut V,
    h: F,
    done: Result<R, UpdateError>,
    current: &mut V,
    buffer: &mut X,
    k: G,
    folded: Result<R, UpdateError>,
)
    requires
        call_ensures(settle_update::<V, R, F>, (None, f), refused),
        call_ensures(settle_commit::<V, X, R, G>, (None, staged, g), kept),
        call_ensures(settle_update::<V, R, F>, (Some(value), h), done),
        call_ensures(settle_commit::<V, X, R, G>, (Some(current), buffer, k), folded),
    ensures
        refused == Err::<R, UpdateError>(UpdateError::SnapHeld),
        kept == Err::<R, UpdateError>(UpdateError::SnapHeld),
        *final(staged) == *old(staged),
        done matches Ok(r) && exists|m: &mut V| #[trigger]
            call_ensures(h, (m,), r) && *m == *old(value) && *final(m) == *final(value),
        folded matches Ok(r) && exists|m: &mut V, x: &mut X| #[trigger]
            call_ensures(k, (m, x), r) && *m == *old(current) && *final(m) == *final(current)
                && *x == *old(buffer) && *final(x) == *final(buffer),
{
}

} // verus!
