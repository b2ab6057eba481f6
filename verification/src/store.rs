//! The writable side: cells, the store that owns them, and the handles that write them.
//!
//! A `Store<V>` owns cells, each holding its value as an immutable snapshot. A
//! `MutableState<V>` is the one writable handle to a cell; every read-only `State` over
//! the store ultimately derives from one. An update mutates the snapshot in place, which
//! is possible while nobody else holds it, and queues one repaint.
use std::marker::PhantomData;
use std::rc::Rc;
use vstd::prelude::*;

use crate::cell::{CellView, ReCell};
use crate::graphics::Layer;
use crate::snap::Snap;
use crate::state::{Held, ReadSource, Shown, State};

verus! {

/// What an update asks to be painted again.
#[derive(Clone, Copy, Debug, PartialEq, Eq, Structural)]
pub enum Repaint {
    /// Mark a layer dirty.
    Layer(Layer),
    /// Run the view of the screen with this window id against its current state, if its
    /// layers are built.
    View(u8),
    /// Run a trigger of the caller's own, which the caller knows by this token.
    Own(u64),
}

/// Why an update did nothing.
#[derive(Clone, Copy, Debug, PartialEq, Eq, Structural)]
pub enum UpdateError {
    /// The cell is borrowed: the update came from within a draw or a read.
    DuringRender,
    /// A snapshot of the current value is still alive.
    SnapHeld,
}

/// A cell of a `Store<V>`, shared between a screen and its layers.
pub struct Shared<V> {
    index: usize,
    of: PhantomData<V>,
    store: Ghost<int>,
}

impl<V> Shared<V> {
    /// The position of the cell in its store.
    pub closed spec fn index(&self) -> int {
        self.index as int
    }

    /// Which store the cell belongs to.
    pub closed spec fn store(&self) -> int {
        self.store@
    }
}

impl<V> Clone for Shared<V> {
    fn clone(&self) -> (copy: Self)
        ensures
            copy == *self,
    {
        Shared { index: self.index, of: PhantomData, store: self.store }
    }
}

/// The owner of the cells, and the queue of repaints that their updates asked for.
pub struct Store<V> {
    cells: Vec<ReCell<Rc<V>>>,
    repaints: Vec<Repaint>,
    id: Ghost<int>,
}

/// What a store holds.
#[verifier::ext_equal]
pub struct StoreView<V> {
    pub cells: Seq<CellView<V>>,
    pub repaints: Seq<Repaint>,
    /// Which store it is. Nothing is said of the id of a new store, so a cell is known to
    /// belong to the store that it was added to, and to no other.
    pub id: int,
}

impl<V> StoreView<V> {
    /// `cell` is a cell of this store.
    pub open spec fn holds(self, cell: Shared<V>) -> bool {
        cell.store() == self.id && 0 <= cell.index() < self.cells.len()
    }

    /// The cell behind a handle.
    pub open spec fn at(self, cell: Shared<V>) -> CellView<V> {
        self.cells[cell.index()]
    }

    /// The store with one cell replaced.
    pub open spec fn with_cell(self, cell: Shared<V>, to: CellView<V>) -> StoreView<V> {
        StoreView { cells: self.cells.update(cell.index(), to), ..self }
    }

    /// The store after an update wrote `value` to a cell and asked for a repaint.
    pub open spec fn updated(self, cell: Shared<V>, value: V, rerender: Repaint) -> StoreView<V> {
        StoreView {
            cells: self.cells.update(cell.index(), self.at(cell).free_with(value)),
            repaints: self.repaints.push(rerender),
            ..self
        }
    }

    /// The store without the pending runs of the view of a screen.
    pub open spec fn without_view(self, window_id: u8) -> StoreView<V> {
        StoreView {
            repaints: self.repaints.filter(|r: Repaint| r != Repaint::View(window_id)),
            ..self
        }
    }
}

impl<V> View for Store<V> {
    type V = StoreView<V>;

    closed spec fn view(&self) -> StoreView<V> {
        StoreView {
            cells: self.cells@.map_values(
                |cell: ReCell<Rc<V>>| CellView { value: *cell@.value, borrow: cell@.borrow },
            ),
            repaints: self.repaints@,
            id: self.id@,
        }
    }
}

/// `Rc::get_mut`: a mutable reference to the shared value if this is the only pointer to
/// it, and `None`, with the value untouched, otherwise. Which of the two comes back
/// depends on how many other pointers to the allocation are alive, which is not part of
/// the value of an `Rc` and is left unsaid.
#[verifier::external_body]
fn unique_mut<V>(root: &mut Rc<V>) -> (unique: Option<&mut V>)
    ensures
        match unique {
            Some(value) => *value == **old(root) && **final(root) == *final(value),
            None => *final(root) == *old(root),
        },
{
    Rc::get_mut(root)
}

/// A call that asks whether a pointer to `value` is the only one may answer so. Nothing but
/// such a call shows it.
pub closed spec fn pointer_found<V>(value: V, unique: bool) -> bool {
    exists|root: &mut Rc<V>, answer: Option<&mut V>| #[trigger]
        call_ensures(unique_mut::<V>, (root,), answer) && **root == value && (answer is Some)
            == unique
}

/// A pointer to `value` was asked, and it was the only one.
pub closed spec fn found_unique<V>(value: V) -> bool {
    exists|root: &mut Rc<V>, answer: Option<&mut V>| #[trigger]
        call_ensures(unique_mut::<V>, (root,), answer) && **root == value && answer is Some
}

/// A pointer to `value` was asked, and it was not the only one.
pub closed spec fn found_shared<V>(value: V) -> bool {
    exists|root: &mut Rc<V>, answer: Option<&mut V>| #[trigger]
        call_ensures(unique_mut::<V>, (root,), answer) && **root == value && answer is None
}

/// What was found of a pointer is what it answered when it was asked.
pub proof fn law_pointers_are_asked<V>(value: V, unique: bool)
    requires
        pointer_found(value, unique),
    ensures
        unique ==> found_unique(value),
        !unique ==> found_shared(value),
{
    let (root, answer) = choose|root: &mut Rc<V>, answer: Option<&mut V>| #[trigger]
        call_ensures(unique_mut::<V>, (root,), answer) && **root == value && (answer is Some)
            == unique;
    assert(call_ensures(unique_mut::<V>, (root,), answer));
}

/// Run an update on the value behind a snapshot pointer: `f` runs if the pointer is
/// unique, and a pointer that is not unique is refused.
pub fn settle_update<V, R, F: FnOnce(&mut V) -> R>(unique: Option<&mut V>, f: F) -> (out: Result<
    R,
    UpdateError,
>)
    requires
        unique matches Some(value) ==> forall|m: &mut V|
            *m == *value ==> #[trigger] call_requires(f, (m,)),
    ensures
        match unique {
            Some(value) => out matches Ok(r) && exists|m: &mut V| #[trigger]
                call_ensures(f, (m,), r) && *m == *value && *final(m) == *final(value),
            None => out == Err::<R, UpdateError>(UpdateError::SnapHeld),
        },
{
    match unique {
        Some(value) => {
            let r: R = f(value);
            assert(exists|m: &mut V| #[trigger]
                call_ensures(f, (m,), r) && *m == *(unique->0) && *final(m) == *final(unique->0));
            let out: Result<R, UpdateError> = Ok(r);
            assert(out->Ok_0 == r);
            out
        },
        None => Err(UpdateError::SnapHeld),
    }
}

/// Fold a staging buffer into the value behind a snapshot pointer: `f` runs if the pointer
/// is unique; a pointer that is not unique is refused, and the buffer kept.
pub fn settle_commit<V, X, R, F: FnOnce(&mut V, &mut X) -> R>(
    unique: Option<&mut V>,
    staged: &mut X,
    f: F,
) -> (out: Result<R, UpdateError>)
    requires
        unique matches Some(value) ==> forall|m: &mut V, x: &mut X|
            *m == *value && *x == *old(staged) ==> #[trigger] call_requires(f, (m, x)),
    ensures
        match unique {
            Some(value) => out matches Ok(r) && exists|m: &mut V, x: &mut X| #[trigger]
                call_ensures(f, (m, x), r) && *m == *value && *final(m) == *final(value) && *x
                    == *old(staged) && *final(x) == *final(staged),
            None => out == Err::<R, UpdateError>(UpdateError::SnapHeld) && *final(staged) == *old(
                staged,
            ),
        },
{
    match unique {
        Some(value) => {
            let r: R = f(value, staged);
            assert(exists|m: &mut V, x: &mut X| #[trigger]
                call_ensures(f, (m, x), r) && *m == *(unique->0) && *final(m) == *final(unique->0)
                    && *x == *old(staged) && *final(x) == *staged);
            let out: Result<R, UpdateError> = Ok(r);
            assert(out->Ok_0 == r);
            out
        },
        None => Err(UpdateError::SnapHeld),
    }
}

impl<V> Store<V> {
    /// A store without cells.
    pub fn new() -> (store: Self)
        ensures
            store@.cells.len() == 0,
            store@.repaints.len() == 0,
    {
        Store { cells: Vec::new(), repaints: Vec::new(), id: Ghost(arbitrary()) }
    }

    /// Add a cell.
    pub fn share(&mut self, initial: V) -> (cell: Shared<V>)
        ensures
            cell.index() == old(self)@.cells.len(),
            cell.store() == old(self)@.id,
            final(self)@ == (StoreView {
                cells: old(self)@.cells.push(CellView { value: initial, borrow: 0 }),
                ..old(self)@
            }),
    {
        let index: usize = self.cells.len();
        self.cells.push(ReCell::new(Rc::new(initial)));
        Shared { index, of: PhantomData, store: self.id }
    }

    /// Take the repaints that were asked for since the last call, oldest first.
    pub fn take_repaints(&mut self) -> (taken: Vec<Repaint>)
        ensures
            taken@ == old(self)@.repaints,
            final(self)@ == (StoreView { repaints: Seq::empty(), ..old(self)@ }),
    {
        let mut taken: Vec<Repaint> = Vec::new();
        std::mem::swap(&mut taken, &mut self.repaints);
        taken
    }

    /// Ask for a repaint.
    pub(crate) fn ask_repaint(&mut self, rerender: Repaint)
        ensures
            final(self)@ == (StoreView {
                repaints: old(self)@.repaints.push(rerender),
                ..old(self)@
            }),
    {
        self.repaints.push(rerender);
    }

    /// Drop the pending runs of the view of a screen.
    pub(crate) fn drop_view(&mut self, window_id: u8)
        ensures
            final(self)@ == old(self)@.without_view(window_id),
    {
        let mut kept: Vec<Repaint> = Vec::new();
        let mut i: usize = 0;
        while i < self.repaints.len()
            invariant
                i <= self.repaints.len(),
                self == old(self),
                kept@ == self.repaints@.take(i as int).filter(
                    |r: Repaint| r != Repaint::View(window_id),
                ),
            decreases self.repaints.len() - i,
        {
            let repaint = self.repaints[i];
            proof {
                reveal(Seq::filter);
                assert(self.repaints@.take(i + 1).drop_last() =~= self.repaints@.take(i as int));
            }
            if repaint != Repaint::View(window_id) {
                kept.push(repaint);
            }
            i += 1;
        }
        assert(self.repaints@.take(i as int) =~= self.repaints@);
        self.repaints = kept;
    }

    /// Mutate a cell in place, without asking for a repaint.
    pub(crate) fn write<R, F: FnOnce(&mut V) -> R>(&mut self, cell: &Shared<V>, f: F) -> (out: Result<
        R,
        UpdateError,
    >)
        requires
            old(self)@.holds(*cell),
            forall|m: &mut V| *m == old(self)@.at(*cell).value ==> #[trigger] call_requires(f, (m,)),
        ensures
            out == Err::<R, UpdateError>(UpdateError::DuringRender) <==> !old(self)@.at(*cell).is_free(),
            old(self)@.at(*cell).is_free() ==> pointer_found(old(self)@.at(*cell).value, out is Ok),
            out is Err ==> final(self)@ == old(self)@,
            out matches Ok(r) ==> exists|m: &mut V| #[trigger]
                call_ensures(f, (m,), r) && *m == old(self)@.at(*cell).value && final(self)@
                    == old(self)@.with_cell(*cell, old(self)@.at(*cell).free_with(*final(m))),
    {
        let slot: &mut ReCell<Rc<V>> = &mut self.cells[cell.index];
        match slot.try_borrow_mut() {
            Some(guard) => {
                let root: &mut Rc<V> = guard.deref_mut(slot);
                let unique = unique_mut(root);
                assert(pointer_found(old(self)@.at(*cell).value, unique is Some));
                let out = settle_update(unique, f);
                guard.release(slot);
                out
            },
            None => Err(UpdateError::DuringRender),
        }
    }

    /// Mutate a cell in place together with a staging buffer, without asking for a
    /// repaint.
    pub(crate) fn write_staged<X, R, F: FnOnce(&mut V, &mut X) -> R>(
        &mut self,
        cell: &Shared<V>,
        staged: &mut X,
        f: F,
    ) -> (out: Result<R, UpdateError>)
        requires
            old(self)@.holds(*cell),
            forall|m: &mut V, x: &mut X|
                *m == old(self)@.at(*cell).value && *x == *old(staged) ==> #[trigger] call_requires(
                    f,
                    (m, x),
                ),
        ensures
            out == Err::<R, UpdateError>(UpdateError::DuringRender) <==> !old(self)@.at(*cell).is_free(),
            old(self)@.at(*cell).is_free() ==> pointer_found(old(self)@.at(*cell).value, out is Ok),
            out is Err ==> final(self)@ == old(self)@ && *final(staged) == *old(staged),
            out matches Ok(r) ==> exists|m: &mut V, x: &mut X| #[trigger]
                call_ensures(f, (m, x), r) && *m == old(self)@.at(*cell).value && *x == *old(staged)
                    && *final(x) == *final(staged) && final(self)@ == old(self)@.with_cell(
                    *cell,
                    old(self)@.at(*cell).free_with(*final(m)),
                ),
    {
        let slot: &mut ReCell<Rc<V>> = &mut self.cells[cell.index];
        match slot.try_borrow_mut() {
            Some(guard) => {
                let root: &mut Rc<V> = guard.deref_mut(slot);
                let unique = unique_mut(root);
                assert(pointer_found(old(self)@.at(*cell).value, unique is Some));
                let out = settle_commit(unique, staged, f);
                guard.release(slot);
                out
            },
            None => Err(UpdateError::DuringRender),
        }
    }
}

/// A shared borrow of a cell, until it is released.
pub struct ReadGuard<V> {
    cell: Shared<V>,
}

impl<V> ReadGuard<V> {
    /// The borrowed cell.
    pub closed spec fn cell(&self) -> Shared<V> {
        self.cell
    }

    /// The borrowed value.
    pub fn deref<'a>(&'a self, store: &'a Store<V>) -> (value: &'a V)
        requires
            store@.holds(self.cell()),
            store@.at(self.cell()).borrow > 0,
        ensures
            *value == store@.at(self.cell()).value,
    {
        store.cells[self.cell.index].peek()
    }

    /// Hand the borrow back.
    pub fn release(self, store: &mut Store<V>)
        requires
            old(store)@.holds(self.cell()),
            old(store)@.at(self.cell()).borrow > 0,
        ensures
            final(store)@ == old(store)@.with_cell(
                self.cell(),
                old(store)@.at(self.cell()).shared_once_less(),
            ),
    {
        store.cells[self.cell.index].discount_reader();
    }
}

/// The writable handle to a cell: the source of truth that every read-only `State`
/// derives from.
pub struct MutableState<V> {
    cell: Shared<V>,
    rerender: Repaint,
}

/// `state` is a read-only view of a cell: it shows the current value and leaves the store
/// alone. While its value is held the cell stays borrowed.
pub open spec fn views_cell<V>(state: State<Store<V>, V>, cell: Shared<V>) -> bool {
    &&& forall|pre: Store<V>| #[trigger]
        state.readable(pre) <==> pre@.holds(cell) && pre@.at(cell).is_readable()
    &&& forall|pre: Store<V>, value: V, post: Store<V>| #[trigger]
        state.reads(pre, value, post) <==> value == pre@.at(cell).value && post == pre
    &&& forall|pre: Store<V>, snap: Snap<V>, post: Store<V>| #[trigger]
        state.snaps(pre, snap, post) <==> snap.shows(&pre@.at(cell).value) && post == pre
    &&& forall|pre: Store<V>| #[trigger]
        state.can_hold(pre) <==> pre@.holds(cell) && pre@.at(cell).is_readable() && pre@.at(
            cell,
        ).borrow < isize::MAX
    &&& forall|pre: Store<V>, value: V, mid: Store<V>| #[trigger]
        state.holds(pre, value, mid) <==> value == pre@.at(cell).value && mid@ == pre@.with_cell(
            cell,
            pre@.at(cell).shared_once_more(),
        )
    &&& forall|mid: Store<V>| #[trigger]
        state.can_release(mid) <==> mid@.holds(cell) && mid@.at(cell).borrow > 0
    &&& forall|mid: Store<V>, post: Store<V>| #[trigger]
        state.releases(mid, post) <==> post@ == mid@.with_cell(
            cell,
            mid@.at(cell).shared_once_less(),
        )
    &&& state.keeps() == 0
}

impl<V> MutableState<V> {
    /// The cell that the handle writes.
    pub closed spec fn cell(&self) -> Shared<V> {
        self.cell
    }

    /// What an update through the handle repaints.
    pub closed spec fn rerender(&self) -> Repaint {
        self.rerender
    }
}

impl<V> Clone for MutableState<V> {
    fn clone(&self) -> (copy: Self)
        ensures
            copy == *self,
    {
        MutableState { cell: self.cell.clone(), rerender: self.rerender }
    }
}

impl<V: 'static> MutableState<V> {
    /// Build a cell with an explicit repaint trigger.
    pub fn new(store: &mut Store<V>, initial: V, rerender: Repaint) -> (state: Self)
        ensures
            state.cell().index() == old(store)@.cells.len(),
            state.cell().store() == old(store)@.id,
            state.rerender() == rerender,
            final(store)@ == (StoreView {
                cells: old(store)@.cells.push(CellView { value: initial, borrow: 0 }),
                ..old(store)@
            }),
    {
        MutableState { cell: store.share(initial), rerender }
    }

    /// Wrap an existing shared cell with a repaint trigger.
    pub fn from_shared(cell: Shared<V>, rerender: Repaint) -> (state: Self)
        ensures
            state.cell() == cell,
            state.rerender() == rerender,
    {
        MutableState { cell, rerender }
    }

    /// Layer-local state: updates repaint `layer`.
    pub fn for_layer(store: &mut Store<V>, layer: Layer, initial: V) -> (state: Self)
        ensures
            state.cell().index() == old(store)@.cells.len(),
            state.cell().store() == old(store)@.id,
            state.rerender() == Repaint::Layer(layer),
            final(store)@ == (StoreView {
                cells: old(store)@.cells.push(CellView { value: initial, borrow: 0 }),
                ..old(store)@
            }),
    {
        MutableState::new(store, initial, Repaint::Layer(layer))
    }

    /// Read the value for the duration of `f` and return the result of `f`.
    pub fn with<R, F: FnOnce(&V) -> R>(&self, store: &Store<V>, f: F) -> (out: R)
        requires
            store@.holds(self.cell()),
            store@.at(self.cell()).is_readable(),
            call_requires(f, (&store@.at(self.cell()).value,)),
        ensures
            call_ensures(f, (&store@.at(self.cell()).value,), out),
    {
        f(store.cells[self.cell.index].peek())
    }

    /// Borrow the value until the guard is released.
    pub fn read(&self, store: &mut Store<V>) -> (guard: ReadGuard<V>)
        requires
            old(store)@.holds(self.cell()),
            old(store)@.at(self.cell()).is_readable(),
            old(store)@.at(self.cell()).borrow < isize::MAX,
        ensures
            guard.cell() == self.cell(),
            final(store)@ == old(store)@.with_cell(
                self.cell(),
                old(store)@.at(self.cell()).shared_once_more(),
            ),
    {
        store.cells[self.cell.index].count_reader();
        ReadGuard { cell: self.cell.clone() }
    }

    /// The current immutable snapshot. While it is held the cell cannot be updated.
    pub fn snapshot(&self, store: &Store<V>) -> (root: Rc<V>)
        requires
            store@.holds(self.cell()),
            store@.at(self.cell()).is_readable(),
        ensures
            *root == store@.at(self.cell()).value,
    {
        store.cells[self.cell.index].peek().clone()
    }

    /// Mutate the value in place and ask for a repaint.
    ///
    /// An update is refused, and changes nothing, while the cell is borrowed, and while a
    /// snapshot of the current value is held. On a free cell the pointer to the value alone
    /// decides: the update runs exactly when the pointer is found to be the only one.
    pub fn update<F: FnOnce(&mut V)>(&self, store: &mut Store<V>, f: F) -> (out: Result<
        (),
        UpdateError,
    >)
        requires
            old(store)@.holds(self.cell()),
            forall|m: &mut V|
                *m == old(store)@.at(self.cell()).value ==> #[trigger] call_requires(f, (m,)),
        ensures
            out == Err::<(), UpdateError>(UpdateError::DuringRender) <==> !old(store)@.at(
                self.cell(),
            ).is_free(),
            old(store)@.at(self.cell()).is_free() ==> pointer_found(
                old(store)@.at(self.cell()).value,
                out is Ok,
            ),
            out is Err ==> final(store)@ == old(store)@,
            out is Ok ==> exists|m: &mut V| #[trigger]
                call_ensures(f, (m,), ()) && *m == old(store)@.at(self.cell()).value
                    && final(store)@ == old(store)@.updated(
                    self.cell(),
                    *final(m),
                    self.rerender(),
                ),
    {
        let out = store.write(&self.cell, f);
        if out.is_ok() {
            store.ask_repaint(self.rerender);
        }
        out
    }

    /// A read-only view of the cell.
    pub fn as_state(&self) -> (state: State<Store<V>, V>)
        ensures
            views_cell(state, self.cell()),
    {
        State::from_source(CellSrc { cell: self.cell.clone() })
    }

    /// Zero-copy lens onto the cell.
    pub fn focus<U: 'static, F: Fn(&V) -> &U + 'static>(&self, f: F) -> (state: State<Store<V>, U>)
        ensures
            exists|base: State<Store<V>, V>| #[trigger]
                views_cell(base, self.cell()) && state.is_focus(base, f),
    {
        self.as_state().focus(f)
    }

    /// Build an owned value from a snapshot of the cell.
    pub fn map<U: 'static, F: Fn(&Snap<V>) -> U + 'static>(&self, f: F) -> (state: State<
        Store<V>,
        U,
    >)
        ensures
            exists|base: State<Store<V>, V>| #[trigger]
                views_cell(base, self.cell()) && state.is_map(base, f),
    {
        self.as_state().map(f)
    }
}

impl<V: 'static> From<MutableState<V>> for State<Store<V>, V> {
    fn from(m: MutableState<V>) -> (state: Self)
        ensures
            views_cell(state, m.cell()),
    {
        m.as_state()
    }
}

impl<V: 'static> vstd::std_specs::convert::FromSpecImpl<MutableState<V>> for State<Store<V>, V> {
    open spec fn obeys_from_spec() -> bool {
        false
    }

    open spec fn from_spec(m: MutableState<V>) -> Self {
        arbitrary()
    }
}

impl<'a, V: 'static> From<&'a MutableState<V>> for State<Store<V>, V> {
    fn from(m: &'a MutableState<V>) -> (state: Self)
        ensures
            views_cell(state, m.cell()),
    {
        m.as_state()
    }
}

impl<'a, V: 'static> vstd::std_specs::convert::FromSpecImpl<&'a MutableState<V>> for State<Store<V>, V> {
    open spec fn obeys_from_spec() -> bool {
        false
    }

    open spec fn from_spec(m: &'a MutableState<V>) -> Self {
        arbitrary()
    }
}

/// A cell, read-only: the root that every derived state grows from.
struct CellSrc<V> {
    cell: Shared<V>,
}

impl<V> ReadSource<Store<V>, V> for CellSrc<V> {
    closed spec fn readable(&self, pre: Store<V>) -> bool {
        pre@.holds(self.cell) && pre@.at(self.cell).is_readable()
    }

    closed spec fn reads(&self, pre: Store<V>, value: V, post: Store<V>) -> bool {
        value == pre@.at(self.cell).value && post == pre
    }

    closed spec fn snaps(&self, pre: Store<V>, snap: Snap<V>, post: Store<V>) -> bool {
        snap.shows(&pre@.at(self.cell).value) && post == pre
    }

    closed spec fn can_hold(&self, pre: Store<V>) -> bool {
        pre@.holds(self.cell) && pre@.at(self.cell).is_readable() && pre@.at(self.cell).borrow
            < isize::MAX
    }

    closed spec fn holds(&self, pre: Store<V>, value: V, mid: Store<V>) -> bool {
        value == pre@.at(self.cell).value && mid@ == pre@.with_cell(
            self.cell,
            pre@.at(self.cell).shared_once_more(),
        )
    }

    closed spec fn keeps(&self) -> nat {
        0
    }

    closed spec fn can_release(&self, mid: Store<V>) -> bool {
        mid@.holds(self.cell) && mid@.at(self.cell).borrow > 0
    }

    closed spec fn releases(&self, mid: Store<V>, post: Store<V>) -> bool {
        post@ == mid@.with_cell(self.cell, mid@.at(self.cell).shared_once_less())
    }

    fn hold(&self, world: &mut Store<V>) -> (held: Held<V>) {
        let root = world.cells[self.cell.index].peek().clone();
        world.cells[self.cell.index].count_reader();
        assert(world@ =~= old(world)@.with_cell(
            self.cell,
            old(world)@.at(self.cell).shared_once_more(),
        ));
        Held::of(Snap::whole(root))
    }

    fn release(&self, world: &mut Store<V>) {
        world.cells[self.cell.index].discount_reader();
        assert(world@ =~= old(world)@.with_cell(
            self.cell,
            old(world)@.at(self.cell).shared_once_less(),
        ));
    }

    fn read<'a>(&'a self, world: &'a mut Store<V>) -> (shown: Shown<'a, V>) {
        Shown::Here(world.cells[self.cell.index].peek())
    }

    fn snapshot(&self, world: &mut Store<V>) -> (snap: Snap<V>) {
        Snap::whole(world.cells[self.cell.index].peek().clone())
    }
}

} // verus!
