//! Read-only reactive values.
//!
//! One currency flows through every layer: a `State<W, T>`, a cheap, clonable handle to a
//! readable value of type `T`. What it reads lives in a world `W` (see `store`), which is
//! handed to each read, so a read always pulls the current value and never owns a copy.
//!
//! There are three ways to read. A scoped read projects in place: through lenses it borrows
//! what is already there and allocates nothing. A snapshot is a pointer that outlives the
//! read. And a value can be held while the world goes on: what it was read from stays
//! borrowed, or pinned by a snapshot, until it is released.
//!
//! The meaning of a handle is a pair of relations over worlds: `reads(pre, value, post)`
//! holds where a read in `pre` may show `value` and leave the world as `post`, and
//! `snaps(pre, snap, post)` where a snapshot may come out as `snap`. Most handles leave the
//! world alone; the animated ones keep their books in it.
use std::rc::Rc;
use vstd::prelude::*;

pub use crate::snap::Snap;
pub use crate::store::MutableState;

verus! {

/// What a scoped read shows.
#[verifier::reject_recursive_types(T)]
pub enum Shown<'a, T> {
    /// A value that was there already.
    Here(&'a T),
    /// A value that was built for the read.
    Built(T),
    /// A piece of a value that was built for the read.
    Part(Snap<T>),
}

impl<'a, T> Shown<'a, T> {
    /// An access may show `value`.
    pub open spec fn points_to(&self, value: &T) -> bool {
        match *self {
            Shown::Here(here) => *value == *here,
            Shown::Built(built) => *value == built,
            Shown::Part(part) => part.points_to(value),
        }
    }

    /// The value that is shown.
    pub fn get(&self) -> (value: &T)
        ensures
            self.points_to(value),
    {
        match self {
            Shown::Here(here) => *here,
            Shown::Built(built) => built,
            Shown::Part(part) => part.get(),
        }
    }
}

/// Something that is kept alive.
trait Keep {

}

impl<T: ?Sized> Keep for Snap<T> {

}

/// A snapshot that is kept alive.
#[allow(dead_code)]
struct Pin {
    kept: Box<dyn Keep>,
}

impl Pin {
    /// Keep a snapshot alive.
    fn of<A: 'static>(snap: Snap<A>) -> Pin {
        Pin { kept: Box::new(snap) }
    }
}

/// A value that is held while the world goes on.
#[verifier::reject_recursive_types(T)]
pub struct Held<T> {
    shown: Snap<T>,
    pins: Vec<Pin>,
}

impl<T> Held<T> {
    /// An access may show `value`.
    pub closed spec fn points_to(&self, value: &T) -> bool {
        self.shown.points_to(value)
    }

    /// How many snapshots of other values are kept alive with the value.
    pub closed spec fn keeps(&self) -> nat {
        self.pins@.len()
    }

    /// Hold what a snapshot shows.
    pub fn of(shown: Snap<T>) -> (held: Held<T>)
        ensures
            forall|value: T| #[trigger] held.points_to(&value) <==> shown.points_to(&value),
            held.keeps() == 0,
    {
        Held { shown, pins: Vec::new() }
    }

    /// The value that is held.
    pub fn get(&self) -> (value: &T)
        ensures
            self.points_to(value),
    {
        self.shown.get()
    }

    /// Keep a snapshot alive for as long as the value is held.
    pub fn pinning<A: 'static>(self, snap: Snap<A>) -> (held: Held<T>)
        ensures
            forall|value: T| #[trigger] held.points_to(&value) <==> self.points_to(&value),
            held.keeps() == self.keeps() + 1,
    {
        let mut pins = self.pins;
        pins.push(Pin::of(snap));
        Held { shown: self.shown, pins }
    }
}

/// The backing of a `State<W, T>`.
pub trait ReadSource<W, T> {
    /// A read in `pre` stays within what the projections and builders on its way accept.
    spec fn readable(&self, pre: W) -> bool;

    /// A read in `pre` may show `value` and leave `post`.
    spec fn reads(&self, pre: W, value: T, post: W) -> bool;

    /// A snapshot in `pre` may come out as `snap` and leave `post`.
    spec fn snaps(&self, pre: W, snap: Snap<T>, post: W) -> bool;

    /// The value can be held in `pre`.
    spec fn can_hold(&self, pre: W) -> bool;

    /// Holding the value in `pre` may show `value` and leave `mid`.
    spec fn holds(&self, pre: W, value: T, mid: W) -> bool;

    /// A value that is held can be released in `mid`.
    spec fn can_release(&self, mid: W) -> bool;

    /// Releasing a value that is held in `mid` leaves `post`.
    spec fn releases(&self, mid: W, post: W) -> bool;

    /// How many snapshots that the value is built from are kept alive while it is held.
    spec fn keeps(&self) -> nat;

    /// Read the value in place.
    fn read<'a>(&'a self, world: &'a mut W) -> (shown: Shown<'a, T>)
        requires
            self.readable(*old(world)),
        ensures
            forall|value: T| #[trigger]
                shown.points_to(&value) ==> self.reads(*old(world), value, *final(world)),
    ;

    /// Hold the value until it is released.
    fn hold(&self, world: &mut W) -> (held: Held<T>)
        requires
            self.can_hold(*old(world)),
        ensures
            forall|value: T| #[trigger]
                held.points_to(&value) ==> self.holds(*old(world), value, *final(world)),
            held.keeps() == self.keeps(),
    ;

    /// Hand back what holding the value borrowed.
    fn release(&self, world: &mut W)
        requires
            self.can_release(*old(world)),
        ensures
            self.releases(*old(world), *final(world)),
    ;

    /// Materialize a stable snapshot of the value. It shows what a read shows.
    fn snapshot(&self, world: &mut W) -> (snap: Snap<T>)
        requires
            self.readable(*old(world)),
        ensures
            self.snaps(*old(world), snap, *final(world)),
            forall|value: T| #[trigger]
                snap.points_to(&value) ==> self.reads(*old(world), value, *final(world)),
    ;
}

/// An erased source.
#[verifier::reject_recursive_types(W)]
#[verifier::reject_recursive_types(T)]
struct Source<W, T> {
    read: Box<dyn ReadSource<W, T>>,
}

/// A source as it is erased.
struct Erased<S> {
    source: S,
}

impl<W, T, S: ReadSource<W, T>> ReadSource<W, T> for Erased<S> {
    closed spec fn readable(&self, pre: W) -> bool {
        self.source.readable(pre)
    }

    closed spec fn reads(&self, pre: W, value: T, post: W) -> bool {
        self.source.reads(pre, value, post)
    }

    closed spec fn snaps(&self, pre: W, snap: Snap<T>, post: W) -> bool {
        self.source.snaps(pre, snap, post)
    }

    closed spec fn can_hold(&self, pre: W) -> bool {
        self.source.can_hold(pre)
    }

    closed spec fn holds(&self, pre: W, value: T, mid: W) -> bool {
        self.source.holds(pre, value, mid)
    }

    closed spec fn keeps(&self) -> nat {
        self.source.keeps()
    }

    closed spec fn can_release(&self, mid: W) -> bool {
        self.source.can_release(mid)
    }

    closed spec fn releases(&self, mid: W, post: W) -> bool {
        self.source.releases(mid, post)
    }

    fn read<'a>(&'a self, world: &'a mut W) -> (shown: Shown<'a, T>) {
        self.source.read(world)
    }

    fn hold(&self, world: &mut W) -> (held: Held<T>) {
        self.source.hold(world)
    }

    fn release(&self, world: &mut W) {
        self.source.release(world)
    }

    fn snapshot(&self, world: &mut W) -> (snap: Snap<T>) {
        self.source.snapshot(world)
    }
}

/// A clonable, read-only handle to a reactive value. Cloning bumps one refcount; the value
/// is never copied.
#[verifier::reject_recursive_types(W)]
#[verifier::reject_recursive_types(T)]
pub struct State<W, T> {
    inner: Rc<Source<W, T>>,
}

impl<W, T> State<W, T> {
    /// A read in `pre` stays within what the projections and builders on its way accept.
    pub closed spec fn readable(&self, pre: W) -> bool {
        self.inner.read.readable(pre)
    }

    /// A read in `pre` may show `value` and leave `post`.
    pub closed spec fn reads(&self, pre: W, value: T, post: W) -> bool {
        self.inner.read.reads(pre, value, post)
    }

    /// A snapshot in `pre` may come out as `snap` and leave `post`.
    pub closed spec fn snaps(&self, pre: W, snap: Snap<T>, post: W) -> bool {
        self.inner.read.snaps(pre, snap, post)
    }

    /// The value can be held in `pre`.
    pub closed spec fn can_hold(&self, pre: W) -> bool {
        self.inner.read.can_hold(pre)
    }

    /// Holding the value in `pre` may show `value` and leave `mid`.
    pub closed spec fn holds(&self, pre: W, value: T, mid: W) -> bool {
        self.inner.read.holds(pre, value, mid)
    }

    /// A value that is held can be released in `mid`.
    pub closed spec fn can_release(&self, mid: W) -> bool {
        self.inner.read.can_release(mid)
    }

    /// Releasing a value that is held in `mid` leaves `post`.
    pub closed spec fn releases(&self, mid: W, post: W) -> bool {
        self.inner.read.releases(mid, post)
    }

    /// How many snapshots that the value is built from are kept alive while it is held.
    pub closed spec fn keeps(&self) -> nat {
        self.inner.read.keeps()
    }

    /// Holding the value is reading it: nothing in the world stays borrowed.
    pub open spec fn holds_by_reading(&self) -> bool {
        &&& forall|pre: W| #[trigger] self.can_hold(pre) <==> self.readable(pre)
        &&& forall|pre: W, value: T, mid: W| #[trigger]
            self.holds(pre, value, mid) <==> self.reads(pre, value, mid)
        &&& forall|mid: W| #[trigger] self.can_release(mid)
        &&& forall|mid: W, post: W| #[trigger] self.releases(mid, post) <==> post == mid
    }

    /// Reading the handle never changes the world.
    pub open spec fn is_pure(&self) -> bool {
        &&& forall|pre: W, value: T, post: W| #[trigger]
            self.reads(pre, value, post) ==> post == pre
        &&& forall|pre: W, snap: Snap<T>, post: W| #[trigger]
            self.snaps(pre, snap, post) ==> post == pre
    }

    /// A snapshot shows nothing that a read would not show.
    pub open spec fn snaps_what_it_reads(&self) -> bool {
        forall|pre: W, snap: Snap<T>, post: W, value: T|
            #![trigger self.snaps(pre, snap, post), snap.points_to(&value)]
            self.snaps(pre, snap, post) && snap.points_to(&value) ==> self.reads(pre, value, post)
    }

    /// The handle shows `value` in every world and leaves the world alone.
    pub open spec fn is_fixed(&self, value: T) -> bool {
        &&& forall|pre: W| #[trigger] self.readable(pre)
        &&& forall|pre: W, shown: T, post: W| #[trigger]
            self.reads(pre, shown, post) <==> shown == value && post == pre
        &&& forall|pre: W, snap: Snap<T>, post: W| #[trigger]
            self.snaps(pre, snap, post) <==> snap.shows(&value) && post == pre
        &&& self.holds_by_reading()
        &&& self.keeps() == 0
    }

    /// The handle is `src` seen through the lens `f`.
    pub open spec fn is_focus<A, F: Fn(&A) -> &T>(&self, src: State<W, A>, f: F) -> bool {
        &&& forall|pre: W| #[trigger]
            self.readable(pre) <==> src.readable(pre) && lens_defined(src, f, pre)
        &&& forall|pre: W, value: T, post: W| #[trigger]
            self.reads(pre, value, post) <==> focus_reads(src, f, pre, value, post)
        &&& forall|pre: W, snap: Snap<T>, post: W| #[trigger]
            self.snaps(pre, snap, post) <==> focus_snaps(src, f, pre, snap, post)
        &&& forall|pre: W| #[trigger]
            self.can_hold(pre) <==> src.can_hold(pre) && lens_holdable(src, f, pre)
        &&& forall|pre: W, value: T, mid: W| #[trigger]
            self.holds(pre, value, mid) <==> focus_holds(src, f, pre, value, mid)
        &&& forall|mid: W| #[trigger] self.can_release(mid) <==> src.can_release(mid)
        &&& forall|mid: W, post: W| #[trigger]
            self.releases(mid, post) <==> src.releases(mid, post)
        &&& self.keeps() == src.keeps()
    }

    /// The handle shows what `f` builds from a snapshot of `src`. The snapshot is kept while
    /// the value is held.
    pub open spec fn is_map<A, F: Fn(&Snap<A>) -> T>(&self, src: State<W, A>, f: F) -> bool {
        &&& forall|pre: W| #[trigger]
            self.readable(pre) <==> src.readable(pre) && builder_defined(src, f, pre)
        &&& forall|pre: W, value: T, post: W| #[trigger]
            self.reads(pre, value, post) <==> map_reads(src, f, pre, value, post)
        &&& forall|pre: W, snap: Snap<T>, post: W| #[trigger]
            self.snaps(pre, snap, post) <==> map_snaps(src, f, pre, snap, post)
        &&& self.holds_by_reading()
        &&& self.keeps() == 1
    }

    /// The handle shows what `f` builds from a snapshot of `a` and, after it, one of `b`. Both
    /// are kept while the value is held.
    pub open spec fn is_combine<A, B, F: Fn(&Snap<A>, &Snap<B>) -> T>(
        &self,
        a: State<W, A>,
        b: State<W, B>,
        f: F,
    ) -> bool {
        &&& forall|pre: W| #[trigger]
            self.readable(pre) <==> a.readable(pre) && combine_defined(a, b, f, pre)
        &&& forall|pre: W, value: T, post: W| #[trigger]
            self.reads(pre, value, post) <==> combine_reads(a, b, f, pre, value, post)
        &&& forall|pre: W, snap: Snap<T>, post: W| #[trigger]
            self.snaps(pre, snap, post) <==> combine_snaps(a, b, f, pre, snap, post)
        &&& self.holds_by_reading()
        &&& self.keeps() == 2
    }
}

/// `f` accepts whatever a read of `src` in `pre` shows.
pub open spec fn lens_defined<W, A, T, F: Fn(&A) -> &T>(
    src: State<W, A>,
    f: F,
    pre: W,
) -> bool {
    forall|a: A, post: W| #[trigger] src.reads(pre, a, post) ==> call_requires(f, (&a,))
}

/// `f` accepts whatever value of `src` is held in `pre`.
pub open spec fn lens_holdable<W, A, T, F: Fn(&A) -> &T>(src: State<W, A>, f: F, pre: W) -> bool {
    forall|a: A, mid: W| #[trigger] src.holds(pre, a, mid) ==> call_requires(f, (&a,))
}

/// Holding `src` in `pre` may leave `mid` and show a value that `f` projects to `value`.
pub open spec fn focus_holds<W, A, T, F: Fn(&A) -> &T>(
    src: State<W, A>,
    f: F,
    pre: W,
    value: T,
    mid: W,
) -> bool {
    exists|a: A| #[trigger] src.holds(pre, a, mid) && call_ensures(f, (&a,), &value)
}

/// `f` accepts whatever snapshot of `src` comes out in `pre`.
pub open spec fn builder_defined<W, A, T, F: Fn(&Snap<A>) -> T>(
    src: State<W, A>,
    f: F,
    pre: W,
) -> bool {
    forall|snap: Snap<A>, post: W| #[trigger]
        src.snaps(pre, snap, post) ==> call_requires(f, (&snap,))
}

/// A read of `src` in `pre` may leave `post` and show a value that `f` projects to `value`.
pub open spec fn focus_reads<W, A, T, F: Fn(&A) -> &T>(
    src: State<W, A>,
    f: F,
    pre: W,
    value: T,
    post: W,
) -> bool {
    exists|a: A| #[trigger] src.reads(pre, a, post) && call_ensures(f, (&a,), &value)
}

/// A snapshot of `src` in `pre` may leave `post` and come out as one that `f` narrows to
/// `snap`.
pub open spec fn focus_snaps<W, A, T, F: Fn(&A) -> &T>(
    src: State<W, A>,
    f: F,
    pre: W,
    snap: Snap<T>,
    post: W,
) -> bool {
    exists|parent: Snap<A>| #[trigger]
        src.snaps(pre, parent, post) && snap.narrows(parent, f)
}

/// A snapshot of `src` in `pre` may leave `post` and come out as one from which `f` builds
/// `value`.
pub open spec fn map_reads<W, A, T, F: Fn(&Snap<A>) -> T>(
    src: State<W, A>,
    f: F,
    pre: W,
    value: T,
    post: W,
) -> bool {
    exists|parent: Snap<A>| #[trigger]
        src.snaps(pre, parent, post) && call_ensures(f, (&parent,), value)
}

/// A snapshot of `src` in `pre` may leave `post` and come out as one from which `f` builds
/// the value that `snap` shows.
pub open spec fn map_snaps<W, A, T, F: Fn(&Snap<A>) -> T>(
    src: State<W, A>,
    f: F,
    pre: W,
    snap: Snap<T>,
    post: W,
) -> bool {
    exists|parent: Snap<A>, built: T|
        #![trigger src.snaps(pre, parent, post), snap.shows(&built)]
        src.snaps(pre, parent, post) && call_ensures(f, (&parent,), built) && snap.shows(&built)
}

/// A snapshot of `a` in `pre` is always followed by a world in which `b` is readable, and
/// `f` accepts whatever two snapshots come out.
pub open spec fn combine_defined<W, A, B, T, F: Fn(&Snap<A>, &Snap<B>) -> T>(
    a: State<W, A>,
    b: State<W, B>,
    f: F,
    pre: W,
) -> bool {
    &&& forall|snap_a: Snap<A>, mid: W| #[trigger]
        a.snaps(pre, snap_a, mid) ==> b.readable(mid)
    &&& forall|snap_a: Snap<A>, mid: W, snap_b: Snap<B>, post: W|
        #![trigger a.snaps(pre, snap_a, mid), b.snaps(mid, snap_b, post)]
        a.snaps(pre, snap_a, mid) && b.snaps(mid, snap_b, post) ==> call_requires(
            f,
            (&snap_a, &snap_b),
        )
}

/// A snapshot of `a` in `pre` and then one of `b` may leave `post` and come out as two from
/// which `f` builds `value`.
pub open spec fn combine_reads<W, A, B, T, F: Fn(&Snap<A>, &Snap<B>) -> T>(
    a: State<W, A>,
    b: State<W, B>,
    f: F,
    pre: W,
    value: T,
    post: W,
) -> bool {
    exists|snap_a: Snap<A>, mid: W, snap_b: Snap<B>|
        #![trigger a.snaps(pre, snap_a, mid), b.snaps(mid, snap_b, post)]
        a.snaps(pre, snap_a, mid) && b.snaps(mid, snap_b, post) && call_ensures(
            f,
            (&snap_a, &snap_b),
            value,
        )
}

/// A snapshot of `a` in `pre` and then one of `b` may leave `post` and come out as two from
/// which `f` builds the value that `snap` shows.
pub open spec fn combine_snaps<W, A, B, T, F: Fn(&Snap<A>, &Snap<B>) -> T>(
    a: State<W, A>,
    b: State<W, B>,
    f: F,
    pre: W,
    snap: Snap<T>,
    post: W,
) -> bool {
    exists|snap_a: Snap<A>, mid: W, snap_b: Snap<B>, built: T|
        #![trigger a.snaps(pre, snap_a, mid), b.snaps(mid, snap_b, post), snap.shows(&built)]
        a.snaps(pre, snap_a, mid) && b.snaps(mid, snap_b, post) && call_ensures(
            f,
            (&snap_a, &snap_b),
            built,
        ) && snap.shows(&built)
}

/// `state` is `src`, read from the first half of a pair of worlds.
pub open spec fn lifts_first<W, W2, T>(state: State<(W, W2), T>, src: State<W, T>) -> bool {
    &&& forall|pre: (W, W2)| #[trigger] state.readable(pre) <==> src.readable(pre.0)
    &&& forall|pre: (W, W2), value: T, post: (W, W2)| #[trigger]
        state.reads(pre, value, post) <==> src.reads(pre.0, value, post.0) && post.1 == pre.1
    &&& forall|pre: (W, W2), snap: Snap<T>, post: (W, W2)| #[trigger]
        state.snaps(pre, snap, post) <==> src.snaps(pre.0, snap, post.0) && post.1 == pre.1
    &&& forall|pre: (W, W2)| #[trigger] state.can_hold(pre) <==> src.can_hold(pre.0)
    &&& forall|pre: (W, W2), value: T, mid: (W, W2)| #[trigger]
        state.holds(pre, value, mid) <==> src.holds(pre.0, value, mid.0) && mid.1 == pre.1
    &&& forall|mid: (W, W2)| #[trigger] state.can_release(mid) <==> src.can_release(mid.0)
    &&& forall|mid: (W, W2), post: (W, W2)| #[trigger]
        state.releases(mid, post) <==> src.releases(mid.0, post.0) && post.1 == mid.1
    &&& state.keeps() == src.keeps()
}

/// `state` is `src`, read from the second half of a pair of worlds.
pub open spec fn lifts_second<W1, W, T>(state: State<(W1, W), T>, src: State<W, T>) -> bool {
    &&& forall|pre: (W1, W)| #[trigger] state.readable(pre) <==> src.readable(pre.1)
    &&& forall|pre: (W1, W), value: T, post: (W1, W)| #[trigger]
        state.reads(pre, value, post) <==> src.reads(pre.1, value, post.1) && post.0 == pre.0
    &&& forall|pre: (W1, W), snap: Snap<T>, post: (W1, W)| #[trigger]
        state.snaps(pre, snap, post) <==> src.snaps(pre.1, snap, post.1) && post.0 == pre.0
    &&& forall|pre: (W1, W)| #[trigger] state.can_hold(pre) <==> src.can_hold(pre.1)
    &&& forall|pre: (W1, W), value: T, mid: (W1, W)| #[trigger]
        state.holds(pre, value, mid) <==> src.holds(pre.1, value, mid.1) && mid.0 == pre.0
    &&& forall|mid: (W1, W)| #[trigger] state.can_release(mid) <==> src.can_release(mid.1)
    &&& forall|mid: (W1, W), post: (W1, W)| #[trigger]
        state.releases(mid, post) <==> src.releases(mid.1, post.1) && post.0 == mid.0
    &&& state.keeps() == src.keeps()
}

impl<W, T> Clone for State<W, T> {
    fn clone(&self) -> (copy: Self)
        ensures
            copy == *self,
    {
        State { inner: self.inner.clone() }
    }
}

impl<W: 'static, T: 'static> State<W, T> {
    /// A handle over any source.
    pub fn from_source<S: ReadSource<W, T> + 'static>(source: S) -> (state: State<W, T>)
        ensures
            forall|pre: W| #[trigger] state.readable(pre) <==> source.readable(pre),
            forall|pre: W, value: T, post: W| #[trigger]
                state.reads(pre, value, post) <==> source.reads(pre, value, post),
            forall|pre: W| #[trigger] state.can_hold(pre) <==> source.can_hold(pre),
            forall|pre: W, value: T, mid: W| #[trigger]
                state.holds(pre, value, mid) <==> source.holds(pre, value, mid),
            forall|mid: W| #[trigger] state.can_release(mid) <==> source.can_release(mid),
            forall|mid: W, post: W| #[trigger]
                state.releases(mid, post) <==> source.releases(mid, post),
            forall|pre: W, snap: Snap<T>, post: W| #[trigger]
                state.snaps(pre, snap, post) <==> source.snaps(pre, snap, post),
            state.keeps() == source.keeps(),
    {
        State { inner: Rc::new(Source { read: Box::new(Erased { source }) }) }
    }

    /// A constant as a state.
    pub fn fixed(value: T) -> (state: State<W, T>)
        ensures
            state.is_fixed(value),
    {
        State::from_source(FixedSrc { value: Rc::new(value) })
    }

    /// Zero-copy lens: point at a piece of the existing value.
    pub fn focus<U: 'static, F: Fn(&T) -> &U + 'static>(&self, f: F) -> (state: State<W, U>)
        ensures
            state.is_focus(*self, f),
    {
        State::from_source(LensSrc { src: self.clone(), proj: Rc::new(f) })
    }

    /// Build a new owned value from a snapshot.
    pub fn map<U: 'static, F: Fn(&Snap<T>) -> U + 'static>(&self, f: F) -> (state: State<W, U>)
        ensures
            state.is_map(*self, f),
    {
        State::from_source(MapSrc { src: self.clone(), f })
    }

    /// One value from two states.
    pub fn combine<A: 'static, B: 'static, F: Fn(&Snap<A>, &Snap<B>) -> T + 'static>(
        a: &State<W, A>,
        b: &State<W, B>,
        f: F,
    ) -> (state: State<W, T>)
        ensures
            state.is_combine(*a, *b, f),
    {
        State::from_source(CombineSrc { a: a.clone(), b: b.clone(), f })
    }

    /// The same value, read from the first half of a pair of worlds.
    pub fn in_first<W2: 'static>(&self) -> (state: State<(W, W2), T>)
        ensures
            lifts_first(state, *self),
    {
        State::from_source(FirstSrc { src: self.clone() })
    }

    /// The same value, read from the second half of a pair of worlds.
    pub fn in_second<W1: 'static>(&self) -> (state: State<(W1, W), T>)
        ensures
            lifts_second(state, *self),
    {
        State::from_source(SecondSrc { src: self.clone() })
    }

    /// Read the value in place, for as long as the world is left alone.
    pub fn read<'a>(&'a self, world: &'a mut W) -> (shown: Shown<'a, T>)
        requires
            self.readable(*old(world)),
        ensures
            forall|value: T| #[trigger]
                shown.points_to(&value) ==> self.reads(*old(world), value, *final(world)),
    {
        self.inner.read.read(world)
    }

    /// Materialize a stable snapshot of the value. It shows what a read shows.
    pub fn snapshot(&self, world: &mut W) -> (snap: Snap<T>)
        requires
            self.readable(*old(world)),
        ensures
            self.snaps(*old(world), snap, *final(world)),
            forall|value: T| #[trigger]
                snap.points_to(&value) ==> self.reads(*old(world), value, *final(world)),
    {
        self.inner.read.snapshot(world)
    }

    /// Hold the value until it is released.
    pub fn hold(&self, world: &mut W) -> (held: Held<T>)
        requires
            self.can_hold(*old(world)),
        ensures
            forall|value: T| #[trigger]
                held.points_to(&value) ==> self.holds(*old(world), value, *final(world)),
            held.keeps() == self.keeps(),
    {
        self.inner.read.hold(world)
    }

    /// Release a value that is held.
    pub fn release(&self, held: Held<T>, world: &mut W)
        requires
            self.can_release(*old(world)),
        ensures
            self.releases(*old(world), *final(world)),
    {
        self.release_world(world)
    }

    /// Hand back what holding the value borrowed.
    fn release_world(&self, world: &mut W)
        requires
            self.can_release(*old(world)),
        ensures
            self.releases(*old(world), *final(world)),
    {
        self.inner.read.release(world)
    }

    /// Read the value for the duration of `f` and return the result of `f`.
    pub fn with<R, F: FnOnce(&T) -> R>(&self, world: &mut W, f: F) -> (out: R)
        requires
            self.readable(*old(world)),
            forall|value: T, post: W| #[trigger]
                self.reads(*old(world), value, post) ==> call_requires(f, (&value,)),
        ensures
            exists|value: T| #[trigger]
                self.reads(*old(world), value, *final(world)) && call_ensures(f, (&value,), out),
    {
        let shown = self.read(world);
        f(shown.get())
    }
}

struct FixedSrc<T> {
    value: Rc<T>,
}

impl<W, T> ReadSource<W, T> for FixedSrc<T> {
    closed spec fn readable(&self, pre: W) -> bool {
        true
    }

    closed spec fn reads(&self, pre: W, value: T, post: W) -> bool {
        value == *self.value && post == pre
    }

    closed spec fn snaps(&self, pre: W, snap: Snap<T>, post: W) -> bool {
        snap.shows(&*self.value) && post == pre
    }

    closed spec fn can_hold(&self, pre: W) -> bool {
        true
    }

    closed spec fn holds(&self, pre: W, value: T, mid: W) -> bool {
        value == *self.value && mid == pre
    }

    closed spec fn keeps(&self) -> nat {
        0
    }

    closed spec fn can_release(&self, mid: W) -> bool {
        true
    }

    closed spec fn releases(&self, mid: W, post: W) -> bool {
        post == mid
    }

    fn read<'a>(&'a self, world: &'a mut W) -> (shown: Shown<'a, T>) {
        Shown::Here(&self.value)
    }

    fn hold(&self, world: &mut W) -> (held: Held<T>) {
        Held::of(Snap::whole(self.value.clone()))
    }

    fn release(&self, world: &mut W) {
    }

    fn snapshot(&self, world: &mut W) -> (snap: Snap<T>) {
        Snap::whole(self.value.clone())
    }
}

#[verifier::reject_recursive_types(W)]
#[verifier::reject_recursive_types(A)]
struct LensSrc<W, A, F> {
    src: State<W, A>,
    proj: Rc<F>,
}

impl<W: 'static, A: 'static, T: 'static, F: Fn(&A) -> &T + 'static> ReadSource<W, T> for LensSrc<
    W,
    A,
    F,
> {
    closed spec fn readable(&self, pre: W) -> bool {
        self.src.readable(pre) && lens_defined(self.src, *self.proj, pre)
    }

    closed spec fn reads(&self, pre: W, value: T, post: W) -> bool {
        focus_reads(self.src, *self.proj, pre, value, post)
    }

    closed spec fn snaps(&self, pre: W, snap: Snap<T>, post: W) -> bool {
        focus_snaps(self.src, *self.proj, pre, snap, post)
    }

    closed spec fn can_hold(&self, pre: W) -> bool {
        self.src.can_hold(pre) && lens_holdable(self.src, *self.proj, pre)
    }

    closed spec fn holds(&self, pre: W, value: T, mid: W) -> bool {
        focus_holds(self.src, *self.proj, pre, value, mid)
    }

    closed spec fn keeps(&self) -> nat {
        self.src.keeps()
    }

    closed spec fn can_release(&self, mid: W) -> bool {
        self.src.can_release(mid)
    }

    closed spec fn releases(&self, mid: W, post: W) -> bool {
        self.src.releases(mid, post)
    }

    fn hold(&self, world: &mut W) -> (held: Held<T>) {
        let parent = self.src.hold(world);
        assert(forall|a: A| #[trigger] parent.shown.points_to(&a) ==> parent.points_to(&a));
        Held { shown: parent.shown.focus_rc(self.proj.clone()), pins: parent.pins }
    }

    fn release(&self, world: &mut W) {
        self.src.release_world(world)
    }

    fn read<'a>(&'a self, world: &'a mut W) -> (shown: Shown<'a, T>) {
        let found = self.src.read(world);
        let ghost seen = found;
        match found {
            Shown::Here(a) => {
                assert(seen.points_to(a));
                Shown::Here((*self.proj)(a))
            },
            Shown::Built(a) => {
                assert(seen.points_to(&a));
                Shown::Part(Snap::whole(Rc::new(a)).focus_rc(self.proj.clone()))
            },
            Shown::Part(part) => {
                assert(forall|a: A| #[trigger] part.points_to(&a) ==> seen.points_to(&a));
                Shown::Part(part.focus_rc(self.proj.clone()))
            },
        }
    }

    fn snapshot(&self, world: &mut W) -> (snap: Snap<T>) {
        let parent = self.src.snapshot(world);
        parent.focus_rc(self.proj.clone())
    }
}

#[verifier::reject_recursive_types(W)]
#[verifier::reject_recursive_types(A)]
struct MapSrc<W, A, F> {
    src: State<W, A>,
    f: F,
}

impl<W: 'static, A: 'static, T: 'static, F: Fn(&Snap<A>) -> T> ReadSource<W, T> for MapSrc<
    W,
    A,
    F,
> {
    closed spec fn readable(&self, pre: W) -> bool {
        self.src.readable(pre) && builder_defined(self.src, self.f, pre)
    }

    closed spec fn reads(&self, pre: W, value: T, post: W) -> bool {
        map_reads(self.src, self.f, pre, value, post)
    }

    closed spec fn snaps(&self, pre: W, snap: Snap<T>, post: W) -> bool {
        map_snaps(self.src, self.f, pre, snap, post)
    }

    closed spec fn can_hold(&self, pre: W) -> bool {
        self.src.readable(pre) && builder_defined(self.src, self.f, pre)
    }

    closed spec fn holds(&self, pre: W, value: T, mid: W) -> bool {
        map_reads(self.src, self.f, pre, value, mid)
    }

    closed spec fn keeps(&self) -> nat {
        1
    }

    closed spec fn can_release(&self, mid: W) -> bool {
        true
    }

    closed spec fn releases(&self, mid: W, post: W) -> bool {
        post == mid
    }

    fn read<'a>(&'a self, world: &'a mut W) -> (shown: Shown<'a, T>) {
        let parent = self.src.snapshot(world);
        Shown::Built((self.f)(&parent))
    }

    fn hold(&self, world: &mut W) -> (held: Held<T>) {
        let parent = self.src.snapshot(world);
        let built = (self.f)(&parent);
        Held::of(Snap::whole(Rc::new(built))).pinning(parent)
    }

    fn release(&self, world: &mut W) {
    }

    fn snapshot(&self, world: &mut W) -> (snap: Snap<T>) {
        let parent = self.src.snapshot(world);
        let built = (self.f)(&parent);
        Snap::whole(Rc::new(built))
    }
}

#[verifier::reject_recursive_types(W)]
#[verifier::reject_recursive_types(A)]
#[verifier::reject_recursive_types(B)]
struct CombineSrc<W, A, B, F> {
    a: State<W, A>,
    b: State<W, B>,
    f: F,
}

impl<
    W: 'static,
    A: 'static,
    B: 'static,
    T: 'static,
    F: Fn(&Snap<A>, &Snap<B>) -> T,
> ReadSource<W, T> for CombineSrc<W, A, B, F> {
    closed spec fn readable(&self, pre: W) -> bool {
        self.a.readable(pre) && combine_defined(self.a, self.b, self.f, pre)
    }

    closed spec fn reads(&self, pre: W, value: T, post: W) -> bool {
        combine_reads(self.a, self.b, self.f, pre, value, post)
    }

    closed spec fn snaps(&self, pre: W, snap: Snap<T>, post: W) -> bool {
        combine_snaps(self.a, self.b, self.f, pre, snap, post)
    }

    fn read<'a>(&'a self, world: &'a mut W) -> (shown: Shown<'a, T>) {
        let snap_a = self.a.snapshot(world);
        let snap_b = self.b.snapshot(world);
        Shown::Built((self.f)(&snap_a, &snap_b))
    }

    fn hold(&self, world: &mut W) -> (held: Held<T>) {
        let snap_a = self.a.snapshot(world);
        let snap_b = self.b.snapshot(world);
        let built = (self.f)(&snap_a, &snap_b);
        Held::of(Snap::whole(Rc::new(built))).pinning(snap_a).pinning(snap_b)
    }

    fn release(&self, world: &mut W) {
    }

    closed spec fn can_hold(&self, pre: W) -> bool {
        self.a.readable(pre) && combine_defined(self.a, self.b, self.f, pre)
    }

    closed spec fn holds(&self, pre: W, value: T, mid: W) -> bool {
        combine_reads(self.a, self.b, self.f, pre, value, mid)
    }

    closed spec fn keeps(&self) -> nat {
        2
    }

    closed spec fn can_release(&self, mid: W) -> bool {
        true
    }

    closed spec fn releases(&self, mid: W, post: W) -> bool {
        post == mid
    }

    fn snapshot(&self, world: &mut W) -> (snap: Snap<T>) {
        let snap_a = self.a.snapshot(world);
        let snap_b = self.b.snapshot(world);
        let built = (self.f)(&snap_a, &snap_b);
        Snap::whole(Rc::new(built))
    }
}

#[verifier::reject_recursive_types(W)]
#[verifier::reject_recursive_types(T)]
struct FirstSrc<W, T> {
    src: State<W, T>,
}

impl<W: 'static, W2: 'static, T: 'static> ReadSource<(W, W2), T> for FirstSrc<W, T> {
    closed spec fn readable(&self, pre: (W, W2)) -> bool {
        self.src.readable(pre.0)
    }

    closed spec fn reads(&self, pre: (W, W2), value: T, post: (W, W2)) -> bool {
        self.src.reads(pre.0, value, post.0) && post.1 == pre.1
    }

    closed spec fn snaps(&self, pre: (W, W2), snap: Snap<T>, post: (W, W2)) -> bool {
        self.src.snaps(pre.0, snap, post.0) && post.1 == pre.1
    }

    closed spec fn can_hold(&self, pre: (W, W2)) -> bool {
        self.src.can_hold(pre.0)
    }

    closed spec fn holds(&self, pre: (W, W2), value: T, mid: (W, W2)) -> bool {
        self.src.holds(pre.0, value, mid.0) && mid.1 == pre.1
    }

    closed spec fn keeps(&self) -> nat {
        self.src.keeps()
    }

    closed spec fn can_release(&self, mid: (W, W2)) -> bool {
        self.src.can_release(mid.0)
    }

    closed spec fn releases(&self, mid: (W, W2), post: (W, W2)) -> bool {
        self.src.releases(mid.0, post.0) && post.1 == mid.1
    }

    fn hold(&self, world: &mut (W, W2)) -> (held: Held<T>) {
        self.src.hold(&mut world.0)
    }

    fn release(&self, world: &mut (W, W2)) {
        self.src.release_world(&mut world.0)
    }

    fn read<'a>(&'a self, world: &'a mut (W, W2)) -> (shown: Shown<'a, T>) {
        self.src.read(&mut world.0)
    }

    fn snapshot(&self, world: &mut (W, W2)) -> (snap: Snap<T>) {
        self.src.snapshot(&mut world.0)
    }
}

#[verifier::reject_recursive_types(W)]
#[verifier::reject_recursive_types(T)]
struct SecondSrc<W, T> {
    src: State<W, T>,
}

impl<W1: 'static, W: 'static, T: 'static> ReadSource<(W1, W), T> for SecondSrc<W, T> {
    closed spec fn readable(&self, pre: (W1, W)) -> bool {
        self.src.readable(pre.1)
    }

    closed spec fn reads(&self, pre: (W1, W), value: T, post: (W1, W)) -> bool {
        self.src.reads(pre.1, value, post.1) && post.0 == pre.0
    }

    closed spec fn snaps(&self, pre: (W1, W), snap: Snap<T>, post: (W1, W)) -> bool {
        self.src.snaps(pre.1, snap, post.1) && post.0 == pre.0
    }

    closed spec fn can_hold(&self, pre: (W1, W)) -> bool {
        self.src.can_hold(pre.1)
    }

    closed spec fn holds(&self, pre: (W1, W), value: T, mid: (W1, W)) -> bool {
        self.src.holds(pre.1, value, mid.1) && mid.0 == pre.0
    }

    closed spec fn keeps(&self) -> nat {
        self.src.keeps()
    }

    closed spec fn can_release(&self, mid: (W1, W)) -> bool {
        self.src.can_release(mid.1)
    }

    closed spec fn releases(&self, mid: (W1, W), post: (W1, W)) -> bool {
        self.src.releases(mid.1, post.1) && post.0 == mid.0
    }

    fn hold(&self, world: &mut (W1, W)) -> (held: Held<T>) {
        self.src.hold(&mut world.1)
    }

    fn release(&self, world: &mut (W1, W)) {
        self.src.release_world(&mut world.1)
    }

    fn read<'a>(&'a self, world: &'a mut (W1, W)) -> (shown: Shown<'a, T>) {
        self.src.read(&mut world.1)
    }

    fn snapshot(&self, world: &mut (W1, W)) -> (snap: Snap<T>) {
        self.src.snapshot(&mut world.1)
    }
}

} // verus!
