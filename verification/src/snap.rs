//! Zero-copy pointers into immutable snapshots.
//!
//! A `Snap<T>` owns its slice of a snapshot through a refcounted root. It narrows with
//! `focus`, so a plain value can hold pointers to fields of a state without a lifetime
//! and without copying them.
use std::marker::PhantomData;
use std::rc::Rc;
use vstd::prelude::*;

verus! {

/// One projection step: hand back a reference derived from an owner that is kept alive.
///
/// A projection is re-derived on each access, so what it shows is a relation: `points_to`
/// holds of every value that an access may show.
pub trait ProjectTo<T: ?Sized> {
    /// An access may show `value`.
    spec fn points_to(&self, value: &T) -> bool;

    /// The projected value.
    fn get(&self) -> (value: &T)
        ensures
            self.points_to(value),
    ;
}

/// An erased projection.
#[verifier::reject_recursive_types(T)]
struct Projection<T: ?Sized> {
    step: Box<dyn ProjectTo<T>>,
}

#[verifier::reject_recursive_types(T)]
enum SnapRepr<T: ?Sized> {
    /// The snapshot itself.
    Whole(Rc<T>),
    /// A chain of projections rooted in some snapshot.
    Part(Rc<Projection<T>>),
}

/// A clonable, zero-copy pointer into a snapshot.
#[verifier::reject_recursive_types(T)]
pub struct Snap<T: ?Sized> {
    repr: SnapRepr<T>,
}

impl<T: ?Sized> Snap<T> {
    /// An access to the snap may show `value`.
    pub closed spec fn points_to(&self, value: &T) -> bool {
        match self.repr {
            SnapRepr::Whole(root) => value == &*root,
            SnapRepr::Part(part) => part.step.points_to(value),
        }
    }

    /// The snap shows `value` and nothing else.
    pub open spec fn shows(&self, value: &T) -> bool {
        forall|x: &T| #[trigger] self.points_to(x) <==> x == value
    }

    /// The snap shows what `f` makes of the value that `parent` shows.
    pub open spec fn narrows<P: ?Sized, F: Fn(&P) -> &T>(&self, parent: Snap<P>, f: F) -> bool {
        forall|x: &T| #[trigger]
            self.points_to(x) <==> exists|p: &P| #[trigger]
                parent.points_to(p) && call_ensures(f, (p,), x)
    }

    /// The whole snapshot.
    pub fn whole(root: Rc<T>) -> (snap: Snap<T>)
        ensures
            snap.shows(&*root),
    {
        Snap { repr: SnapRepr::Whole(root) }
    }

    /// The value that the snap points to.
    pub fn get(&self) -> (value: &T)
        ensures
            self.points_to(value),
    {
        match &self.repr {
            SnapRepr::Whole(root) => &**root,
            SnapRepr::Part(part) => part.step.get(),
        }
    }
}

impl<T: ?Sized + 'static> Snap<T> {
    /// Narrow to a piece inside the snapshot. The snapshot stays alive behind the new
    /// snap.
    pub fn focus<U: ?Sized + 'static, F: Fn(&T) -> &U + 'static>(&self, f: F) -> (part: Snap<U>)
        requires
            forall|p: &T| #[trigger] self.points_to(p) ==> call_requires(f, (p,)),
        ensures
            part.narrows(*self, f),
    {
        self.focus_rc(Rc::new(f))
    }

    /// Narrow through a projection that is already shared, so that a stored lens composes
    /// into a snap without wrapping it again.
    pub(crate) fn focus_rc<U: ?Sized + 'static, F: Fn(&T) -> &U + 'static>(&self, f: Rc<F>) -> (part: Snap<U>)
        requires
            forall|p: &T| #[trigger] self.points_to(p) ==> call_requires(*f, (p,)),
        ensures
            part.narrows(*self, *f),
    {
        let step = FocusedSnap { parent: self.clone(), f, target: PhantomData };
        Snap { repr: SnapRepr::Part(Rc::new(Projection { step: Box::new(step) })) }
    }
}

impl<T: ?Sized> Clone for Snap<T> {
    fn clone(&self) -> (copy: Self)
        ensures
            copy == *self,
    {
        match &self.repr {
            SnapRepr::Whole(root) => Snap { repr: SnapRepr::Whole(root.clone()) },
            SnapRepr::Part(part) => Snap { repr: SnapRepr::Part(part.clone()) },
        }
    }
}

impl<T: ?Sized> std::ops::Deref for Snap<T> {
    type Target = T;

    fn deref(&self) -> (value: &T)
        ensures
            self.points_to(value),
    {
        self.get()
    }
}

/// A snap seen through one more projection.
#[verifier::reject_recursive_types(T)]
#[verifier::reject_recursive_types(U)]
struct FocusedSnap<T: ?Sized, U: ?Sized, F: Fn(&T) -> &U> {
    parent: Snap<T>,
    f: Rc<F>,
    target: PhantomData<U>,
}

impl<T: ?Sized, U: ?Sized, F: Fn(&T) -> &U> FocusedSnap<T, U, F> {
    /// The projection is defined on whatever the parent shows.
    #[verifier::type_invariant]
    spec fn defined(self) -> bool {
        forall|p: &T| #[trigger] self.parent.points_to(p) ==> call_requires(*self.f, (p,))
    }
}

impl<T: ?Sized, U: ?Sized, F: Fn(&T) -> &U> ProjectTo<U> for FocusedSnap<T, U, F> {
    closed spec fn points_to(&self, value: &U) -> bool {
        exists|p: &T| #[trigger]
            self.parent.points_to(p) && call_ensures(*self.f, (p,), value)
    }

    fn get(&self) -> (value: &U) {
        proof {
            use_type_invariant(self);
        }
        (*self.f)(self.parent.get())
    }
}

} // verus!
