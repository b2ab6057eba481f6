//! Reactive animated values.
//!
//! An `AnimatedState` wraps a source state and yields a state whose reads move smoothly
//! toward the value of the source. It is pull-based: a read that finds the source at
//! another value than the current target starts an animation; each frame of the animation
//! stores the next interpolated value and asks for a repaint, so that the next read shows
//! the next step. A `LoopingState` cycles a phase for as long as somebody reads it.
//!
//! The books of all animations are kept in a world of their own (`Tweens`, `Loops`),
//! together with the queues of what the display has to start, stop and repaint.
use std::rc::Rc;
use vstd::prelude::*;
use vstd::std_specs::cmp::PartialEqSpec;

use crate::graphics::Layer;
use crate::snap::Snap;
use crate::state::{Held, ReadSource, Shown, State};
use crate::store::Repaint;

verus! {

/// How far an animation has come, from `0` to `ANIMATION_NORMALIZED_MAX`.
pub type AnimationProgress = u32;

/// The progress of an animation that has arrived.
pub const ANIMATION_NORMALIZED_MAX: u32 = 65535;

/// The angle of a full turn.
pub const TRIG_MAX_ANGLE: i32 = 0x10000;

/// The pace of an animation between its ends.
#[derive(Clone, Copy, Debug, PartialEq, Eq, Structural)]
pub enum AnimationCurve {
    Linear,
    EaseIn,
    EaseOut,
    EaseInOut,
}

/// Division that rounds toward zero.
pub open spec fn div_toward_zero(n: int, d: int) -> int
    recommends
        d > 0,
{
    if n >= 0 {
        n / d
    } else {
        -((-n) / d)
    }
}

/// The part of `span` that belongs to `progress`. Progress is halved first, so that the
/// product stays small.
pub open spec fn scaled(span: int, progress: AnimationProgress) -> int {
    div_toward_zero(span * (progress / 2), (ANIMATION_NORMALIZED_MAX / 2) as int)
}

/// `span` times halved `progress` fits in an `i32`.
pub open spec fn scales(span: int, progress: AnimationProgress) -> bool {
    &&& i32::MIN <= span <= i32::MAX
    &&& i32::MIN <= span * (progress / 2) <= i32::MAX
}

/// Whether a span can be scaled by a progress.
fn can_scale(span: i32, progress: AnimationProgress) -> (can: bool)
    ensures
        can == scales(span as int, progress),
{
    let half: u32 = progress / 2;
    assert(i64::MIN <= span * half <= i64::MAX) by (nonlinear_arith)
        requires
            i32::MIN <= span <= i32::MAX,
            0 <= half <= u32::MAX,
    ;
    let product: i64 = span as i64 * half as i64;
    i32::MIN as i64 <= product && product <= i32::MAX as i64
}

/// Scale a span by a progress.
fn scale(span: i32, progress: AnimationProgress) -> (part: i32)
    requires
        scales(span as int, progress),
    ensures
        part == scaled(span as int, progress),
{
    let p: i32 = (progress >> 1) as i32;
    assert(progress >> 1 == progress / 2) by (bit_vector);
    let half_max: i32 = ANIMATION_NORMALIZED_MAX as i32 >> 1;
    assert(65535i32 >> 1 == 32767) by (bit_vector);
    span * p / half_max
}

/// A value that can be smoothly interpolated by an `AnimatedState`.
pub trait Interpolatable: Copy + PartialEq {
    /// The interpolation between these ends at this progress is defined.
    spec fn can_interpolate(from: Self, to: Self, progress: AnimationProgress) -> bool;

    /// The value between the ends that belongs to the progress.
    spec fn interpolated(from: Self, to: Self, progress: AnimationProgress) -> Self;

    fn interpolate(from: Self, to: Self, progress: AnimationProgress) -> (value: Self)
        requires
            Self::can_interpolate(from, to, progress),
        ensures
            value == Self::interpolated(from, to, progress),
    ;
}

impl Interpolatable for i32 {
    open spec fn can_interpolate(from: i32, to: i32, progress: AnimationProgress) -> bool {
        &&& scales(to - from, progress)
        &&& i32::MIN <= from + scaled(to - from, progress) <= i32::MAX
    }

    open spec fn interpolated(from: i32, to: i32, progress: AnimationProgress) -> i32 {
        (from + scaled(to - from, progress)) as i32
    }

    fn interpolate(from: i32, to: i32, progress: AnimationProgress) -> (value: i32) {
        let delta: i32 = to - from;
        from + scale(delta, progress)
    }
}

// ── AnimatedState ───────────────────────────────────────────────────────────────

/// How long an animation takes unless it is told otherwise.
pub const DEFAULT_DURATION_MS: u32 = 300;

/// The book of one animation: where it set out, what it shows now, where it goes.
pub struct Book<T> {
    pub from: Option<T>,
    pub current: Option<T>,
    pub target: Option<T>,
    pub rerender: Repaint,
    pub duration: u32,
    pub curve: AnimationCurve,
}

impl<T: Interpolatable> Book<T> {
    /// The book of an animation that nobody has read yet.
    pub open spec fn unread(rerender: Repaint) -> Book<T> {
        Book {
            from: None,
            current: None,
            target: None,
            rerender,
            duration: DEFAULT_DURATION_MS,
            curve: AnimationCurve::EaseInOut,
        }
    }

    /// Either nobody has read the book yet, or it says where the value set out, what it
    /// shows, and where it goes.
    pub open spec fn well_formed(self) -> bool {
        &&& self.from is Some <==> self.target is Some
        &&& self.current is Some <==> self.target is Some
    }

    /// A read that finds the source at `goal` may find it moved, or not: the answer is the
    /// one that `==` gives of the target and the goal. A first read finds nothing moved.
    pub open spec fn finds(self, goal: T, moved: bool) -> bool {
        match self.target {
            Some(target) => call_ensures(T::eq, (&target, &goal), !moved),
            None => !moved,
        }
    }

    /// The target and the goal differ, by the meaning that the type gives to `==`. Where it
    /// gives one, this is what a read finds.
    pub open spec fn retargets(self, goal: T) -> bool {
        self.target matches Some(target) && !target.eq_spec(&goal)
    }

    /// The book after a read that finds the source at `goal`, moved or not.
    pub open spec fn after_read(self, goal: T, moved: bool) -> Book<T> {
        if self.target is None {
            Book { from: Some(goal), current: Some(goal), target: Some(goal), ..self }
        } else if moved {
            let from = self.shown_on_read(goal);
            Book { from: Some(from), current: Some(from), target: Some(goal), ..self }
        } else {
            self
        }
    }

    /// The value that a read shows which finds the source at `goal`.
    pub open spec fn shown_on_read(self, goal: T) -> T {
        if self.target is None {
            goal
        } else {
            match self.current {
                Some(current) => current,
                None => goal,
            }
        }
    }

    /// A frame with this progress is defined.
    pub open spec fn accepts_frame(self, progress: AnimationProgress) -> bool {
        self.from is Some && self.target is Some ==> T::can_interpolate(
            self.from->0,
            self.target->0,
            progress,
        )
    }

    /// The book after a frame of its animation.
    pub open spec fn after_frame(self, progress: AnimationProgress) -> Book<T> {
        if self.from is Some && self.target is Some {
            Book {
                current: Some(T::interpolated(self.from->0, self.target->0, progress)),
                ..self
            }
        } else {
            self
        }
    }

    /// Reconcile the book with the value of the source. Returns the value to show right
    /// now, and whether an animation has to be started.
    fn reconcile(&mut self, goal: T) -> (out: (T, bool))
        ensures
            out.0 == old(self).shown_on_read(goal),
            old(self).finds(goal, out.1),
            *final(self) == old(self).after_read(goal, out.1),
    {
        match self.target {
            None => {
                // First read: show the value at once, there is nothing to move from.
                self.from = Some(goal);
                self.current = Some(goal);
                self.target = Some(goal);
                (goal, false)
            },
            Some(target) => {
                let shown = match self.current {
                    Some(current) => current,
                    None => goal,
                };
                if target.eq(&goal) {
                    (shown, false)
                } else {
                    // The target moved: animate from where we are now toward it.
                    self.from = Some(shown);
                    self.current = Some(shown);
                    self.target = Some(goal);
                    (shown, true)
                }
            },
        }
    }

    /// Store the value of a frame.
    fn step(&mut self, progress: AnimationProgress)
        requires
            old(self).accepts_frame(progress),
        ensures
            *final(self) == old(self).after_frame(progress),
    {
        if let Some(from) = self.from {
            if let Some(target) = self.target {
                self.current = Some(T::interpolate(from, target, progress));
            }
        }
    }
}

/// An animation that the display has to schedule. It replaces the one that is in flight
/// for the same book, if any.
#[derive(Clone, Copy, Debug, PartialEq, Eq, Structural)]
pub struct Start {
    /// The position of the book.
    pub book: usize,
    pub duration: u32,
    pub curve: AnimationCurve,
    pub plays: Plays,
}

/// How often an animation plays.
#[derive(Clone, Copy, Debug, PartialEq, Eq, Structural)]
pub enum Plays {
    Once,
    Forever,
}

/// The books of all `AnimatedState`s over values of type `T`, and the queues of what the
/// display has to do for them.
pub struct Tweens<T> {
    books: Vec<Book<T>>,
    starts: Vec<Start>,
    repaints: Vec<Repaint>,
}

/// What a `Tweens<T>` holds.
#[verifier::ext_equal]
pub struct TweensView<T> {
    pub books: Seq<Book<T>>,
    pub starts: Seq<Start>,
    pub repaints: Seq<Repaint>,
}

impl<T> View for Tweens<T> {
    type V = TweensView<T>;

    closed spec fn view(&self) -> TweensView<T> {
        TweensView { books: self.books@, starts: self.starts@, repaints: self.repaints@ }
    }
}

impl<T: Interpolatable> TweensView<T> {
    /// The books after a read of `book` that finds the source at `goal`, moved or not.
    pub open spec fn after_read(self, book: int, goal: T, moved: bool) -> TweensView<T> {
        let before = self.books[book];
        TweensView {
            books: self.books.update(book, before.after_read(goal, moved)),
            starts: if moved {
                self.starts.push(
                    Start {
                        book: book as usize,
                        duration: before.duration,
                        curve: before.curve,
                        plays: Plays::Once,
                    },
                )
            } else {
                self.starts
            },
            repaints: self.repaints,
        }
    }

    /// The books after a frame of the animation of `book`.
    pub open spec fn after_frame(self, book: int, progress: AnimationProgress) -> TweensView<T> {
        TweensView {
            books: self.books.update(book, self.books[book].after_frame(progress)),
            starts: self.starts,
            repaints: self.repaints.push(self.books[book].rerender),
        }
    }
}

impl<T: Interpolatable> Tweens<T> {
    /// No books.
    pub fn new() -> (tweens: Self)
        ensures
            tweens@ == (TweensView::<T> {
                books: Seq::empty(),
                starts: Seq::empty(),
                repaints: Seq::empty(),
            }),
    {
        Tweens { books: Vec::new(), starts: Vec::new(), repaints: Vec::new() }
    }

    /// Reconcile a book with the value of its source, and return the value to show.
    pub fn sync(&mut self, book: usize, goal: T) -> (shown: T)
        requires
            book < old(self)@.books.len(),
        ensures
            shown == old(self)@.books[book as int].shown_on_read(goal),
            exists|moved: bool| #[trigger]
                old(self)@.books[book as int].finds(goal, moved) && final(self)@
                    == old(self)@.after_read(book as int, goal, moved),
    {
        let (shown, started) = self.books[book].reconcile(goal);
        if started {
            let duration: u32 = self.books[book].duration;
            let curve = self.books[book].curve;
            self.starts.push(Start { book, duration, curve, plays: Plays::Once });
        }
        assert(old(self)@.books[book as int].finds(goal, started));
        shown
    }

    /// A frame of the animation of a book: store the next value and ask for a repaint.
    pub fn frame(&mut self, book: usize, progress: AnimationProgress)
        requires
            book < old(self)@.books.len(),
            old(self)@.books[book as int].accepts_frame(progress),
        ensures
            final(self)@ == old(self)@.after_frame(book as int, progress),
    {
        self.books[book].step(progress);
        let rerender = self.books[book].rerender;
        self.repaints.push(rerender);
    }

    /// Take the animations to schedule that were asked for since the last call, oldest
    /// first.
    pub fn take_starts(&mut self) -> (taken: Vec<Start>)
        ensures
            taken@ == old(self)@.starts,
            final(self)@ == (TweensView { starts: Seq::empty(), ..old(self)@ }),
    {
        let mut taken: Vec<Start> = Vec::new();
        std::mem::swap(&mut taken, &mut self.starts);
        taken
    }

    /// Take the repaints that were asked for since the last call, oldest first.
    pub fn take_repaints(&mut self) -> (taken: Vec<Repaint>)
        ensures
            taken@ == old(self)@.repaints,
            final(self)@ == (TweensView { repaints: Seq::empty(), ..old(self)@ }),
    {
        let mut taken: Vec<Repaint> = Vec::new();
        std::mem::swap(&mut taken, &mut self.repaints);
        taken
    }
}

impl Tweens<i32> {
    /// Whether there is a book at this position and a frame with this progress is defined.
    pub fn accepts_frame(&self, book: usize, progress: AnimationProgress) -> (accepts: bool)
        ensures
            accepts == (book < self@.books.len() && self@.books[book as int].accepts_frame(
                progress,
            )),
    {
        if book >= self.books.len() {
            return false;
        }
        match (self.books[book].from, self.books[book].target) {
            (Some(from), Some(target)) => match target.checked_sub(from) {
                Some(delta) => can_scale(delta, progress) && from.checked_add(
                    scale(delta, progress),
                ).is_some(),
                None => false,
            },
            _ => true,
        }
    }
}

/// A reactive value that moves smoothly toward its source.
#[verifier::reject_recursive_types(W)]
#[verifier::reject_recursive_types(T)]
pub struct AnimatedState<W, T> {
    source: State<W, T>,
    book: usize,
}

/// `state` reads `source`, reconciles `book` with what it found, and shows what the book
/// says.
pub open spec fn animates<W, T: Interpolatable>(
    state: State<(W, Tweens<T>), T>,
    source: State<W, T>,
    book: int,
) -> bool {
    &&& forall|pre: (W, Tweens<T>)| #[trigger]
        state.readable(pre) <==> source.readable(pre.0) && 0 <= book < pre.1@.books.len()
    &&& forall|pre: (W, Tweens<T>), value: T, post: (W, Tweens<T>)| #[trigger]
        state.reads(pre, value, post) <==> animated_reads(source, book, pre, value, post)
    &&& forall|pre: (W, Tweens<T>), snap: Snap<T>, post: (W, Tweens<T>)| #[trigger]
        state.snaps(pre, snap, post) <==> animated_snaps(source, book, pre, snap, post)
    &&& state.holds_by_reading()
    &&& state.keeps() == 0
}

/// A read of `source` may find a value with which the book shows `value` and the worlds
/// are left as `post`.
pub open spec fn animated_reads<W, T: Interpolatable>(
    source: State<W, T>,
    book: int,
    pre: (W, Tweens<T>),
    value: T,
    post: (W, Tweens<T>),
) -> bool {
    exists|goal: T, moved: bool|
        #![trigger source.reads(pre.0, goal, post.0), pre.1@.books[book].finds(goal, moved)]
        source.reads(pre.0, goal, post.0) && pre.1@.books[book].finds(goal, moved) && value
            == pre.1@.books[book].shown_on_read(goal) && post.1@ == pre.1@.after_read(
            book,
            goal,
            moved,
        )
}

/// A read of `source` may find a value with which the book shows what `snap` shows and the
/// worlds are left as `post`.
pub open spec fn animated_snaps<W, T: Interpolatable>(
    source: State<W, T>,
    book: int,
    pre: (W, Tweens<T>),
    snap: Snap<T>,
    post: (W, Tweens<T>),
) -> bool {
    exists|goal: T, moved: bool|
        #![trigger source.reads(pre.0, goal, post.0), pre.1@.books[book].finds(goal, moved)]
        source.reads(pre.0, goal, post.0) && pre.1@.books[book].finds(goal, moved) && snap.shows(
            &pre.1@.books[book].shown_on_read(goal),
        ) && post.1@ == pre.1@.after_read(book, goal, moved)
}

impl<W, T> AnimatedState<W, T> {
    /// The state that the value moves toward.
    pub closed spec fn source(&self) -> State<W, T> {
        self.source
    }

    /// The position of the book.
    pub closed spec fn book(&self) -> int {
        self.book as int
    }
}

impl<W: 'static, T: Interpolatable + 'static> AnimatedState<W, T> {
    /// Animate toward `source`, asking for `rerender` at each frame.
    pub fn new(source: State<W, T>, tweens: &mut Tweens<T>, rerender: Repaint) -> (state: Self)
        ensures
            state.source() == source,
            state.book() == old(tweens)@.books.len(),
            final(tweens)@ == (TweensView {
                books: old(tweens)@.books.push(Book::unread(rerender)),
                ..old(tweens)@
            }),
    {
        let book: usize = tweens.books.len();
        tweens.books.push(
            Book {
                from: None,
                current: None,
                target: None,
                rerender,
                duration: DEFAULT_DURATION_MS,
                curve: AnimationCurve::EaseInOut,
            },
        );
        AnimatedState { source, book }
    }

    /// Animate toward `source`, repainting `layer` at each frame.
    pub fn for_layer(source: State<W, T>, tweens: &mut Tweens<T>, layer: Layer) -> (state: Self)
        ensures
            state.source() == source,
            state.book() == old(tweens)@.books.len(),
            final(tweens)@ == (TweensView {
                books: old(tweens)@.books.push(Book::unread(Repaint::Layer(layer))),
                ..old(tweens)@
            }),
    {
        AnimatedState::new(source, tweens, Repaint::Layer(layer))
    }

    /// Set how long each animation takes.
    pub fn with_duration(self, tweens: &mut Tweens<T>, ms: u32) -> (state: Self)
        requires
            self.book() < old(tweens)@.books.len(),
        ensures
            state == self,
            final(tweens)@ == (TweensView {
                books: old(tweens)@.books.update(
                    self.book(),
                    Book { duration: ms, ..old(tweens)@.books[self.book()] },
                ),
                ..old(tweens)@
            }),
    {
        tweens.books[self.book].duration = ms;
        self
    }

    /// Set the pace of each animation.
    pub fn with_curve(self, tweens: &mut Tweens<T>, curve: AnimationCurve) -> (state: Self)
        requires
            self.book() < old(tweens)@.books.len(),
        ensures
            state == self,
            final(tweens)@ == (TweensView {
                books: old(tweens)@.books.update(
                    self.book(),
                    Book { curve, ..old(tweens)@.books[self.book()] },
                ),
                ..old(tweens)@
            }),
    {
        tweens.books[self.book].curve = curve;
        self
    }

    /// A read-only state that shows the current interpolated value.
    pub fn as_state(&self) -> (state: State<(W, Tweens<T>), T>)
        ensures
            animates(state, self.source(), self.book()),
    {
        State::from_source(AnimatedSrc { source: self.source.clone(), book: self.book })
    }

    /// Zero-copy lens over the animated value.
    pub fn focus<U: 'static, F: Fn(&T) -> &U + 'static>(&self, f: F) -> (state: State<
        (W, Tweens<T>),
        U,
    >)
        ensures
            exists|base: State<(W, Tweens<T>), T>| #[trigger]
                animates(base, self.source(), self.book()) && state.is_focus(base, f),
    {
        self.as_state().focus(f)
    }

    /// Build an owned value from the animated value.
    pub fn map<U: 'static, F: Fn(&Snap<T>) -> U + 'static>(&self, f: F) -> (state: State<
        (W, Tweens<T>),
        U,
    >)
        ensures
            exists|base: State<(W, Tweens<T>), T>| #[trigger]
                animates(base, self.source(), self.book()) && state.is_map(base, f),
    {
        self.as_state().map(f)
    }
}

#[verifier::reject_recursive_types(W)]
#[verifier::reject_recursive_types(T)]
struct AnimatedSrc<W, T> {
    source: State<W, T>,
    book: usize,
}

impl<W: 'static, T: Interpolatable + 'static> AnimatedSrc<W, T> {
    /// Read the source and reconcile the book with it. Returns the value to show.
    fn sync(&self, world: &mut (W, Tweens<T>)) -> (shown: T)
        requires
            self.source.readable(old(world).0),
            self.book < old(world).1@.books.len(),
        ensures
            animated_reads(self.source, self.book as int, *old(world), shown, *final(world)),
    {
        let found = self.source.read(&mut world.0);
        let goal: T = *found.get();
        assert(found.points_to(&goal));
        let shown = world.1.sync(self.book, goal);
        assert(self.source.reads(old(world).0, goal, world.0));
        shown
    }
}

impl<W: 'static, T: Interpolatable + 'static> ReadSource<(W, Tweens<T>), T> for AnimatedSrc<W, T> {
    closed spec fn readable(&self, pre: (W, Tweens<T>)) -> bool {
        self.source.readable(pre.0) && 0 <= self.book < pre.1@.books.len()
    }

    closed spec fn reads(&self, pre: (W, Tweens<T>), value: T, post: (W, Tweens<T>)) -> bool {
        animated_reads(self.source, self.book as int, pre, value, post)
    }

    closed spec fn snaps(
        &self,
        pre: (W, Tweens<T>),
        snap: Snap<T>,
        post: (W, Tweens<T>),
    ) -> bool {
        animated_snaps(self.source, self.book as int, pre, snap, post)
    }

    closed spec fn can_hold(&self, pre: (W, Tweens<T>)) -> bool {
        self.source.readable(pre.0) && 0 <= self.book < pre.1@.books.len()
    }

    closed spec fn holds(&self, pre: (W, Tweens<T>), value: T, mid: (W, Tweens<T>)) -> bool {
        animated_reads(self.source, self.book as int, pre, value, mid)
    }

    closed spec fn keeps(&self) -> nat {
        0
    }

    closed spec fn can_release(&self, mid: (W, Tweens<T>)) -> bool {
        true
    }

    closed spec fn releases(&self, mid: (W, Tweens<T>), post: (W, Tweens<T>)) -> bool {
        post == mid
    }

    fn hold(&self, world: &mut (W, Tweens<T>)) -> (held: Held<T>) {
        Held::of(Snap::whole(Rc::new(self.sync(world))))
    }

    fn release(&self, world: &mut (W, Tweens<T>)) {
    }

    fn read<'a>(&'a self, world: &'a mut (W, Tweens<T>)) -> (shown: Shown<'a, T>) {
        Shown::Built(self.sync(world))
    }

    fn snapshot(&self, world: &mut (W, Tweens<T>)) -> (snap: Snap<T>) {
        Snap::whole(Rc::new(self.sync(world)))
    }
}

impl<W: 'static, T: Interpolatable + 'static> From<AnimatedState<W, T>> for State<(W, Tweens<T>), T> {
    fn from(a: AnimatedState<W, T>) -> (state: Self)
        ensures
            animates(state, a.source(), a.book()),
    {
        a.as_state()
    }
}

impl<W: 'static, T: Interpolatable + 'static> vstd::std_specs::convert::FromSpecImpl<AnimatedState<W, T>> for State<(W, Tweens<T>), T> {
    open spec fn obeys_from_spec() -> bool {
        false
    }

    open spec fn from_spec(a: AnimatedState<W, T>) -> Self {
        arbitrary()
    }
}

impl<'a, W: 'static, T: Interpolatable + 'static> From<&'a AnimatedState<W, T>> for State<(W, Tweens<T>), T> {
    fn from(a: &'a AnimatedState<W, T>) -> (state: Self)
        ensures
            animates(state, a.source(), a.book()),
    {
        a.as_state()
    }
}

impl<'a, W: 'static, T: Interpolatable + 'static> vstd::std_specs::convert::FromSpecImpl<&'a AnimatedState<W, T>> for State<(W, Tweens<T>), T> {
    open spec fn obeys_from_spec() -> bool {
        false
    }

    open spec fn from_spec(a: &'a AnimatedState<W, T>) -> Self {
        arbitrary()
    }
}

/// The position of a book is one that a `usize` can say.
pub proof fn lemma_book_fits<W, T>(animated: &AnimatedState<W, T>)
    ensures
        0 <= animated.book() <= usize::MAX,
{
}

// ── LoopingState ────────────────────────────────────────────────────────────────
//
// Where an `AnimatedState` moves toward a target, a `LoopingState` cycles a phase
// `0..=max` for as long as it is read. A read starts the loop on demand and marks it
// seen. A frame that ends without a read since the last one ended means that the layer is
// off screen: the loop is stopped, and the next read starts a fresh one.

/// How long one round of a loop takes unless it is told otherwise.
pub const DEFAULT_LOOP_DURATION_MS: u32 = 1000;

/// The book of one loop.
#[derive(Clone, Copy, Debug, PartialEq, Eq, Structural)]
pub struct LoopBook {
    pub max: i32,
    /// The phase that a read shows.
    pub current: i32,
    pub rerender: Repaint,
    /// An animation was scheduled for the loop.
    pub started: bool,
    /// Somebody read the loop since its last frame ended.
    pub read_seen: bool,
    /// A frame stopped the loop; the next read has to start a fresh animation.
    pub paused: bool,
    pub duration: u32,
    pub curve: AnimationCurve,
}

impl LoopBook {
    /// The book of a loop that nobody has read yet.
    pub open spec fn unread(max: i32, rerender: Repaint) -> LoopBook {
        LoopBook {
            max,
            current: 0,
            rerender,
            started: false,
            read_seen: false,
            paused: false,
            duration: DEFAULT_LOOP_DURATION_MS,
            curve: AnimationCurve::EaseInOut,
        }
    }

    /// A read has to start the loop.
    pub open spec fn needs_start(self) -> bool {
        self.paused || !self.started
    }

    /// The book after a read.
    pub open spec fn after_read(self) -> LoopBook {
        LoopBook { read_seen: true, started: true, paused: false, ..self }
    }

    /// The book once a frame has stored its phase.
    pub open spec fn after_frame(self, progress: AnimationProgress) -> LoopBook {
        LoopBook { current: scaled(self.max as int, progress) as i32, ..self }
    }

    /// The end of a frame has to stop the loop.
    pub open spec fn stops_at_end(self) -> bool {
        !self.read_seen && self.started
    }

    /// The book after the end of a frame.
    pub open spec fn after_end(self) -> LoopBook {
        LoopBook { read_seen: false, paused: self.paused || !self.read_seen, ..self }
    }
}

/// What the display has to do for a loop.
#[derive(Clone, Copy, Debug, PartialEq, Eq, Structural)]
pub enum LoopAction {
    /// Schedule an animation, in place of the one that was scheduled for the same book
    /// before, if any.
    Start(Start),
    /// Unschedule the animation of the book at this position.
    Stop(usize),
}

/// The books of all `LoopingState`s, and the queues of what the display has to do for
/// them.
pub struct Loops {
    books: Vec<LoopBook>,
    actions: Vec<LoopAction>,
    repaints: Vec<Repaint>,
}

/// What a `Loops` holds.
#[verifier::ext_equal]
pub struct LoopsView {
    pub books: Seq<LoopBook>,
    pub actions: Seq<LoopAction>,
    pub repaints: Seq<Repaint>,
}

impl View for Loops {
    type V = LoopsView;

    closed spec fn view(&self) -> LoopsView {
        LoopsView { books: self.books@, actions: self.actions@, repaints: self.repaints@ }
    }
}

impl LoopsView {
    /// The books after a read of `book`.
    pub open spec fn after_read(self, book: int) -> LoopsView {
        let before = self.books[book];
        LoopsView {
            books: self.books.update(book, before.after_read()),
            actions: if before.needs_start() {
                self.actions.push(
                    LoopAction::Start(
                        Start {
                            book: book as usize,
                            duration: before.duration,
                            curve: before.curve,
                            plays: Plays::Forever,
                        },
                    ),
                )
            } else {
                self.actions
            },
            repaints: self.repaints,
        }
    }

    /// The books once a frame of `book` has stored its phase.
    pub open spec fn after_frame(self, book: int, progress: AnimationProgress) -> LoopsView {
        LoopsView {
            books: self.books.update(book, self.books[book].after_frame(progress)),
            actions: self.actions,
            repaints: self.repaints.push(self.books[book].rerender),
        }
    }

    /// The books after the end of a frame of `book`.
    pub open spec fn after_end(self, book: int) -> LoopsView {
        let before = self.books[book];
        LoopsView {
            books: self.books.update(book, before.after_end()),
            actions: if before.stops_at_end() {
                self.actions.push(LoopAction::Stop(book as usize))
            } else {
                self.actions
            },
            repaints: self.repaints,
        }
    }
}

impl Loops {
    /// No books.
    pub fn new() -> (loops: Self)
        ensures
            loops@ == (LoopsView {
                books: Seq::empty(),
                actions: Seq::empty(),
                repaints: Seq::empty(),
            }),
    {
        Loops { books: Vec::new(), actions: Vec::new(), repaints: Vec::new() }
    }

    /// Read the current phase, starting the loop if it is not running.
    pub fn sync(&mut self, book: usize) -> (shown: i32)
        requires
            book < old(self)@.books.len(),
        ensures
            shown == old(self)@.books[book as int].current,
            final(self)@ == old(self)@.after_read(book as int),
    {
        let mut entry: LoopBook = self.books[book];
        let needs_start = entry.paused || !entry.started;
        entry.read_seen = true;
        if needs_start {
            self.actions.push(
                LoopAction::Start(
                    Start {
                        book,
                        duration: entry.duration,
                        curve: entry.curve,
                        plays: Plays::Forever,
                    },
                ),
            );
            entry.started = true;
            entry.paused = false;
        }
        self.books[book] = entry;
        entry.current
    }

    /// A frame of a loop: store the phase and ask for a repaint. The frame ends with
    /// `end_frame`, once the repaint has been handed on; a repaint that reads the loop at
    /// once still counts as a read within the frame.
    pub fn frame(&mut self, book: usize, progress: AnimationProgress)
        requires
            book < old(self)@.books.len(),
            scales(old(self)@.books[book as int].max as int, progress),
        ensures
            final(self)@ == old(self)@.after_frame(book as int, progress),
    {
        let mut entry: LoopBook = self.books[book];
        entry.current = scale(entry.max, progress);
        self.repaints.push(entry.rerender);
        self.books[book] = entry;
    }

    /// Whether there is a book at this position and a frame with this progress is defined.
    pub fn accepts_frame(&self, book: usize, progress: AnimationProgress) -> (accepts: bool)
        ensures
            accepts == (book < self@.books.len() && scales(
                self@.books[book as int].max as int,
                progress,
            )),
    {
        book < self.books.len() && can_scale(self.books[book].max, progress)
    }

    /// The end of a frame: stop the loop if nobody read it since the last frame ended.
    pub fn end_frame(&mut self, book: usize)
        requires
            book < old(self)@.books.len(),
        ensures
            final(self)@ == old(self)@.after_end(book as int),
    {
        let mut entry: LoopBook = self.books[book];
        if !entry.read_seen {
            entry.paused = true;
            if entry.started {
                self.actions.push(LoopAction::Stop(book));
            }
        }
        entry.read_seen = false;
        self.books[book] = entry;
    }

    /// Take what the display has to do since the last call, oldest first.
    pub fn take_actions(&mut self) -> (taken: Vec<LoopAction>)
        ensures
            taken@ == old(self)@.actions,
            final(self)@ == (LoopsView { actions: Seq::empty(), ..old(self)@ }),
    {
        let mut taken: Vec<LoopAction> = Vec::new();
        std::mem::swap(&mut taken, &mut self.actions);
        taken
    }

    /// Take the repaints that were asked for since the last call, oldest first.
    pub fn take_repaints(&mut self) -> (taken: Vec<Repaint>)
        ensures
            taken@ == old(self)@.repaints,
            final(self)@ == (LoopsView { repaints: Seq::empty(), ..old(self)@ }),
    {
        let mut taken: Vec<Repaint> = Vec::new();
        std::mem::swap(&mut taken, &mut self.repaints);
        taken
    }
}

/// A reactive value that cycles `0..=max` while it is read.
pub struct LoopingState {
    book: usize,
}

/// `state` shows the phase of `book`, and starts the loop if it is not running.
pub open spec fn loops(state: State<Loops, i32>, book: int) -> bool {
    &&& forall|pre: Loops| #[trigger] state.readable(pre) <==> 0 <= book < pre@.books.len()
    &&& forall|pre: Loops, value: i32, post: Loops| #[trigger]
        state.reads(pre, value, post) <==> value == pre@.books[book].current && post@
            == pre@.after_read(book)
    &&& forall|pre: Loops, snap: Snap<i32>, post: Loops| #[trigger]
        state.snaps(pre, snap, post) <==> snap.shows(&pre@.books[book].current) && post@
            == pre@.after_read(book)
    &&& state.holds_by_reading()
    &&& state.keeps() == 0
}

impl LoopingState {
    /// The position of the book.
    pub closed spec fn book(&self) -> int {
        self.book as int
    }

    /// Cycle `0..=max`, asking for `rerender` at each frame.
    pub fn new(max: i32, loops: &mut Loops, rerender: Repaint) -> (state: Self)
        ensures
            state.book() == old(loops)@.books.len(),
            final(loops)@ == (LoopsView {
                books: old(loops)@.books.push(LoopBook::unread(max, rerender)),
                ..old(loops)@
            }),
    {
        let book: usize = loops.books.len();
        loops.books.push(
            LoopBook {
                max,
                current: 0,
                rerender,
                started: false,
                read_seen: false,
                paused: false,
                duration: DEFAULT_LOOP_DURATION_MS,
                curve: AnimationCurve::EaseInOut,
            },
        );
        LoopingState { book }
    }

    /// Cycle `0..=max`, repainting `layer` at each frame.
    pub fn for_layer(max: i32, loops: &mut Loops, layer: Layer) -> (state: Self)
        ensures
            state.book() == old(loops)@.books.len(),
            final(loops)@ == (LoopsView {
                books: old(loops)@.books.push(LoopBook::unread(max, Repaint::Layer(layer))),
                ..old(loops)@
            }),
    {
        LoopingState::new(max, loops, Repaint::Layer(layer))
    }

    /// Set how long one round takes.
    pub fn with_duration(self, loops: &mut Loops, ms: u32) -> (state: Self)
        requires
            self.book() < old(loops)@.books.len(),
        ensures
            state == self,
            final(loops)@ == (LoopsView {
                books: old(loops)@.books.update(
                    self.book(),
                    LoopBook { duration: ms, ..old(loops)@.books[self.book()] },
                ),
                ..old(loops)@
            }),
    {
        loops.books[self.book].duration = ms;
        self
    }

    /// Set the pace of each round.
    pub fn with_curve(self, loops: &mut Loops, curve: AnimationCurve) -> (state: Self)
        requires
            self.book() < old(loops)@.books.len(),
        ensures
            state == self,
            final(loops)@ == (LoopsView {
                books: old(loops)@.books.update(
                    self.book(),
                    LoopBook { curve, ..old(loops)@.books[self.book()] },
                ),
                ..old(loops)@
            }),
    {
        loops.books[self.book].curve = curve;
        self
    }

    /// A read-only state that shows the current phase.
    pub fn as_state(&self) -> (state: State<Loops, i32>)
        ensures
            loops(state, self.book()),
    {
        State::from_source(LoopingSrc { book: self.book })
    }
}

/// The position of a book is one that a `usize` can say.
pub proof fn lemma_loop_book_fits(looping: &LoopingState)
    ensures
        0 <= looping.book() <= usize::MAX,
{
}

struct LoopingSrc {
    book: usize,
}

impl ReadSource<Loops, i32> for LoopingSrc {
    closed spec fn readable(&self, pre: Loops) -> bool {
        0 <= self.book < pre@.books.len()
    }

    closed spec fn reads(&self, pre: Loops, value: i32, post: Loops) -> bool {
        value == pre@.books[self.book as int].current && post@ == pre@.after_read(
            self.book as int,
        )
    }

    closed spec fn snaps(&self, pre: Loops, snap: Snap<i32>, post: Loops) -> bool {
        snap.shows(&pre@.books[self.book as int].current) && post@ == pre@.after_read(
            self.book as int,
        )
    }

    closed spec fn can_hold(&self, pre: Loops) -> bool {
        0 <= self.book < pre@.books.len()
    }

    closed spec fn holds(&self, pre: Loops, value: i32, mid: Loops) -> bool {
        value == pre@.books[self.book as int].current && mid@ == pre@.after_read(
            self.book as int,
        )
    }

    closed spec fn keeps(&self) -> nat {
        0
    }

    closed spec fn can_release(&self, mid: Loops) -> bool {
        true
    }

    closed spec fn releases(&self, mid: Loops, post: Loops) -> bool {
        post == mid
    }

    fn hold(&self, world: &mut Loops) -> (held: Held<i32>) {
        Held::of(Snap::whole(Rc::new(world.sync(self.book))))
    }

    fn release(&self, world: &mut Loops) {
    }

    fn read<'a>(&'a self, world: &'a mut Loops) -> (shown: Shown<'a, i32>) {
        Shown::Built(world.sync(self.book))
    }

    fn snapshot(&self, world: &mut Loops) -> (snap: Snap<i32>) {
        Snap::whole(Rc::new(world.sync(self.book)))
    }
}

impl From<LoopingState> for State<Loops, i32> {
    fn from(l: LoopingState) -> (state: Self)
        ensures
            loops(state, l.book()),
    {
        l.as_state()
    }
}

impl vstd::std_specs::convert::FromSpecImpl<LoopingState> for State<Loops, i32> {
    open spec fn obeys_from_spec() -> bool {
        false
    }

    open spec fn from_spec(l: LoopingState) -> Self {
        arbitrary()
    }
}

impl<'a> From<&'a LoopingState> for State<Loops, i32> {
    fn from(l: &'a LoopingState) -> (state: Self)
        ensures
            loops(state, l.book()),
    {
        l.as_state()
    }
}

impl<'a> vstd::std_specs::convert::FromSpecImpl<&'a LoopingState> for State<Loops, i32> {
    open spec fn obeys_from_spec() -> bool {
        false
    }

    open spec fn from_spec(l: &'a LoopingState) -> Self {
        arbitrary()
    }
}

} // verus!
