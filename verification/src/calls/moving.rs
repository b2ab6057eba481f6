//! Animated values and loops.
use vstd::prelude::*;
use vstd::std_specs::cmp::PartialEqSpec;

use crate::animation::{
    animates, AnimatedState, AnimationCurve, AnimationProgress, Interpolatable, LoopAction,
    LoopingState, Loops, LoopsView, Plays, Start, Tweens, TweensView, ANIMATION_NORMALIZED_MAX,
    DEFAULT_DURATION_MS, DEFAULT_LOOP_DURATION_MS, TRIG_MAX_ANGLE,
};
use crate::graphics::Layer;
use crate::laws::law_scaling;
use crate::snap::Snap;
use crate::state::State;
use crate::store::Repaint;

verus! {

/// The measures of animations: full progress, a full turn, and how long a value moves and a
/// round of a loop takes unless they are told otherwise.
pub proof fn law_measures()
    ensures
        ANIMATION_NORMALIZED_MAX == 65535,
        TRIG_MAX_ANGLE == 65536,
        DEFAULT_DURATION_MS == 300,
        DEFAULT_LOOP_DURATION_MS == 1000,
{
}

// ── Interpolation ───────────────────────────────────────────────────────────────

/// `part` is the share of `span` that belongs to `progress`, halved out of 32767: the whole
/// number next to it on the side of zero.
pub open spec fn is_share(part: int, span: int, progress: int) -> bool {
    let over = span * (progress / 2) - part * 32767;
    &&& span >= 0 ==> 0 <= over < 32767
    &&& span <= 0 ==> -32767 < over <= 0
}

/// Dividing by 32767 toward zero gives the share.
proof fn lemma_share(span: int, p: AnimationProgress)
    ensures
        is_share(crate::animation::scaled(span, p), span, p as int),
{
    let half = (p / 2) as int;
    let n = span * half;
    assert(span >= 0 ==> n >= 0) by (nonlinear_arith)
        requires
            n == span * half,
            half >= 0,
    ;
    assert(span <= 0 ==> n <= 0) by (nonlinear_arith)
        requires
            n == span * half,
            half >= 0,
    ;
}

/// An interpolation is proportional: it lies less than one unit from the straight line
/// between its ends, on the side of its start. Within the progress of an animation it never
/// leaves its ends.
pub proof fn law_interpolation_is_proportional(
    from: i32,
    to: i32,
    p: AnimationProgress,
    value: i32,
)
    requires
        call_ensures(<i32 as Interpolatable>::interpolate, (from, to, p), value),
        p <= 65535 || i32::can_interpolate(from, to, p),
    ensures
        to >= from ==> 0 <= (to - from) * (p / 2) - (value - from) * 32767 < 32767,
        to <= from ==> -32767 < (to - from) * (p / 2) - (value - from) * 32767 <= 0,
        p <= 65535 && from <= to ==> from <= value <= to,
        p <= 65535 && to <= from ==> to <= value <= from,
        p <= 1 ==> value == from,
        p == 65534 || p == 65535 ==> value == to,
{
    lemma_share(to - from, p);
    if p <= 65535 {
        law_scaling(to - from, p, 65535);
    }
    if p <= 1 {
        assert((to - from) * 0 == 0);
        assert(p / 2 == 0);
    }
    if p == 65534 || p == 65535 {
        assert(p / 2 == 32767);
    }
}

/// Between two frames a value moves as far as the progress does, give or take less than one
/// unit.
pub proof fn law_frames_move_evenly(
    from: i32,
    to: i32,
    p: AnimationProgress,
    before: i32,
    q: AnimationProgress,
    after: i32,
)
    requires
        call_ensures(<i32 as Interpolatable>::interpolate, (from, to, p), before),
        call_ensures(<i32 as Interpolatable>::interpolate, (from, to, q), after),
        p <= q <= 65535,
    ensures
        -32767 < (after - before) * 32767 - (to - from) * (q / 2 - p / 2) < 32767,
{
    law_interpolation_is_proportional(from, to, p, before);
    law_interpolation_is_proportional(from, to, q, after);
    let span = to - from;
    let hp = (p / 2) as int;
    let hq = (q / 2) as int;
    assert(span * (hq - hp) == span * hq - span * hp) by (nonlinear_arith);
}

/// An interpolation is defined exactly when the distance and its product with the halved
/// progress fit, and the share of the distance leads to a number that fits. Within the
/// progress of an animation it always does.
pub proof fn law_interpolation_is_defined(from: i32, to: i32, p: AnimationProgress, part: int)
    requires
        is_share(part, to - from, p as int),
    ensures
        i32::can_interpolate(from, to, p) <==> -0x8000_0000 <= to - from <= 0x7fff_ffff
            && -0x8000_0000 <= (to - from) * (p / 2) <= 0x7fff_ffff && -0x8000_0000 <= from + part
            <= 0x7fff_ffff,
        p <= 65535 ==> -0x8000_0000 <= from + part <= 0x7fff_ffff,
        i32::can_interpolate(from, to, p) ==> call_requires(
            <i32 as Interpolatable>::interpolate,
            (from, to, p),
        ),
{
    lemma_share(to - from, p);
    if p <= 65535 {
        law_scaling(to - from, p, 65535);
    }
}

// ── Animated values ─────────────────────────────────────────────────────────────

/// A new set of books is empty.
pub proof fn law_new_tweens<T: Interpolatable>(tweens: Tweens<T>)
    requires
        call_ensures(Tweens::<T>::new, (), tweens),
    ensures
        tweens@.books.len() == 0,
        tweens@.starts.len() == 0,
        tweens@.repaints.len() == 0,
{
}

/// A new animated value has an unread book of its own behind all others, which takes 300 ms,
/// eases in and out, and repaints what it is told.
pub proof fn law_new_animated_value<W: 'static, T: Interpolatable + 'static>(
    source: State<W, T>,
    one: &mut Tweens<T>,
    rerender: Repaint,
    state: AnimatedState<W, T>,
    other: &mut Tweens<T>,
    layer: Layer,
    local: AnimatedState<W, T>,
)
    requires
        call_ensures(AnimatedState::<W, T>::new, (source, one, rerender), state),
        call_ensures(AnimatedState::<W, T>::for_layer, (source, other, layer), local),
    ensures
        state.source() == source,
        state.book() == old(one)@.books.len(),
        final(one)@.books.len() == old(one)@.books.len() + 1,
        final(one)@.books.drop_last() == old(one)@.books,
        final(one)@.books.last().from is None,
        final(one)@.books.last().current is None,
        final(one)@.books.last().target is None,
        final(one)@.books.last().rerender == rerender,
        final(one)@.books.last().duration == 300,
        final(one)@.books.last().curve == AnimationCurve::EaseInOut,
        final(one)@.starts == old(one)@.starts,
        final(one)@.repaints == old(one)@.repaints,
        local.source() == source,
        local.book() == old(other)@.books.len(),
        final(other)@.books.len() == old(other)@.books.len() + 1,
        final(other)@.books.drop_last() == old(other)@.books,
        final(other)@.books.last().from is None,
        final(other)@.books.last().current is None,
        final(other)@.books.last().target is None,
        final(other)@.books.last().rerender == Repaint::Layer(layer),
        final(other)@.books.last().duration == 300,
        final(other)@.books.last().curve == AnimationCurve::EaseInOut,
        final(other)@.starts == old(other)@.starts,
        final(other)@.repaints == old(other)@.repaints,
{
    assert(final(one)@.books.drop_last() =~= old(one)@.books);
    assert(final(other)@.books.drop_last() =~= old(other)@.books);
}

/// Tuning changes the duration, or the curve, of its own book and nothing else.
pub proof fn law_tuned_animated_value<W: 'static, T: Interpolatable + 'static>(
    state: AnimatedState<W, T>,
    one: &mut Tweens<T>,
    ms: u32,
    slower: AnimatedState<W, T>,
    other: &mut Tweens<T>,
    curve: AnimationCurve,
    bent: AnimatedState<W, T>,
    i: int,
)
    requires
        call_ensures(AnimatedState::<W, T>::with_duration, (state, one, ms), slower),
        call_ensures(AnimatedState::<W, T>::with_curve, (state, other, curve), bent),
        0 <= state.book() < old(one)@.books.len(),
        0 <= state.book() < old(other)@.books.len(),
    ensures
        slower == state,
        bent == state,
        ({
            let b = old(one)@.books[state.book()];
            let a = final(one)@.books[state.book()];
            &&& a.duration == ms
            &&& a.curve == b.curve
            &&& a.from == b.from
            &&& a.current == b.current
            &&& a.target == b.target
            &&& a.rerender == b.rerender
        }),
        ({
            let b = old(other)@.books[state.book()];
            let a = final(other)@.books[state.book()];
            &&& a.curve == curve
            &&& a.duration == b.duration
            &&& a.from == b.from
            &&& a.current == b.current
            &&& a.target == b.target
            &&& a.rerender == b.rerender
        }),
        i != state.book() && 0 <= i < old(one)@.books.len() ==> final(one)@.books[i] == old(
            one,
        )@.books[i],
        i != state.book() && 0 <= i < old(other)@.books.len() ==> final(other)@.books[i] == old(
            other,
        )@.books[i],
        final(one)@.starts == old(one)@.starts,
        final(one)@.repaints == old(one)@.repaints,
        final(other)@.starts == old(other)@.starts,
        final(other)@.repaints == old(other)@.repaints,
{
}

/// A read of a book that finds its source at `goal`. The first read shows the goal and
/// starts nothing. A read that finds the goal where the target is shows what was shown and
/// changes nothing. A read that finds it elsewhere shows what was shown, sets out from there
/// to the goal, and starts one animation, played once, with the duration and curve of the
/// book. No read asks for a repaint or touches another book.
pub open spec fn reads_book<T: Interpolatable>(
    pre: TweensView<T>,
    book: int,
    goal: T,
    shown: T,
    post: TweensView<T>,
) -> bool {
    let b = pre.books[book];
    let a = post.books[book];
    &&& post.books.len() == pre.books.len()
    &&& forall|i: int|
        0 <= i < pre.books.len() && i != book ==> #[trigger] post.books[i] == pre.books[i]
    &&& post.repaints == pre.repaints
    &&& a.rerender == b.rerender
    &&& a.duration == b.duration
    &&& a.curve == b.curve
    &&& b.target is None ==> {
        &&& shown == goal
        &&& a.from == Some(goal)
        &&& a.current == Some(goal)
        &&& a.target == Some(goal)
        &&& post.starts == pre.starts
    }
    &&& b.target is Some && b.current is Some ==> shown == b.current->0
    &&& b.target is Some && b.current is None ==> shown == goal
    &&& b.target is Some ==> stays_or_sets_out(pre, book, goal, shown, post)
}

/// The second half of a read of a book that was read before: `==` gives that the goal is
/// where the target is, and nothing changes; or it gives that it is not, and the book sets
/// out.
pub open spec fn stays_or_sets_out<T: Interpolatable>(
    pre: TweensView<T>,
    book: int,
    goal: T,
    shown: T,
    post: TweensView<T>,
) -> bool {
    let b = pre.books[book];
    let a = post.books[book];
    ||| {
        &&& call_ensures(T::eq, (&b.target->0, &goal), true)
        &&& a == b
        &&& post.starts == pre.starts
    }
    ||| {
        &&& call_ensures(T::eq, (&b.target->0, &goal), false)
        &&& a.from == Some(shown)
        &&& a.current == Some(shown)
        &&& a.target == Some(goal)
        &&& post.starts.len() == pre.starts.len() + 1
        &&& post.starts.drop_last() == pre.starts
        &&& post.starts.last().book == book
        &&& post.starts.last().duration == b.duration
        &&& post.starts.last().curve == b.curve
        &&& post.starts.last().plays == Plays::Once
    }
}

proof fn lemma_reads_book<T: Interpolatable>(
    pre: TweensView<T>,
    book: usize,
    goal: T,
    moved: bool,
)
    requires
        book < pre.books.len(),
        pre.books[book as int].finds(goal, moved),
    ensures
        reads_book(
            pre,
            book as int,
            goal,
            pre.books[book as int].shown_on_read(goal),
            pre.after_read(book as int, goal, moved),
        ),
{
    let post = pre.after_read(book as int, goal, moved);
    if moved {
        assert(post.starts.drop_last() =~= pre.starts);
    }
}

/// Reading a book is what `reads_book` says; and where the type says what `==` means, an
/// animation starts exactly when the goal is not where the target is.
pub proof fn law_sync<T: Interpolatable>(
    tweens: &mut Tweens<T>,
    book: usize,
    goal: T,
    shown: T,
)
    requires
        call_ensures(Tweens::<T>::sync, (tweens, book, goal), shown),
        book < old(tweens)@.books.len(),
    ensures
        reads_book(old(tweens)@, book as int, goal, shown, final(tweens)@),
        T::obeys_eq_spec() ==> (final(tweens)@.starts.len() > old(tweens)@.starts.len() <==> old(
            tweens,
        )@.books[book as int].target is Some && !old(
            tweens,
        )@.books[book as int].target->0.eq_spec(&goal)),
{
    let before = old(tweens)@.books[book as int];
    let moved = choose|moved: bool| #[trigger]
        before.finds(goal, moved) && final(tweens)@ == old(tweens)@.after_read(
            book as int,
            goal,
            moved,
        );
    lemma_reads_book(old(tweens)@, book, goal, moved);
}

/// A frame of a moving value stores the interpolation between where it set out and where it
/// goes, at the progress of the frame; one that never was read stores nothing. Each asks for
/// one repaint, the one of the book, and changes nothing else.
pub proof fn law_frame<T: Interpolatable>(
    tweens: &mut Tweens<T>,
    book: usize,
    p: AnimationProgress,
    i: int,
)
    requires
        call_ensures(Tweens::<T>::frame, (tweens, book, p), ()),
        book < old(tweens)@.books.len(),
    ensures
        final(tweens)@.books.len() == old(tweens)@.books.len(),
        i != book && 0 <= i < old(tweens)@.books.len() ==> final(tweens)@.books[i] == old(
            tweens,
        )@.books[i],
        final(tweens)@.starts == old(tweens)@.starts,
        final(tweens)@.repaints.len() == old(tweens)@.repaints.len() + 1,
        final(tweens)@.repaints.drop_last() == old(tweens)@.repaints,
        final(tweens)@.repaints.last() == old(tweens)@.books[book as int].rerender,
        ({
            let b = old(tweens)@.books[book as int];
            let a = final(tweens)@.books[book as int];
            &&& a.from == b.from
            &&& a.target == b.target
            &&& a.rerender == b.rerender
            &&& a.duration == b.duration
            &&& a.curve == b.curve
            &&& b.from is Some && b.target is Some ==> a.current == Some(
                T::interpolated(b.from->0, b.target->0, p),
            )
            &&& b.from is None || b.target is None ==> a.current == b.current
        }),
{
    assert(final(tweens)@.repaints.drop_last() =~= old(tweens)@.repaints);
}

/// A frame of a moving number lies less than one unit from the straight line between where
/// the number set out and where it goes.
pub proof fn law_frame_of_a_number(
    tweens: &mut Tweens<i32>,
    book: usize,
    p: AnimationProgress,
    from: i32,
    to: i32,
)
    requires
        call_ensures(Tweens::<i32>::frame, (tweens, book, p), ()),
        book < old(tweens)@.books.len(),
        old(tweens)@.books[book as int].from == Some(from),
        old(tweens)@.books[book as int].target == Some(to),
        p <= 65535 || i32::can_interpolate(from, to, p),
    ensures
        final(tweens)@.books[book as int].current matches Some(now) && is_share(
            now - from,
            to - from,
            p as int,
        ) && (p <= 65535 && from <= to ==> from <= now <= to) && (p <= 65535 && to <= from ==> to
            <= now <= from),
{
    lemma_share(to - from, p);
    if p <= 65535 {
        law_scaling(to - from, p, 65535);
    }
}

/// A read that finds a moved source, a frame without progress, and the next read: nothing
/// jumps. With a frame at full progress instead, the next read shows the source.
pub proof fn law_retargeting_is_smooth(
    one: &mut Tweens<i32>,
    book: usize,
    goal: i32,
    first: i32,
    two: &mut Tweens<i32>,
    p: AnimationProgress,
    three: &mut Tweens<i32>,
    second: i32,
)
    requires
        call_ensures(Tweens::<i32>::sync, (one, book, goal), first),
        call_ensures(Tweens::<i32>::frame, (two, book, p), ()),
        call_ensures(Tweens::<i32>::sync, (three, book, goal), second),
        book < old(one)@.books.len(),
        old(one)@.books[book as int].target matches Some(target) && target != goal,
        old(one)@.books[book as int].current is Some,
        old(two)@ == final(one)@,
        old(three)@ == final(two)@,
        p <= 65535,
    ensures
        Some(first) == old(one)@.books[book as int].current,
        is_share(second - first, goal - first, p as int),
        p <= 1 ==> second == first,
        p >= 65534 ==> second == goal,
        final(three)@.starts == final(one)@.starts,
{
    law_sync(one, book, goal, first);
    law_frame_of_a_number(two, book, p, first, goal);
    law_frame(two, book, p, 0);
    law_sync(three, book, goal, second);
    if p <= 1 {
        assert((goal - first) * 0 == 0);
        assert(p / 2 == 0);
    }
    if p >= 65534 {
        assert(p / 2 == 32767);
    }
}

/// Frames that a number accepts: there is such a book, and either it was not read yet, or
/// the interpolation is defined. Such a frame can be made.
pub proof fn law_accepted_frames(
    tweens: &Tweens<i32>,
    book: usize,
    p: AnimationProgress,
    accepts: bool,
    part: int,
    same: &mut Tweens<i32>,
)
    requires
        call_ensures(Tweens::<i32>::accepts_frame, (tweens, book, p), accepts),
        old(same)@ == tweens@,
        book < tweens@.books.len() && tweens@.books[book as int].from is Some
            && tweens@.books[book as int].target is Some ==> is_share(
            part,
            tweens@.books[book as int].target->0 - tweens@.books[book as int].from->0,
            p as int,
        ),
    ensures
        book >= tweens@.books.len() ==> !accepts,
        book < tweens@.books.len() && (tweens@.books[book as int].from is None
            || tweens@.books[book as int].target is None) ==> accepts,
        book < tweens@.books.len() && tweens@.books[book as int].from is Some
            && tweens@.books[book as int].target is Some ==> ({
            let from = tweens@.books[book as int].from->0;
            let span = tweens@.books[book as int].target->0 - from;
            accepts <==> -0x8000_0000 <= span <= 0x7fff_ffff && -0x8000_0000 <= span * (p / 2)
                <= 0x7fff_ffff && -0x8000_0000 <= from + part <= 0x7fff_ffff
        }),
        accepts ==> call_requires(Tweens::<i32>::frame, (same, book, p)),
{
    if book < tweens@.books.len() {
        let b = tweens@.books[book as int];
        if b.from is Some && b.target is Some {
            law_interpolation_is_defined(b.from->0, b.target->0, p, part);
        }
    }
}

/// Taking a queue hands out all of it, in order, and leaves it empty; nothing else changes.
pub proof fn law_take_queues<T: Interpolatable>(
    one: &mut Tweens<T>,
    starts: Vec<Start>,
    other: &mut Tweens<T>,
    repaints: Vec<Repaint>,
)
    requires
        call_ensures(Tweens::<T>::take_starts, (one,), starts),
        call_ensures(Tweens::<T>::take_repaints, (other,), repaints),
    ensures
        starts@ == old(one)@.starts,
        final(one)@.starts.len() == 0,
        final(one)@.books == old(one)@.books,
        final(one)@.repaints == old(one)@.repaints,
        repaints@ == old(other)@.repaints,
        final(other)@.repaints.len() == 0,
        final(other)@.books == old(other)@.books,
        final(other)@.starts == old(other)@.starts,
{
}

/// An animated state can be read wherever its source can. A read of it reads the source and
/// then its own book, at the goal that the source showed. A snapshot shows what a read would
/// show, and holding the value is reading it.
pub proof fn law_animated_read<W: 'static, T: Interpolatable + 'static>(
    animated: &AnimatedState<W, T>,
    state: State<(W, Tweens<T>), T>,
    pre: (W, Tweens<T>),
    value: T,
    snap: Snap<T>,
    post: (W, Tweens<T>),
)
    requires
        call_ensures(AnimatedState::<W, T>::as_state, (animated,), state),
        0 <= animated.book() < pre.1@.books.len(),
    ensures
        state.readable(pre) <==> animated.source().readable(pre.0),
        state.reads(pre, value, post) ==> exists|goal: T| #[trigger]
            animated.source().reads(pre.0, goal, post.0) && reads_book(
                pre.1@,
                animated.book(),
                goal,
                value,
                post.1@,
            ),
        state.snaps(pre, snap, post) && snap.points_to(&value) ==> state.reads(pre, value, post),
        state.holds(pre, value, post) <==> state.reads(pre, value, post),
        state.can_hold(pre) <==> state.readable(pre),
        state.can_release(pre),
        state.releases(pre, post) <==> post == pre,
        state.keeps() == 0,
{
    if state.reads(pre, value, post) {
        let book = animated.book();
        let b = pre.1@.books[book];
        let (goal, moved) = choose|goal: T, moved: bool|
            #![trigger animated.source().reads(pre.0, goal, post.0), b.finds(goal, moved)]
            animated.source().reads(pre.0, goal, post.0) && b.finds(goal, moved) && value
                == b.shown_on_read(goal) && post.1@ == pre.1@.after_read(book, goal, moved);
        assert(animated.source().reads(pre.0, goal, post.0));
        lemma_animated_book(animated, pre.1@, goal, moved);
    }
}

proof fn lemma_animated_book<W: 'static, T: Interpolatable + 'static>(
    animated: &AnimatedState<W, T>,
    pre: TweensView<T>,
    goal: T,
    moved: bool,
)
    requires
        0 <= animated.book() < pre.books.len(),
        pre.books[animated.book()].finds(goal, moved),
    ensures
        reads_book(
            pre,
            animated.book(),
            goal,
            pre.books[animated.book()].shown_on_read(goal),
            pre.after_read(animated.book(), goal, moved),
        ),
{
    crate::animation::lemma_book_fits(animated);
    lemma_reads_book(pre, animated.book() as usize, goal, moved);
}

/// A lens and a builder on an animated state, and its conversions, read what the animated
/// state reads.
pub proof fn law_derived_from_an_animated_value<
    W: 'static,
    T: Interpolatable + 'static,
    U: 'static,
    F: Fn(&T) -> &U + 'static,
    G: Fn(&Snap<T>) -> U + 'static,
>(
    animated: AnimatedState<W, T>,
    state: State<(W, Tweens<T>), T>,
    converted: State<(W, Tweens<T>), T>,
    borrowed: State<(W, Tweens<T>), T>,
    f: F,
    part: State<(W, Tweens<T>), U>,
    g: G,
    built: State<(W, Tweens<T>), U>,
    pre: (W, Tweens<T>),
    value: T,
    derived: U,
    snap: Snap<T>,
    post: (W, Tweens<T>),
)
    requires
        call_ensures(AnimatedState::<W, T>::as_state, (&animated,), state),
        call_ensures(
            <State<(W, Tweens<T>), T> as From<AnimatedState<W, T>>>::from,
            (animated,),
            converted,
        ),
        call_ensures(
            <State<(W, Tweens<T>), T> as From<&AnimatedState<W, T>>>::from,
            (&animated,),
            borrowed,
        ),
        call_ensures(AnimatedState::<W, T>::focus::<U, F>, (&animated, f), part),
        call_ensures(AnimatedState::<W, T>::map::<U, G>, (&animated, g), built),
    ensures
        converted.readable(pre) <==> state.readable(pre),
        converted.reads(pre, value, post) <==> state.reads(pre, value, post),
        converted.snaps(pre, snap, post) <==> state.snaps(pre, snap, post),
        borrowed.readable(pre) <==> state.readable(pre),
        borrowed.reads(pre, value, post) <==> state.reads(pre, value, post),
        borrowed.snaps(pre, snap, post) <==> state.snaps(pre, snap, post),
        part.reads(pre, derived, post) <==> exists|t: T| #[trigger]
            state.reads(pre, t, post) && call_ensures(f, (&t,), &derived),
        built.reads(pre, derived, post) <==> exists|s: Snap<T>| #[trigger]
            state.snaps(pre, s, post) && call_ensures(g, (&s,), derived),
{
    let one = choose|base: State<(W, Tweens<T>), T>| #[trigger]
        animates(base, animated.source(), animated.book()) && part.is_focus(base, f);
    let other = choose|base: State<(W, Tweens<T>), T>| #[trigger]
        animates(base, animated.source(), animated.book()) && built.is_map(base, g);
    if part.reads(pre, derived, post) {
        let t = choose|t: T| #[trigger]
            one.reads(pre, t, post) && call_ensures(f, (&t,), &derived);
        assert(state.reads(pre, t, post));
    }
    if exists|t: T| #[trigger]
        state.reads(pre, t, post) && call_ensures(f, (&t,), &derived) {
        let t = choose|t: T| #[trigger]
            state.reads(pre, t, post) && call_ensures(f, (&t,), &derived);
        assert(one.reads(pre, t, post));
    }
    if built.reads(pre, derived, post) {
        let s = choose|s: Snap<T>| #[trigger]
            other.snaps(pre, s, post) && call_ensures(g, (&s,), derived);
        assert(state.snaps(pre, s, post));
    }
    if exists|s: Snap<T>| #[trigger]
        state.snaps(pre, s, post) && call_ensures(g, (&s,), derived) {
        let s = choose|s: Snap<T>| #[trigger]
            state.snaps(pre, s, post) && call_ensures(g, (&s,), derived);
        assert(other.snaps(pre, s, post));
    }
}

// ── Loops ───────────────────────────────────────────────────────────────────────

/// A new set of loops is empty.
pub proof fn law_new_loops(loops: Loops)
    requires
        call_ensures(Loops::new, (), loops),
    ensures
        loops@.books.len() == 0,
        loops@.actions.len() == 0,
        loops@.repaints.len() == 0,
{
}

/// A new loop has a book of its own behind all others: at phase 0, not started, with a round
/// of 1000 ms that eases in and out.
pub proof fn law_new_loop(
    max: i32,
    one: &mut Loops,
    rerender: Repaint,
    state: LoopingState,
    other: &mut Loops,
    layer: Layer,
    local: LoopingState,
)
    requires
        call_ensures(LoopingState::new, (max, one, rerender), state),
        call_ensures(LoopingState::for_layer, (max, other, layer), local),
    ensures
        state.book() == old(one)@.books.len(),
        final(one)@.books.len() == old(one)@.books.len() + 1,
        final(one)@.books.drop_last() == old(one)@.books,
        final(one)@.books.last().max == max,
        final(one)@.books.last().current == 0,
        final(one)@.books.last().rerender == rerender,
        !final(one)@.books.last().started,
        !final(one)@.books.last().read_seen,
        !final(one)@.books.last().paused,
        final(one)@.books.last().duration == 1000,
        final(one)@.books.last().curve == AnimationCurve::EaseInOut,
        final(one)@.actions == old(one)@.actions,
        final(one)@.repaints == old(one)@.repaints,
        local.book() == old(other)@.books.len(),
        final(other)@.books.len() == old(other)@.books.len() + 1,
        final(other)@.books.drop_last() == old(other)@.books,
        final(other)@.books.last().max == max,
        final(other)@.books.last().current == 0,
        final(other)@.books.last().rerender == Repaint::Layer(layer),
        !final(other)@.books.last().started,
        !final(other)@.books.last().read_seen,
        !final(other)@.books.last().paused,
        final(other)@.books.last().duration == 1000,
        final(other)@.books.last().curve == AnimationCurve::EaseInOut,
        final(other)@.actions == old(other)@.actions,
        final(other)@.repaints == old(other)@.repaints,
{
    assert(final(one)@.books.drop_last() =~= old(one)@.books);
    assert(final(other)@.books.drop_last() =~= old(other)@.books);
}

/// Tuning changes the duration, or the curve, of its own loop and nothing else.
pub proof fn law_tuned_loop(
    state: LoopingState,
    one: &mut Loops,
    ms: u32,
    slower: LoopingState,
    other: &mut Loops,
    curve: AnimationCurve,
    bent: LoopingState,
    i: int,
)
    requires
        call_ensures(LoopingState::with_duration, (state, one, ms), slower),
        call_ensures(LoopingState::with_curve, (state, other, curve), bent),
        0 <= state.book() < old(one)@.books.len(),
        0 <= state.book() < old(other)@.books.len(),
    ensures
        slower == state,
        bent == state,
        final(one)@.books[state.book()].duration == ms,
        final(one)@.books[state.book()].curve == old(one)@.books[state.book()].curve,
        final(one)@.books[state.book()].max == old(one)@.books[state.book()].max,
        final(one)@.books[state.book()].current == old(one)@.books[state.book()].current,
        final(one)@.books[state.book()].started == old(one)@.books[state.book()].started,
        final(one)@.books[state.book()].paused == old(one)@.books[state.book()].paused,
        final(one)@.books[state.book()].read_seen == old(one)@.books[state.book()].read_seen,
        final(one)@.books[state.book()].rerender == old(one)@.books[state.book()].rerender,
        final(other)@.books[state.book()].curve == curve,
        final(other)@.books[state.book()].duration == old(other)@.books[state.book()].duration,
        final(other)@.books[state.book()].max == old(other)@.books[state.book()].max,
        final(other)@.books[state.book()].current == old(other)@.books[state.book()].current,
        final(other)@.books[state.book()].started == old(other)@.books[state.book()].started,
        final(other)@.books[state.book()].paused == old(other)@.books[state.book()].paused,
        final(other)@.books[state.book()].read_seen == old(other)@.books[state.book()].read_seen,
        final(other)@.books[state.book()].rerender == old(other)@.books[state.book()].rerender,
        i != state.book() && 0 <= i < old(one)@.books.len() ==> final(one)@.books[i] == old(
            one,
        )@.books[i],
        i != state.book() && 0 <= i < old(other)@.books.len() ==> final(other)@.books[i] == old(
            other,
        )@.books[i],
        final(one)@.actions == old(one)@.actions,
        final(one)@.repaints == old(one)@.repaints,
        final(other)@.actions == old(other)@.actions,
        final(other)@.repaints == old(other)@.repaints,
{
}

/// A read of a loop shows its phase and marks it seen. It schedules one animation, played
/// forever, exactly when none was scheduled yet or the loop is paused; after it the loop
/// runs. Nothing else changes.
pub open spec fn reads_loop(pre: LoopsView, book: int, shown: i32, post: LoopsView) -> bool {
    let b = pre.books[book];
    let a = post.books[book];
    &&& post.books.len() == pre.books.len()
    &&& forall|i: int|
        0 <= i < pre.books.len() && i != book ==> #[trigger] post.books[i] == pre.books[i]
    &&& post.repaints == pre.repaints
    &&& shown == b.current
    &&& a.current == b.current
    &&& a.max == b.max
    &&& a.rerender == b.rerender
    &&& a.duration == b.duration
    &&& a.curve == b.curve
    &&& a.read_seen
    &&& a.started
    &&& !a.paused
    &&& b.started && !b.paused ==> post.actions == pre.actions
    &&& !b.started || b.paused ==> {
        &&& post.actions.len() == pre.actions.len() + 1
        &&& post.actions.drop_last() == pre.actions
        &&& post.actions.last() matches LoopAction::Start(start) && start.book == book
            && start.duration == b.duration && start.curve == b.curve && start.plays
            == Plays::Forever
    }
}

/// Reading a loop is what `reads_loop` says.
pub proof fn law_loop_sync(loops: &mut Loops, book: usize, shown: i32)
    requires
        call_ensures(Loops::sync, (loops, book), shown),
        book < old(loops)@.books.len(),
    ensures
        reads_loop(old(loops)@, book as int, shown, final(loops)@),
{
    assert(final(loops)@.actions.len() > old(loops)@.actions.len()
        ==> final(loops)@.actions.drop_last() =~= old(loops)@.actions);
}

/// A frame of a loop sets its phase to the share of `max` that belongs to the progress and
/// asks for the repaint of the loop; nothing else changes.
pub proof fn law_loop_frame(loops: &mut Loops, book: usize, p: AnimationProgress, i: int)
    requires
        call_ensures(Loops::frame, (loops, book, p), ()),
        book < old(loops)@.books.len(),
        p <= 65535 || -0x8000_0000 <= old(loops)@.books[book as int].max * (p / 2) <= 0x7fff_ffff,
    ensures
        final(loops)@.books.len() == old(loops)@.books.len(),
        i != book && 0 <= i < old(loops)@.books.len() ==> final(loops)@.books[i] == old(
            loops,
        )@.books[i],
        final(loops)@.actions == old(loops)@.actions,
        final(loops)@.repaints.len() == old(loops)@.repaints.len() + 1,
        final(loops)@.repaints.drop_last() == old(loops)@.repaints,
        final(loops)@.repaints.last() == old(loops)@.books[book as int].rerender,
        ({
            let b = old(loops)@.books[book as int];
            let a = final(loops)@.books[book as int];
            &&& is_share(a.current as int, b.max as int, p as int)
            &&& p <= 65535 && b.max >= 0 ==> 0 <= a.current <= b.max
            &&& a.max == b.max
            &&& a.rerender == b.rerender
            &&& a.started == b.started
            &&& a.read_seen == b.read_seen
            &&& a.paused == b.paused
            &&& a.duration == b.duration
            &&& a.curve == b.curve
        }),
{
    let max = old(loops)@.books[book as int].max as int;
    lemma_share(max, p);
    if p <= 65535 {
        law_scaling(max, p, 65535);
    }
    assert(final(loops)@.repaints.drop_last() =~= old(loops)@.repaints);
}

/// The end of a frame forgets that the loop was seen. A loop that was not seen is paused,
/// and stopped if it was started; one that was seen goes on as it was.
pub proof fn law_loop_end_frame(loops: &mut Loops, book: usize, i: int)
    requires
        call_ensures(Loops::end_frame, (loops, book), ()),
        book < old(loops)@.books.len(),
    ensures
        final(loops)@.books.len() == old(loops)@.books.len(),
        i != book && 0 <= i < old(loops)@.books.len() ==> final(loops)@.books[i] == old(
            loops,
        )@.books[i],
        final(loops)@.repaints == old(loops)@.repaints,
        ({
            let b = old(loops)@.books[book as int];
            let a = final(loops)@.books[book as int];
            &&& !a.read_seen
            &&& b.read_seen ==> a.paused == b.paused && final(loops)@.actions == old(
                loops,
            )@.actions
            &&& !b.read_seen ==> a.paused
            &&& !b.read_seen && !b.started ==> final(loops)@.actions == old(loops)@.actions
            &&& !b.read_seen && b.started ==> {
                &&& final(loops)@.actions.len() == old(loops)@.actions.len() + 1
                &&& final(loops)@.actions.drop_last() == old(loops)@.actions
                &&& final(loops)@.actions.last() == LoopAction::Stop(book)
            }
            &&& a.current == b.current
            &&& a.max == b.max
            &&& a.rerender == b.rerender
            &&& a.started == b.started
            &&& a.duration == b.duration
            &&& a.curve == b.curve
        }),
{
    assert(final(loops)@.actions.len() > old(loops)@.actions.len()
        ==> final(loops)@.actions.drop_last() =~= old(loops)@.actions);
}

/// A frame is accepted exactly if there is such a loop and the product of `max` and the
/// halved progress fits. Such a frame can be made.
pub proof fn law_accepted_loop_frames(
    loops: &Loops,
    book: usize,
    p: AnimationProgress,
    accepts: bool,
    same: &mut Loops,
)
    requires
        call_ensures(Loops::accepts_frame, (loops, book, p), accepts),
        old(same)@ == loops@,
    ensures
        accepts ==> call_requires(Loops::frame, (same, book, p)),
        accepts <==> book < loops@.books.len() && -0x8000_0000 <= loops@.books[book as int].max * (
        p / 2) <= 0x7fff_ffff,
{
}

/// Taking a queue hands out all of it, in order, and leaves it empty; nothing else changes.
pub proof fn law_take_loop_queues(
    one: &mut Loops,
    actions: Vec<LoopAction>,
    other: &mut Loops,
    repaints: Vec<Repaint>,
)
    requires
        call_ensures(Loops::take_actions, (one,), actions),
        call_ensures(Loops::take_repaints, (other,), repaints),
    ensures
        actions@ == old(one)@.actions,
        final(one)@.actions.len() == 0,
        final(one)@.books == old(one)@.books,
        final(one)@.repaints == old(one)@.repaints,
        repaints@ == old(other)@.repaints,
        final(other)@.repaints.len() == 0,
        final(other)@.books == old(other)@.books,
        final(other)@.actions == old(other)@.actions,
{
}

/// A looping state can always be read; a read of it, and of its conversions, reads its own
/// loop. A snapshot shows what a read would show, and holding the value is reading it.
pub proof fn law_looping_read(
    looping: LoopingState,
    state: State<Loops, i32>,
    converted: State<Loops, i32>,
    borrowed: State<Loops, i32>,
    pre: Loops,
    value: i32,
    snap: Snap<i32>,
    post: Loops,
)
    requires
        call_ensures(LoopingState::as_state, (&looping,), state),
        call_ensures(<State<Loops, i32> as From<LoopingState>>::from, (looping,), converted),
        call_ensures(<State<Loops, i32> as From<&LoopingState>>::from, (&looping,), borrowed),
        0 <= looping.book() < pre@.books.len(),
    ensures
        state.readable(pre),
        state.reads(pre, value, post) ==> reads_loop(pre@, looping.book(), value, post@),
        state.snaps(pre, snap, post) && snap.points_to(&value) ==> state.reads(pre, value, post),
        state.holds(pre, value, post) <==> state.reads(pre, value, post),
        state.can_hold(pre),
        state.can_release(pre),
        state.releases(pre, post) <==> post == pre,
        converted.readable(pre),
        converted.reads(pre, value, post) <==> state.reads(pre, value, post),
        converted.snaps(pre, snap, post) <==> state.snaps(pre, snap, post),
        borrowed.readable(pre),
        borrowed.reads(pre, value, post) <==> state.reads(pre, value, post),
        borrowed.snaps(pre, snap, post) <==> state.snaps(pre, snap, post),
{
    if state.reads(pre, value, post) {
        crate::animation::lemma_loop_book_fits(&looping);
        assert(post@.actions.len() > pre@.actions.len() ==> post@.actions.drop_last()
            =~= pre@.actions);
    }
}

/// A loop that is read between any two ends of a frame goes on; one that is not is stopped
/// once and paused at the end of the frame, shows the same phase when it is read next, and
/// is started again by that read.
pub proof fn law_loop_stops_and_resumes(
    one: &mut Loops,
    two: &mut Loops,
    book: usize,
    shown: i32,
)
    requires
        call_ensures(Loops::end_frame, (one, book), ()),
        call_ensures(Loops::sync, (two, book), shown),
        book < old(one)@.books.len(),
        old(one)@.books[book as int].started,
        !old(one)@.books[book as int].paused,
        old(two)@ == final(one)@,
    ensures
        shown == old(one)@.books[book as int].current,
        old(one)@.books[book as int].read_seen ==> final(two)@.actions == old(one)@.actions,
        !old(one)@.books[book as int].read_seen ==> final(two)@.actions.len() == old(
            one,
        )@.actions.len() + 2 && final(two)@.actions[old(one)@.actions.len() as int]
            == LoopAction::Stop(book) && final(two)@.actions.last() is Start,
        final(two)@.books[book as int].started,
        !final(two)@.books[book as int].paused,
{
    law_loop_end_frame(one, book, 0);
    law_loop_sync(two, book, shown);
}

} // verus!
