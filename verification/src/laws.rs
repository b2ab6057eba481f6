//! What holds of the library as a whole.
//!
//! Each function here states a law over the spec functions that the contracts of the
//! executable functions use, and proves it.
use vstd::prelude::*;
use vstd::std_specs::cmp::PartialEqSpec;

use crate::animation::{
    animates, loops, scaled, scales, AnimationProgress, Book, Interpolatable, LoopAction, LoopBook,
    Loops, LoopsView, Plays, Start, Tweens, TweensView, ANIMATION_NORMALIZED_MAX, TRIG_MAX_ANGLE,
};
use crate::cell::CellView;
use crate::graphics::{GRect, TextBuf};
use crate::indicator::{down_strip, up_strip};
use crate::layer::{draw_in_paints, draw_paints, gate_draws, DrawIn, TextContent};
use crate::menu::{answers, Callback, MenuLayerRef};
use crate::message::{is_complete, with_chunk, TaconiteMessageKey};
use crate::screen::{
    bundles, committed, route, steps_of, without, RouterEntry, RouterView, ScreenCtxView,
    ScreenStep, WindowEvent,
};
use crate::snap::Snap;
use crate::state::{lifts_first, lifts_second, State};
use crate::store::{views_cell, Repaint, Shared, Store, StoreView};

verus! {

// ── Cells ───────────────────────────────────────────────────────────────────────

/// A shared borrow that is handed back leaves the cell as it was, and while it is out the
/// cell can be borrowed again to read but not to write.
pub proof fn law_shared_borrow<T>(cell: CellView<T>)
    requires
        cell.is_readable(),
    ensures
        cell.shared_once_more().shared_once_less() == cell,
        cell.shared_once_more().is_readable(),
        !cell.shared_once_more().is_free(),
        cell.shared_once_more().value == cell.value,
{
}

/// While a cell is borrowed to write it can be borrowed neither to read nor to write, and
/// handing the borrow back frees it.
pub proof fn law_mutable_borrow<T>(cell: CellView<T>)
    requires
        cell.is_free(),
    ensures
        !cell.writing().is_readable(),
        !cell.writing().is_free(),
        cell.writing().free_with(cell.value) == cell,
{
}

/// Whatever is done with a cell, its counter stays `-1`, `0`, or a count of shared borrows.
pub proof fn law_counter_stays_in_range<T>(cell: CellView<T>, value: T)
    requires
        cell.well_formed(),
    ensures
        (CellView { value, borrow: 0 }).well_formed(),
        cell.is_readable() ==> cell.shared_once_more().well_formed(),
        cell.borrow > 0 ==> cell.shared_once_less().well_formed(),
        cell.is_free() ==> cell.writing().well_formed(),
        cell.free_with(value).well_formed(),
{
}

// ── Snaps ───────────────────────────────────────────────────────────────────────

/// Narrowing a snap that shows `whole` shows whatever the projection makes of `whole`.
pub proof fn law_focus_of_a_snap<T: ?Sized, U: ?Sized, F: Fn(&T) -> &U>(
    parent: Snap<T>,
    whole: &T,
    part: Snap<U>,
    f: F,
    value: &U,
)
    requires
        parent.shows(whole),
        part.narrows(parent, f),
    ensures
        part.points_to(value) <==> call_ensures(f, (whole,), value),
{
    assert(parent.points_to(whole));
}

// ── States ──────────────────────────────────────────────────────────────────────

/// A constant reads the same in every world, and reading it changes nothing.
pub proof fn law_fixed_never_changes<W, T>(
    state: State<W, T>,
    constant: T,
    pre: W,
    value: T,
    post: W,
)
    requires
        state.is_fixed(constant),
        state.reads(pre, value, post),
    ensures
        value == constant,
        post == pre,
{
}

/// A view of a cell reads the value that the cell holds now, and nothing else; reading it
/// changes nothing.
pub proof fn law_view_reads_the_cell<V>(
    state: State<Store<V>, V>,
    cell: Shared<V>,
    pre: Store<V>,
    value: V,
    post: Store<V>,
)
    requires
        views_cell(state, cell),
        state.reads(pre, value, post),
    ensures
        value == pre@.at(cell).value,
        post == pre,
{
}

/// After an update every view of the cell reads what the update wrote, whichever handle
/// wrote it.
pub proof fn law_read_after_update<V>(
    state: State<Store<V>, V>,
    cell: Shared<V>,
    before: Store<V>,
    written: V,
    rerender: Repaint,
    after: Store<V>,
    value: V,
    post: Store<V>,
)
    requires
        views_cell(state, cell),
        before@.holds(cell),
        after@ == before@.updated(cell, written, rerender),
        state.reads(after, value, post),
    ensures
        state.readable(after),
        value == written,
        post == after,
{
    law_view_reads_the_cell(state, cell, after, value, post);
}

/// An update leaves every other cell alone: a view of one reads what it read before.
pub proof fn law_update_is_local<V>(
    state: State<Store<V>, V>,
    other: Shared<V>,
    cell: Shared<V>,
    before: Store<V>,
    written: V,
    rerender: Repaint,
    after: Store<V>,
    value: V,
    post: Store<V>,
)
    requires
        views_cell(state, other),
        before@.holds(cell),
        before@.holds(other),
        other.index() != cell.index(),
        after@ == before@.updated(cell, written, rerender),
        state.reads(after, value, post),
    ensures
        after@.at(other) == before@.at(other),
        value == before@.at(other).value,
        post == after,
{
    law_view_reads_the_cell(state, other, after, value, post);
}

/// A snapshot of a cell keeps showing the value of the moment when it was taken, also once
/// an update has written another one.
pub proof fn law_snapshot_is_pinned<V>(
    state: State<Store<V>, V>,
    cell: Shared<V>,
    pre: Store<V>,
    snap: Snap<V>,
    post: Store<V>,
    written: V,
    rerender: Repaint,
    later: Store<V>,
    now: V,
    end: Store<V>,
)
    requires
        views_cell(state, cell),
        pre@.holds(cell),
        state.snaps(pre, snap, post),
        later@ == post@.updated(cell, written, rerender),
        state.reads(later, now, end),
    ensures
        snap.shows(&pre@.at(cell).value),
        now == written,
        written != pre@.at(cell).value ==> !snap.points_to(&now),
{
}

/// A constant leaves the world alone.
pub proof fn law_fixed_is_pure<W, T>(state: State<W, T>, constant: T)
    requires
        state.is_fixed(constant),
    ensures
        state.is_pure(),
{
}

/// A view of a cell leaves the store alone.
pub proof fn law_view_is_pure<V>(state: State<Store<V>, V>, cell: Shared<V>)
    requires
        views_cell(state, cell),
    ensures
        state.is_pure(),
{
}

/// A lens onto a state that leaves the world alone leaves it alone too.
pub proof fn law_focus_is_pure<W, A, T, F: Fn(&A) -> &T>(
    state: State<W, T>,
    src: State<W, A>,
    f: F,
)
    requires
        src.is_pure(),
        state.is_focus(src, f),
    ensures
        state.is_pure(),
{
}

/// A value built from a state that leaves the world alone leaves it alone too.
pub proof fn law_map_is_pure<W, A, T, F: Fn(&Snap<A>) -> T>(
    state: State<W, T>,
    src: State<W, A>,
    f: F,
)
    requires
        src.is_pure(),
        state.is_map(src, f),
    ensures
        state.is_pure(),
{
}

/// A value built from two states that leave the world alone leaves it alone too.
pub proof fn law_combine_is_pure<W, A, B, T, F: Fn(&Snap<A>, &Snap<B>) -> T>(
    state: State<W, T>,
    a: State<W, A>,
    b: State<W, B>,
    f: F,
)
    requires
        a.is_pure(),
        b.is_pure(),
        state.is_combine(a, b, f),
    ensures
        state.is_pure(),
{
}

/// A lens onto a cell reads the projection of what the cell holds now.
pub proof fn law_focus_pulls_the_current_value<V, U, F: Fn(&V) -> &U>(
    base: State<Store<V>, V>,
    cell: Shared<V>,
    state: State<Store<V>, U>,
    f: F,
    pre: Store<V>,
    value: U,
    post: Store<V>,
)
    requires
        views_cell(base, cell),
        state.is_focus(base, f),
        state.reads(pre, value, post),
    ensures
        call_ensures(f, (&pre@.at(cell).value,), &value),
        post == pre,
{
}

/// A value built from a cell is built from a snapshot of what the cell holds now.
pub proof fn law_map_pulls_the_current_value<V, U, F: Fn(&Snap<V>) -> U>(
    base: State<Store<V>, V>,
    cell: Shared<V>,
    state: State<Store<V>, U>,
    f: F,
    pre: Store<V>,
    value: U,
    post: Store<V>,
)
    requires
        views_cell(base, cell),
        state.is_map(base, f),
        state.reads(pre, value, post),
    ensures
        exists|snap: Snap<V>| #[trigger]
            snap.shows(&pre@.at(cell).value) && call_ensures(f, (&snap,), value),
        post == pre,
{
}

/// One value from two cells is built from snapshots of what both hold now.
pub proof fn law_combine_pulls_both_current_values<V, U, F: Fn(&Snap<V>, &Snap<V>) -> U>(
    a: State<Store<V>, V>,
    cell_a: Shared<V>,
    b: State<Store<V>, V>,
    cell_b: Shared<V>,
    state: State<Store<V>, U>,
    f: F,
    pre: Store<V>,
    value: U,
    post: Store<V>,
)
    requires
        views_cell(a, cell_a),
        views_cell(b, cell_b),
        state.is_combine(a, b, f),
        state.reads(pre, value, post),
    ensures
        exists|snap_a: Snap<V>, snap_b: Snap<V>|
            #![trigger snap_a.shows(&pre@.at(cell_a).value), snap_b.shows(&pre@.at(cell_b).value)]
            snap_a.shows(&pre@.at(cell_a).value) && snap_b.shows(&pre@.at(cell_b).value)
                && call_ensures(f, (&snap_a, &snap_b), value),
        post == pre,
{
}

/// One value from two cells of different types, kept in two stores, is built from
/// snapshots of what both hold now.
pub proof fn law_combine_reads_two_stores<A, B, U, F: Fn(&Snap<A>, &Snap<B>) -> U>(
    a: State<Store<A>, A>,
    cell_a: Shared<A>,
    b: State<Store<B>, B>,
    cell_b: Shared<B>,
    first: State<(Store<A>, Store<B>), A>,
    second: State<(Store<A>, Store<B>), B>,
    state: State<(Store<A>, Store<B>), U>,
    f: F,
    pre: (Store<A>, Store<B>),
    value: U,
    post: (Store<A>, Store<B>),
)
    requires
        views_cell(a, cell_a),
        views_cell(b, cell_b),
        lifts_first(first, a),
        lifts_second(second, b),
        state.is_combine(first, second, f),
        state.reads(pre, value, post),
    ensures
        exists|snap_a: Snap<A>, snap_b: Snap<B>|
            #![trigger snap_a.shows(&pre.0@.at(cell_a).value), snap_b.shows(&pre.1@.at(cell_b).value)]
            snap_a.shows(&pre.0@.at(cell_a).value) && snap_b.shows(&pre.1@.at(cell_b).value)
                && call_ensures(f, (&snap_a, &snap_b), value),
        post == pre,
{
}

/// A lens onto any state reads the projection of what the state reads, and nothing else.
pub proof fn law_lens_projects<W, A, T, F: Fn(&A) -> &T>(
    base: State<W, A>,
    state: State<W, T>,
    f: F,
    pre: W,
    value: T,
    post: W,
)
    requires
        state.is_focus(base, f),
    ensures
        state.reads(pre, value, post) <==> exists|a: A| #[trigger]
            base.reads(pre, a, post) && call_ensures(f, (&a,), &value),
{
}

/// A lens onto a lens reads through both: it shows exactly what the second makes of what
/// the first makes of the value underneath.
pub proof fn law_lenses_compose<W, A, B, C, F: Fn(&A) -> &B, G: Fn(&B) -> &C>(
    base: State<W, A>,
    middle: State<W, B>,
    top: State<W, C>,
    f: F,
    g: G,
    pre: W,
    value: C,
    post: W,
)
    requires
        middle.is_focus(base, f),
        top.is_focus(middle, g),
    ensures
        top.reads(pre, value, post) <==> exists|a: A, b: B|
            #![trigger base.reads(pre, a, post), call_ensures(f, (&a,), &b)]
            base.reads(pre, a, post) && call_ensures(f, (&a,), &b) && call_ensures(
                g,
                (&b,),
                &value,
            ),
{
    if top.reads(pre, value, post) {
        let b = choose|b: B| #[trigger]
            middle.reads(pre, b, post) && call_ensures(g, (&b,), &value);
        let a = choose|a: A| #[trigger] base.reads(pre, a, post) && call_ensures(f, (&a,), &b);
        assert(base.reads(pre, a, post) && call_ensures(f, (&a,), &b));
    }
    if exists|a: A, b: B|
        #![trigger base.reads(pre, a, post), call_ensures(f, (&a,), &b)]
        base.reads(pre, a, post) && call_ensures(f, (&a,), &b) && call_ensures(g, (&b,), &value) {
        let (a, b) = choose|a: A, b: B|
            #![trigger base.reads(pre, a, post), call_ensures(f, (&a,), &b)]
            base.reads(pre, a, post) && call_ensures(f, (&a,), &b) && call_ensures(
                g,
                (&b,),
                &value,
            );
        assert(middle.reads(pre, b, post));
    }
}

/// The lens that projects each value to itself changes nothing.
pub proof fn law_identity_lens<W, A, F: Fn(&A) -> &A>(
    base: State<W, A>,
    state: State<W, A>,
    f: F,
    pre: W,
    value: A,
    post: W,
)
    requires
        state.is_focus(base, f),
        forall|a: A| #[trigger] call_requires(f, (&a,)),
        forall|a: A, b: A| #[trigger] call_ensures(f, (&a,), &b) <==> b == a,
    ensures
        state.readable(pre) <==> base.readable(pre),
        state.reads(pre, value, post) <==> base.reads(pre, value, post),
{
    if base.reads(pre, value, post) {
        assert(call_ensures(f, (&value,), &value));
    }
}

/// Snapshots of constants and of cells show what a read shows.
pub proof fn law_snapshots_show_what_is_read<W, T, V>(
    fixed: State<W, T>,
    constant: T,
    view: State<Store<V>, V>,
    cell: Shared<V>,
)
    requires
        fixed.is_fixed(constant),
        views_cell(view, cell),
    ensures
        fixed.snaps_what_it_reads(),
        view.snaps_what_it_reads(),
{
}

/// Snapshots through a lens show what a read through it shows.
pub proof fn law_focus_snaps_what_it_reads<W, A, T, F: Fn(&A) -> &T>(
    state: State<W, T>,
    src: State<W, A>,
    f: F,
)
    requires
        src.snaps_what_it_reads(),
        state.is_focus(src, f),
    ensures
        state.snaps_what_it_reads(),
{
    assert forall|pre: W, snap: Snap<T>, post: W, value: T|
        #![trigger state.snaps(pre, snap, post), snap.points_to(&value)]
        state.snaps(pre, snap, post) && snap.points_to(&value) implies state.reads(
        pre,
        value,
        post,
    ) by {
        let parent = choose|parent: Snap<A>| #[trigger]
            src.snaps(pre, parent, post) && snap.narrows(parent, f);
        let a = choose|a: A| #[trigger] parent.points_to(&a) && call_ensures(f, (&a,), &value);
        assert(src.reads(pre, a, post));
    }
}

/// A state that is read from one half of a pair of worlds leaves the pair alone if it leaves
/// its own half alone, and its snapshots show what it reads if they did so there.
pub proof fn law_lifted_state_keeps_its_ways<W1, W2, T, U>(
    one: State<W1, T>,
    first: State<(W1, W2), T>,
    other: State<W2, U>,
    second: State<(W1, W2), U>,
)
    requires
        lifts_first(first, one),
        lifts_second(second, other),
    ensures
        one.is_pure() ==> first.is_pure(),
        other.is_pure() ==> second.is_pure(),
        one.snaps_what_it_reads() ==> first.snaps_what_it_reads(),
        other.snaps_what_it_reads() ==> second.snaps_what_it_reads(),
{
}

/// Snapshots of built values show what a read of them shows.
pub proof fn law_built_snaps_what_it_reads<
    W,
    A,
    B,
    T,
    F: Fn(&Snap<A>) -> T,
    G: Fn(&Snap<A>, &Snap<B>) -> T,
>(mapped: State<W, T>, f: F, combined: State<W, T>, g: G, a: State<W, A>, b: State<W, B>)
    requires
        mapped.is_map(a, f),
        combined.is_combine(a, b, g),
    ensures
        mapped.snaps_what_it_reads(),
        combined.snaps_what_it_reads(),
{
}

/// Snapshots of animated values and of loops show what a read of them shows.
pub proof fn law_animated_snaps_what_it_reads<W, T: Interpolatable>(
    animated: State<(W, Tweens<T>), T>,
    source: State<W, T>,
    book: int,
    looping: State<Loops, i32>,
    loop_book: int,
)
    requires
        animates(animated, source, book),
        loops(looping, loop_book),
    ensures
        animated.snaps_what_it_reads(),
        looping.snaps_what_it_reads(),
{
}

/// Two views of one cell are interchangeable.
pub proof fn law_views_of_a_cell_agree<V>(
    one: State<Store<V>, V>,
    other: State<Store<V>, V>,
    cell: Shared<V>,
    pre: Store<V>,
    value: V,
    snap: Snap<V>,
    post: Store<V>,
)
    requires
        views_cell(one, cell),
        views_cell(other, cell),
    ensures
        one.readable(pre) <==> other.readable(pre),
        one.reads(pre, value, post) <==> other.reads(pre, value, post),
        one.snaps(pre, snap, post) <==> other.snaps(pre, snap, post),
{
}

/// While a read guard is out, or a view runs, the cell is not free, so every update of it is
/// refused; views of the cell still read the same value; and handing the borrow back leaves
/// the store as it was.
pub proof fn law_read_guard_blocks_updates<V>(
    state: State<Store<V>, V>,
    cell: Shared<V>,
    before: Store<V>,
    during: Store<V>,
)
    requires
        views_cell(state, cell),
        before@.holds(cell),
        before@.at(cell).is_readable(),
        during@ == before@.with_cell(cell, before@.at(cell).shared_once_more()),
    ensures
        !during@.at(cell).is_free(),
        state.readable(during),
        during@.at(cell).value == before@.at(cell).value,
        during@.with_cell(cell, during@.at(cell).shared_once_less()) == before@,
{
    assert(during@.with_cell(cell, during@.at(cell).shared_once_less()) =~= before@);
}

// ── Animated values ─────────────────────────────────────────────────────────────

/// The first read shows the value of the source at once and starts nothing.
pub proof fn law_first_read_snaps<T: Interpolatable>(book: Book<T>, goal: T)
    requires
        book.target is None,
    ensures
        book.shown_on_read(goal) == goal,
        !book.retargets(goal),
        !book.finds(goal, true),
        book.after_read(goal, false).current == Some(goal),
        book.after_read(goal, false).target == Some(goal),
{
}

/// Where a type gives `==` a meaning, a read finds the source moved exactly when the target
/// and the goal differ by it.
pub proof fn law_reads_find_what_differs<T: Interpolatable>(book: Book<T>, goal: T, moved: bool)
    requires
        T::obeys_eq_spec(),
        book.finds(goal, moved),
    ensures
        moved == book.retargets(goal),
{
}

/// While the source stays at the target, reads change nothing and start nothing.
pub proof fn law_settled_reads_change_nothing<T: Interpolatable>(book: Book<T>, goal: T)
    requires
        book.target is Some,
    ensures
        book.after_read(goal, false) == book,
{
}

/// A read that finds the source moved shows the value where it is: the motion starts from
/// what was shown last, without a jump, and goes to the new value.
pub proof fn law_retargeting_does_not_jump<T: Interpolatable>(book: Book<T>, goal: T, shown: T)
    requires
        book.target is Some,
        book.current == Some(shown),
    ensures
        book.shown_on_read(goal) == shown,
        book.after_read(goal, true).from == Some(shown),
        book.after_read(goal, true).current == Some(shown),
        book.after_read(goal, true).target == Some(goal),
{
}

/// The animated value of a book that was read once and whose source stays put is the
/// value of the source, however often it is read.
pub proof fn law_unmoved_source_is_shown<T: Interpolatable>(rerender: Repaint, goal: T)
    ensures
        Book::unread(rerender).after_read(goal, false).shown_on_read(goal) == goal,
        Book::unread(rerender).after_read(goal, false).after_read(goal, false) == Book::unread(
            rerender,
        ).after_read(goal, false),
{
}

/// Reading an animated state leaves the books of all others alone, asks for no repaint,
/// and starts at most the animation of its own book, with its duration and curve.
pub proof fn law_animated_read_is_local<W, T: Interpolatable>(
    state: State<(W, Tweens<T>), T>,
    source: State<W, T>,
    book: int,
    pre: (W, Tweens<T>),
    value: T,
    post: (W, Tweens<T>),
    other: int,
)
    requires
        animates(state, source, book),
        0 <= book < pre.1@.books.len(),
        0 <= other < pre.1@.books.len(),
        other != book,
        state.reads(pre, value, post),
    ensures
        post.1@.books.len() == pre.1@.books.len(),
        post.1@.books[other] == pre.1@.books[other],
        post.1@.repaints == pre.1@.repaints,
        post.1@.starts == pre.1@.starts || post.1@.starts == pre.1@.starts.push(
            Start {
                book: book as usize,
                duration: pre.1@.books[book].duration,
                curve: pre.1@.books[book].curve,
                plays: Plays::Once,
            },
        ),
{
}

/// A span scaled by no progress is nothing, and scaled by full progress is the whole span;
/// in between it stays between nothing and the span, and more progress never gives less of
/// it.
pub proof fn law_scaling(span: int, p: AnimationProgress, q: AnimationProgress)
    requires
        p <= q <= ANIMATION_NORMALIZED_MAX,
    ensures
        scaled(span, 0) == 0,
        scaled(span, ANIMATION_NORMALIZED_MAX) == span,
        span >= 0 ==> 0 <= scaled(span, p) <= scaled(span, q) <= span,
        span <= 0 ==> span <= scaled(span, q) <= scaled(span, p) <= 0,
{
    let size = if span >= 0 {
        span
    } else {
        -span
    };
    let hp = (p / 2) as int;
    let hq = (q / 2) as int;
    assert(0 <= hp <= hq <= 32767);
    assert(span * 0 == 0);
    assert(0 <= size * hp <= size * hq <= size * 32767) by (nonlinear_arith)
        requires
            0 <= size,
            0 <= hp <= hq <= 32767,
    ;
    assert(size * hp / 32767 <= size * hq / 32767 <= size * 32767 / 32767);
    assert(span * hp == if span >= 0 {
        size * hp
    } else {
        -(size * hp)
    }) by (nonlinear_arith)
        requires
            size == (if span >= 0 {
                span
            } else {
                -span
            }),
    ;
    assert(span * hq == if span >= 0 {
        size * hq
    } else {
        -(size * hq)
    }) by (nonlinear_arith)
        requires
            size == (if span >= 0 {
                span
            } else {
                -span
            }),
    ;
}

/// An interpolation sets out at `from`, arrives at `to`, stays between the two, and never
/// moves back.
pub proof fn law_interpolation(from: i32, to: i32, p: AnimationProgress, q: AnimationProgress)
    requires
        p <= q <= ANIMATION_NORMALIZED_MAX,
    ensures
        i32::interpolated(from, to, 0) == from,
        i32::interpolated(from, to, ANIMATION_NORMALIZED_MAX) == to,
        from <= to ==> from <= i32::interpolated(from, to, p) <= i32::interpolated(from, to, q)
            <= to,
        to <= from ==> to <= i32::interpolated(from, to, q) <= i32::interpolated(from, to, p)
            <= from,
{
    law_scaling(to - from, p, q);
}

/// Between values that are at most a full turn apart every frame is defined.
pub proof fn law_turns_interpolate(from: i32, to: i32, p: AnimationProgress)
    requires
        -TRIG_MAX_ANGLE <= to - from <= TRIG_MAX_ANGLE,
        p <= ANIMATION_NORMALIZED_MAX,
    ensures
        i32::can_interpolate(from, to, p),
{
    law_scaling(to - from, p, ANIMATION_NORMALIZED_MAX);
    let span = to - from;
    let half = (p / 2) as int;
    assert(-0x7fff_ffff <= span * half <= 0x7fff_ffff) by (nonlinear_arith)
        requires
            -0x10000 <= span <= 0x10000,
            0 <= half <= 32767,
    ;
}

/// Reads and frames keep a book whole: it never says where the value goes without saying
/// where it set out and what it shows.
pub proof fn law_books_stay_whole<T: Interpolatable>(
    book: Book<T>,
    rerender: Repaint,
    goal: T,
    moved: bool,
    p: AnimationProgress,
)
    requires
        book.well_formed(),
    ensures
        Book::<T>::unread(rerender).well_formed(),
        book.after_read(goal, moved).well_formed(),
        book.after_frame(p).well_formed(),
{
}

/// An animated value catches up with its source: whatever it showed before, a read that
/// finds the source at `goal` followed by the last frame of the animation makes the next
/// read show `goal`.
pub proof fn law_animated_value_catches_up(book: Book<i32>, goal: i32, moved: bool)
    requires
        book.well_formed(),
        book.finds(goal, moved),
    ensures
        book.after_read(goal, moved).after_frame(ANIMATION_NORMALIZED_MAX).shown_on_read(goal)
            == goal,
        !book.after_read(goal, moved).after_frame(ANIMATION_NORMALIZED_MAX).retargets(goal),
{
    let moving = book.after_read(goal, moved);
    law_interpolation(moving.from->0, moving.target->0, 0, ANIMATION_NORMALIZED_MAX);
}

/// On its way an animated value stays between what it showed when the source moved and the
/// value of the source.
pub proof fn law_animated_value_stays_on_its_way(
    book: Book<i32>,
    shown: i32,
    goal: i32,
    p: AnimationProgress,
)
    requires
        book.current == Some(shown),
        book.finds(goal, true),
        p <= ANIMATION_NORMALIZED_MAX,
    ensures
        shown <= goal ==> shown <= book.after_read(goal, true).after_frame(p).shown_on_read(goal)
            <= goal,
        goal <= shown ==> goal <= book.after_read(goal, true).after_frame(p).shown_on_read(goal)
            <= shown,
{
    law_interpolation(shown, goal, p, ANIMATION_NORMALIZED_MAX);
}

/// The last frame of an animation shows its target, and the reads after it, with the
/// source still there, show the target and start nothing.
pub proof fn law_animation_arrives(book: Book<i32>, from: i32, target: i32)
    requires
        book.from == Some(from),
        book.target == Some(target),
    ensures
        book.after_frame(ANIMATION_NORMALIZED_MAX).current == Some(target),
        book.after_frame(ANIMATION_NORMALIZED_MAX).shown_on_read(target) == target,
        !book.after_frame(ANIMATION_NORMALIZED_MAX).retargets(target),
{
    law_interpolation(from, target, 0, ANIMATION_NORMALIZED_MAX);
}

/// While the source is at the target, be it back there or still there, a read shows what
/// was shown before, starts nothing and changes no book, and so does the next.
pub proof fn law_settled_animated_reads<W, T: Interpolatable>(
    source: State<W, T>,
    state: State<(W, Tweens<T>), T>,
    book: int,
    shown: T,
    pre: (W, Tweens<T>),
    value: T,
    mid: (W, Tweens<T>),
    again: T,
    post: (W, Tweens<T>),
)
    requires
        animates(state, source, book),
        0 <= book < pre.1@.books.len(),
        pre.1@.books[book].target is Some,
        pre.1@.books[book].current == Some(shown),
        forall|goal: T, after: W| #[trigger]
            source.reads(pre.0, goal, after) ==> !pre.1@.books[book].finds(goal, true),
        forall|goal: T, after: W| #[trigger]
            source.reads(mid.0, goal, after) ==> !pre.1@.books[book].finds(goal, true),
        state.reads(pre, value, mid),
        state.reads(mid, again, post),
    ensures
        value == shown,
        again == shown,
        mid.1@ == pre.1@,
        post.1@ == pre.1@,
{
    let (goal, moved) = choose|goal: T, moved: bool|
        #![trigger source.reads(pre.0, goal, mid.0), pre.1@.books[book].finds(goal, moved)]
        source.reads(pre.0, goal, mid.0) && pre.1@.books[book].finds(goal, moved) && value
            == pre.1@.books[book].shown_on_read(goal) && mid.1@ == pre.1@.after_read(
            book,
            goal,
            moved,
        );
    assert(!moved);
    assert(pre.1@.after_read(book, goal, moved) =~= pre.1@);
    let (then, left) = choose|goal: T, moved: bool|
        #![trigger source.reads(mid.0, goal, post.0), mid.1@.books[book].finds(goal, moved)]
        source.reads(mid.0, goal, post.0) && mid.1@.books[book].finds(goal, moved) && again
            == mid.1@.books[book].shown_on_read(goal) && post.1@ == mid.1@.after_read(
            book,
            goal,
            moved,
        );
    assert(!left);
    assert(mid.1@.after_read(book, then, left) =~= mid.1@);
}

/// The books after a run of frames of the animation of `book`.
pub open spec fn after_frames<T: Interpolatable>(
    tweens: TweensView<T>,
    book: int,
    frames: Seq<AnimationProgress>,
) -> TweensView<T>
    decreases frames.len(),
{
    if frames.len() == 0 {
        tweens
    } else {
        after_frames(tweens, book, frames.drop_last()).after_frame(book, frames.last())
    }
}

/// Of a run of frames the last one counts; each asks for one repaint; no frame starts
/// anything or touches another book.
pub proof fn law_last_frame_counts<T: Interpolatable>(
    tweens: TweensView<T>,
    book: int,
    frames: Seq<AnimationProgress>,
)
    requires
        0 <= book < tweens.books.len(),
        frames.len() > 0,
    ensures
        after_frames(tweens, book, frames).books == tweens.books.update(
            book,
            tweens.books[book].after_frame(frames.last()),
        ),
        after_frames(tweens, book, frames).starts == tweens.starts,
        after_frames(tweens, book, frames).repaints == tweens.repaints + Seq::new(
            frames.len(),
            |i: int| tweens.books[book].rerender,
        ),
    decreases frames.len(),
{
    let earlier = frames.drop_last();
    if earlier.len() > 0 {
        law_last_frame_counts(tweens, book, earlier);
    }
    let before = after_frames(tweens, book, earlier);
    let now = after_frames(tweens, book, frames);
    assert(now.books =~= tweens.books.update(
        book,
        tweens.books[book].after_frame(frames.last()),
    ));
    assert(now.repaints =~= tweens.repaints + Seq::new(
        frames.len(),
        |i: int| tweens.books[book].rerender,
    ));
}

/// Once a read has found the source moved, and for as long as the source stays where it
/// was found, a read after any run of frames shows the interpolation from what was shown
/// to the source, at the progress of the last frame. It starts nothing.
pub proof fn law_animated_value_follows_its_frames<W, T: Interpolatable>(
    source: State<W, T>,
    state: State<(W, Tweens<T>), T>,
    book: int,
    shown: T,
    goal: T,
    pre: (W, Tweens<T>),
    first: T,
    mid: (W, Tweens<T>),
    frames: Seq<AnimationProgress>,
    framed: (W, Tweens<T>),
    value: T,
    post: (W, Tweens<T>),
)
    requires
        animates(state, source, book),
        0 <= book < pre.1@.books.len(),
        pre.1@.books[book].current == Some(shown),
        pre.1@.books[book].target is Some,
        !pre.1@.books[book].finds(goal, false),
        !call_ensures(T::eq, (&goal, &goal), false),
        forall|found: T, after: W| #[trigger] source.reads(pre.0, found, after) ==> found == goal,
        state.reads(pre, first, mid),
        frames.len() > 0,
        framed.1@ == after_frames(mid.1@, book, frames),
        forall|found: T, after: W| #[trigger]
            source.reads(framed.0, found, after) ==> found == goal,
        state.reads(framed, value, post),
    ensures
        first == shown,
        value == T::interpolated(shown, goal, frames.last()),
        post.1@ == framed.1@,
        mid.1@.starts.len() == pre.1@.starts.len() + 1,
        framed.1@.starts == mid.1@.starts,
        framed.1@.repaints == mid.1@.repaints + Seq::new(
            frames.len(),
            |i: int| pre.1@.books[book].rerender,
        ),
{
    let (found, moved) = choose|found: T, moved: bool|
        #![trigger source.reads(pre.0, found, mid.0), pre.1@.books[book].finds(found, moved)]
        source.reads(pre.0, found, mid.0) && pre.1@.books[book].finds(found, moved) && first
            == pre.1@.books[book].shown_on_read(found) && mid.1@ == pre.1@.after_read(
            book,
            found,
            moved,
        );
    assert(found == goal && moved);
    law_last_frame_counts(mid.1@, book, frames);
    let (seen, left) = choose|seen: T, left: bool|
        #![trigger source.reads(framed.0, seen, post.0), framed.1@.books[book].finds(seen, left)]
        source.reads(framed.0, seen, post.0) && framed.1@.books[book].finds(seen, left) && value
            == framed.1@.books[book].shown_on_read(seen) && post.1@ == framed.1@.after_read(
            book,
            seen,
            left,
        );
    assert(seen == goal && !left);
    assert(framed.1@.after_read(book, goal, left) =~= framed.1@);
}

/// An animated state over a cell catches up with it: a read, any run of frames that ends
/// with the last frame of the animation, and the next read shows what the cell holds,
/// starts nothing, and leaves the store alone.
pub proof fn law_animated_state_catches_up(
    source: State<Store<i32>, i32>,
    cell: Shared<i32>,
    state: State<(Store<i32>, Tweens<i32>), i32>,
    book: int,
    pre: (Store<i32>, Tweens<i32>),
    first: i32,
    mid: (Store<i32>, Tweens<i32>),
    frames: Seq<AnimationProgress>,
    framed: (Store<i32>, Tweens<i32>),
    value: i32,
    post: (Store<i32>, Tweens<i32>),
)
    requires
        views_cell(source, cell),
        animates(state, source, book),
        0 <= book < pre.1@.books.len(),
        pre.1@.books[book].well_formed(),
        state.reads(pre, first, mid),
        frames.len() > 0,
        frames.last() == ANIMATION_NORMALIZED_MAX,
        framed.0 == mid.0,
        framed.1@ == after_frames(mid.1@, book, frames),
        state.reads(framed, value, post),
    ensures
        value == pre.0@.at(cell).value,
        post.0 == pre.0,
        post.1@.starts == framed.1@.starts,
{
    let goal = pre.0@.at(cell).value;
    let (found, moved) = choose|found: i32, moved: bool|
        #![trigger source.reads(pre.0, found, mid.0), pre.1@.books[book].finds(found, moved)]
        source.reads(pre.0, found, mid.0) && pre.1@.books[book].finds(found, moved) && first
            == pre.1@.books[book].shown_on_read(found) && mid.1@ == pre.1@.after_read(
            book,
            found,
            moved,
        );
    assert(found == goal);
    law_animated_value_catches_up(pre.1@.books[book], goal, moved);
    law_last_frame_counts(mid.1@, book, frames);
    let (seen, left) = choose|seen: i32, left: bool|
        #![trigger source.reads(framed.0, seen, post.0), framed.1@.books[book].finds(seen, left)]
        source.reads(framed.0, seen, post.0) && framed.1@.books[book].finds(seen, left) && value
            == framed.1@.books[book].shown_on_read(seen) && post.1@ == framed.1@.after_read(
            book,
            seen,
            left,
        );
    assert(seen == goal);
    law_reads_find_what_differs(framed.1@.books[book], seen, left);
}

// ── Loops ───────────────────────────────────────────────────────────────────────

/// A phase stays within `0..=max`.
pub proof fn law_phase_in_range(book: LoopBook, p: AnimationProgress)
    requires
        book.max >= 0,
        p <= ANIMATION_NORMALIZED_MAX,
    ensures
        0 <= book.after_frame(p).current <= book.max,
        book.after_frame(0).current == 0,
        book.after_frame(ANIMATION_NORMALIZED_MAX).current == book.max,
{
    law_scaling(book.max as int, p, ANIMATION_NORMALIZED_MAX);
}

/// A loop up to a full turn can take every frame.
pub proof fn law_turns_loop(max: i32, p: AnimationProgress)
    requires
        0 <= max <= TRIG_MAX_ANGLE,
        p <= ANIMATION_NORMALIZED_MAX,
    ensures
        scales(max as int, p),
{
    let half = (p / 2) as int;
    assert(0 <= max * half <= 0x7fff_ffff) by (nonlinear_arith)
        requires
            0 <= max <= 0x10000,
            0 <= half <= 32767,
    ;
}

/// A loop that is read between the ends of two frames keeps running, be it before the
/// second frame or by its repaint: the end of the frame does not stop it, and the next read
/// does not start it again.
pub proof fn law_read_loop_keeps_running(book: LoopBook, p: AnimationProgress)
    ensures
        !book.after_read().after_frame(p).stops_at_end(),
        !book.after_read().after_frame(p).after_end().needs_start(),
        !book.after_frame(p).after_read().stops_at_end(),
        !book.after_frame(p).after_read().after_end().needs_start(),
{
}

/// A loop that nobody reads for a whole frame is stopped, and the next read starts it
/// again, once.
pub proof fn law_unread_loop_pauses(book: LoopBook, p: AnimationProgress, q: AnimationProgress)
    ensures
        book.after_read().after_frame(p).after_end().after_frame(q).stops_at_end(),
        book.after_read().after_frame(p).after_end().after_frame(q).after_end().needs_start(),
        !book.after_read().after_frame(p).after_end().after_frame(
            q,
        ).after_end().after_read().needs_start(),
{
}

/// A running loop that nobody reads from the end of one frame to the end of the next is
/// stopped once; the read after that shows the phase of the last frame, and starts one
/// fresh animation.
pub proof fn law_loop_resumes_where_it_paused(
    state: State<Loops, i32>,
    book: int,
    running: LoopsView,
    p: AnimationProgress,
    q: AnimationProgress,
    paused: Loops,
    value: i32,
    post: Loops,
)
    requires
        loops(state, book),
        0 <= book < running.books.len(),
        running.books[book].started,
        running.books[book].read_seen,
        scales(running.books[book].max as int, q),
        paused@ == running.after_frame(book, p).after_end(book).after_frame(book, q).after_end(
            book,
        ),
        state.reads(paused, value, post),
    ensures
        running.after_frame(book, p).after_end(book).actions == running.actions,
        paused@.actions == running.actions.push(LoopAction::Stop(book as usize)),
        value == scaled(running.books[book].max as int, q),
        post@.actions == paused@.actions.push(
            LoopAction::Start(
                Start {
                    book: book as usize,
                    duration: running.books[book].duration,
                    curve: running.books[book].curve,
                    plays: Plays::Forever,
                },
            ),
        ),
{
    lemma_scaled_fits(running.books[book].max as int, q);
}

/// What can be scaled gives a part that fits.
proof fn lemma_scaled_fits(span: int, p: AnimationProgress)
    requires
        scales(span, p),
    ensures
        i32::MIN <= scaled(span, p) <= i32::MAX,
{
}

/// The loops after rounds of a read, a frame and its end each.
pub open spec fn after_read_rounds(
    loops: LoopsView,
    book: int,
    frames: Seq<AnimationProgress>,
) -> LoopsView
    decreases frames.len(),
{
    if frames.len() == 0 {
        loops
    } else {
        after_read_rounds(loops, book, frames.drop_last()).after_read(book).after_frame(
            book,
            frames.last(),
        ).after_end(book)
    }
}

/// A running loop that is read between every two frames is never stopped, and no read
/// starts it again.
pub proof fn law_read_loop_is_never_stopped(
    running: LoopsView,
    book: int,
    frames: Seq<AnimationProgress>,
)
    requires
        0 <= book < running.books.len(),
        !running.books[book].needs_start(),
    ensures
        after_read_rounds(running, book, frames).books.len() == running.books.len(),
        after_read_rounds(running, book, frames).actions == running.actions,
        !after_read_rounds(running, book, frames).books[book].needs_start(),
    decreases frames.len(),
{
    if frames.len() > 0 {
        law_read_loop_is_never_stopped(running, book, frames.drop_last());
    }
}

/// What happens to a loop.
pub enum LoopEvent {
    Read,
    Frame(AnimationProgress),
    End,
}

/// The book of a loop after these events.
pub open spec fn after_events(book: LoopBook, events: Seq<LoopEvent>) -> LoopBook
    decreases events.len(),
{
    if events.len() == 0 {
        book
    } else {
        let before = after_events(book, events.drop_last());
        match events.last() {
            LoopEvent::Read => before.after_read(),
            LoopEvent::Frame(progress) => before.after_frame(progress),
            LoopEvent::End => before.after_end(),
        }
    }
}

/// Whatever happens to a fresh loop up to a full turn, every frame is defined, its phase
/// stays within `0..=max`, and it is the one of the last frame.
pub proof fn law_phase_is_that_of_the_last_frame(
    max: i32,
    rerender: Repaint,
    events: Seq<LoopEvent>,
    k: int,
    p: AnimationProgress,
)
    requires
        0 <= max <= TRIG_MAX_ANGLE,
        forall|j: int|
            0 <= j < events.len() ==> ((#[trigger] events[j]) matches LoopEvent::Frame(progress)
                ==> progress <= ANIMATION_NORMALIZED_MAX),
    ensures
        after_events(LoopBook::unread(max, rerender), events).max == max,
        0 <= after_events(LoopBook::unread(max, rerender), events).current <= max,
        p <= ANIMATION_NORMALIZED_MAX ==> scales(max as int, p),
        0 <= k < events.len() && events[k] == LoopEvent::Frame(p) && (forall|j: int|
            k < j < events.len() ==> !((#[trigger] events[j]) is Frame)) ==> after_events(
            LoopBook::unread(max, rerender),
            events,
        ).current == scaled(max as int, p),
    decreases events.len(),
{
    if p <= ANIMATION_NORMALIZED_MAX {
        law_turns_loop(max, p);
    }
    if events.len() > 0 {
        let earlier = events.drop_last();
        let last = events.last();
        assert forall|j: int| 0 <= j < earlier.len() implies ((#[trigger] earlier[j]) matches LoopEvent::Frame(progress)
            ==> progress <= ANIMATION_NORMALIZED_MAX) by {
            assert(earlier[j] == events[j]);
        }
        law_phase_is_that_of_the_last_frame(max, rerender, earlier, k, p);
        assert(last == events[events.len() - 1]);
        if let LoopEvent::Frame(progress) = last {
            law_scaling(max as int, progress, ANIMATION_NORMALIZED_MAX);
        }
        if 0 <= k < events.len() - 1 {
            assert(earlier[k] == events[k]);
            assert forall|j: int| k < j < events.len() implies (#[trigger] events[j]) is Frame
                == (if j < earlier.len() {
                earlier[j] is Frame
            } else {
                last is Frame
            }) by {}
        }
    }
}

/// Reading a loop shows its phase; it starts exactly when it has to, and other loops are
/// left alone.
pub proof fn law_loop_read(
    state: State<Loops, i32>,
    book: int,
    pre: Loops,
    value: i32,
    post: Loops,
    other: int,
)
    requires
        loops(state, book),
        0 <= book < pre@.books.len(),
        0 <= other < pre@.books.len(),
        other != book,
        state.reads(pre, value, post),
    ensures
        value == pre@.books[book].current,
        post@.books[book].current == value,
        post@.books[other] == pre@.books[other],
        post@.repaints == pre@.repaints,
        post@.actions == if pre@.books[book].needs_start() {
            pre@.actions.push(
                LoopAction::Start(
                    Start {
                        book: book as usize,
                        duration: pre@.books[book].duration,
                        curve: pre@.books[book].curve,
                        plays: Plays::Forever,
                    },
                ),
            )
        } else {
            pre@.actions
        },
{
}

// ── Layers ──────────────────────────────────────────────────────────────────────

/// A layer that draws a cell paints what the cell holds when it is painted.
pub proof fn law_draw_paints_the_current_value<V, P, F: Fn(&V, GRect) -> P>(
    data: State<Store<V>, V>,
    cell: Shared<V>,
    draw: F,
    pre: Store<V>,
    frame: GRect,
    picture: P,
    post: Store<V>,
)
    requires
        views_cell(data, cell),
        draw_paints(data, draw, pre, frame, picture, post),
    ensures
        call_ensures(draw, (&pre@.at(cell).value, frame), picture),
        post == pre,
{
}

/// A text over a cell paints the text that the cell holds when it is painted.
pub proof fn law_text_paints_the_current_value(
    content: State<Store<TextBuf>, TextBuf>,
    cell: Shared<TextBuf>,
    pre: Store<TextBuf>,
    bytes: Seq<u8>,
    post: Store<TextBuf>,
)
    requires
        views_cell(content, cell),
    ensures
        content.reads_text(pre, bytes, post) <==> bytes == pre@.at(cell).value@ && post == pre,
{
    assert(content.reads(pre, pre@.at(cell).value, pre));
}

/// A menu over a cell answers from what the cell holds when it is asked.
pub proof fn law_menu_answers_from_the_current_value<V, I, O>(
    state: State<Store<V>, V>,
    cell: Shared<V>,
    callback: Callback<V, I, O>,
    menu: MenuLayerRef,
    input: I,
    pre: Store<V>,
    output: O,
    post: Store<V>,
)
    requires
        views_cell(state, cell),
        answers(state, callback, menu, input, pre, output, post),
    ensures
        callback.yields(menu, pre@.at(cell).value, input, output),
        post == pre,
{
}

/// A painter that reads a second state only for values that want it leaves that state
/// alone for a value that does not: nothing of the world changes but what the read of the
/// value itself changes.
pub proof fn law_unwanted_state_is_not_read<
    W,
    T,
    U,
    P,
    G: Fn(&T) -> bool,
    F: Fn(&T, Option<&U>, GRect) -> P,
>(
    wants: G,
    extra: State<W, U>,
    draw: F,
    value: T,
    frame: GRect,
    pre: W,
    picture: P,
    post: W,
)
    requires
        !call_ensures(wants, (&value,), true),
        gate_draws(wants, extra, draw, value, frame, pre, picture, post),
    ensures
        post == pre,
        call_ensures(draw, (&value, None, frame), picture),
{
}

/// While the value of a view of a cell is held, the cell is not free, so every update of it
/// is refused; releasing it leaves the store as it was.
pub proof fn law_held_cell_refuses_updates<V>(
    state: State<Store<V>, V>,
    cell: Shared<V>,
    pre: Store<V>,
    value: V,
    mid: Store<V>,
    post: Store<V>,
)
    requires
        views_cell(state, cell),
        state.can_hold(pre),
        state.holds(pre, value, mid),
        state.releases(mid, post),
    ensures
        value == pre@.at(cell).value,
        !mid@.at(cell).is_free(),
        state.readable(mid),
        state.can_release(mid),
        post@ == pre@,
{
    assert(post@ =~= pre@);
}

/// A piece of a cell that is held keeps the whole cell from being updated.
pub proof fn law_held_piece_refuses_updates<V, U, F: Fn(&V) -> &U>(
    base: State<Store<V>, V>,
    cell: Shared<V>,
    state: State<Store<V>, U>,
    f: F,
    pre: Store<V>,
    value: U,
    mid: Store<V>,
)
    requires
        views_cell(base, cell),
        state.is_focus(base, f),
        state.can_hold(pre),
        state.holds(pre, value, mid),
    ensures
        call_ensures(f, (&pre@.at(cell).value,), &value),
        !mid@.at(cell).is_free(),
        state.can_release(mid),
{
    let a = choose|a: V| #[trigger] base.holds(pre, a, mid) && call_ensures(f, (&a,), &value);
    assert(base.holds(pre, a, mid));
}

/// A painter with access to the world paints what the cell holds when it is painted, and
/// finds the cell borrowed.
pub proof fn law_world_painter_paints_the_current_value<V, P, D: DrawIn<Store<V>, V, P>>(
    data: State<Store<V>, V>,
    cell: Shared<V>,
    painter: D,
    pre: Store<V>,
    frame: GRect,
    picture: P,
    post: Store<V>,
)
    requires
        views_cell(data, cell),
        data.can_hold(pre),
        draw_in_paints(data, painter, pre, frame, picture, post),
    ensures
        exists|mid: Store<V>, after: Store<V>| #[trigger]
            painter.draws(pre@.at(cell).value, frame, mid, picture, after) && mid@.at(cell).value
                == pre@.at(cell).value && !mid@.at(cell).is_free() && data.releases(after, post),
{
    let (value, mid, after) = choose|value: V, mid: Store<V>, after: Store<V>|
        #![trigger painter.draws(value, frame, mid, picture, after), data.holds(pre, value, mid)]
        data.holds(pre, value, mid) && painter.draws(value, frame, mid, picture, after)
            && data.releases(after, post);
    assert(painter.draws(pre@.at(cell).value, frame, mid, picture, after));
}

/// The strips of a content indicator lie along the upper and the lower edge, as wide as
/// the window.
pub proof fn law_strips_lie_along_the_edges(bounds: GRect)
    requires
        bounds.size.h >= 18,
    ensures
        up_strip(bounds).origin.y == 0,
        up_strip(bounds).size.w == bounds.size.w,
        down_strip(bounds).origin.y + down_strip(bounds).size.h == bounds.size.h,
        down_strip(bounds).origin.y >= 0,
        down_strip(bounds).size.w == bounds.size.w,
        up_strip(bounds).size.h == down_strip(bounds).size.h,
{
}

// ── Messages ────────────────────────────────────────────────────────────────────

/// The reserved keys are distinct.
pub proof fn law_keys_are_distinct(one: TaconiteMessageKey, other: TaconiteMessageKey)
    ensures
        one.number() == other.number() <==> one == other,
{
}

/// A list after these chunks, each an index and an item, arrived in this order.
pub open spec fn received<T>(slots: Seq<Option<T>>, chunks: Seq<(i32, T)>, total: i32) -> Seq<
    Option<T>,
>
    decreases chunks.len(),
{
    if chunks.len() == 0 {
        slots
    } else {
        with_chunk(
            received(slots, chunks.drop_last(), total),
            chunks.last().0,
            total,
            chunks.last().1,
        )
    }
}

/// A chunk with this index arrived, at place `start` or later.
pub open spec fn carries<T>(chunks: Seq<(i32, T)>, start: int, index: int) -> bool {
    exists|k: int| start <= k < chunks.len() && (#[trigger] chunks[k]).0 == index
}

/// `start` is the place of the most recent first chunk of a list of `total` items, and the
/// chunks after it belong to the list.
pub open spec fn starts_list<T>(chunks: Seq<(i32, T)>, start: int, total: i32) -> bool {
    &&& total > 0
    &&& 0 <= start < chunks.len()
    &&& chunks[start].0 == 0
    &&& forall|k: int| start < k < chunks.len() ==> 0 < (#[trigger] chunks[k]).0 < total
}

/// The chunk at place `k` is the newest with its index.
pub open spec fn is_newest<T>(chunks: Seq<(i32, T)>, k: int) -> bool {
    &&& 0 <= k < chunks.len()
    &&& forall|j: int| k < j < chunks.len() ==> (#[trigger] chunks[j]).0 != chunks[k].0
}

/// Leaving out the last chunk, unless it starts the list, leaves a list.
proof fn lemma_list_before_its_last_chunk<T>(chunks: Seq<(i32, T)>, start: int, total: i32)
    requires
        starts_list(chunks, start, total),
        start < chunks.len() - 1,
    ensures
        starts_list(chunks.drop_last(), start, total),
        0 < chunks.last().0 < total,
{
    let earlier = chunks.drop_last();
    assert forall|k: int| start < k < earlier.len() implies 0 < (#[trigger] earlier[k]).0
        < total by {
        assert(earlier[k] == chunks[k]);
    }
    assert(chunks[chunks.len() - 1].0 < total);
}

/// A list of `total` items has a slot for each item, whatever arrived before its most
/// recent first chunk, and in whatever order the others came after it.
pub proof fn law_list_has_its_slots<T>(
    slots: Seq<Option<T>>,
    chunks: Seq<(i32, T)>,
    start: int,
    total: i32,
)
    requires
        starts_list(chunks, start, total),
    ensures
        received(slots, chunks, total).len() == total,
    decreases chunks.len(),
{
    if start < chunks.len() - 1 {
        lemma_list_before_its_last_chunk(chunks, start, total);
        law_list_has_its_slots(slots, chunks.drop_last(), start, total);
    }
}

/// The slot of an item is filled exactly when its chunk has arrived since the most recent
/// first chunk of the list.
pub proof fn law_list_is_assembled<T>(
    slots: Seq<Option<T>>,
    chunks: Seq<(i32, T)>,
    start: int,
    total: i32,
    index: int,
)
    requires
        starts_list(chunks, start, total),
        0 <= index < total,
    ensures
        received(slots, chunks, total)[index] is Some <==> carries(chunks, start, index),
    decreases chunks.len(),
{
    let earlier = chunks.drop_last();
    let last = chunks.last();
    assert(chunks[chunks.len() - 1] == last);
    if start == chunks.len() - 1 {
        assert(carries(chunks, start, index) <==> index == 0);
    } else {
        lemma_list_before_its_last_chunk(chunks, start, total);
        law_list_has_its_slots(slots, earlier, start, total);
        law_list_is_assembled(slots, earlier, start, total, index);
        if carries(earlier, start, index) {
            let k = choose|k: int|
                start <= k < earlier.len() && (#[trigger] earlier[k]).0 == index;
            assert(chunks[k].0 == index);
        }
        if carries(chunks, start, index) && index != last.0 {
            let k = choose|k: int| start <= k < chunks.len() && (#[trigger] chunks[k]).0 == index;
            assert(earlier[k].0 == index);
        }
    }
}

/// The slot of an item holds what the newest chunk with its index brought.
pub proof fn law_list_holds_what_arrived_last<T>(
    slots: Seq<Option<T>>,
    chunks: Seq<(i32, T)>,
    start: int,
    total: i32,
    k: int,
)
    requires
        starts_list(chunks, start, total),
        start <= k,
        is_newest(chunks, k),
    ensures
        received(slots, chunks, total)[chunks[k].0 as int] == Some(chunks[k].1),
    decreases chunks.len(),
{
    let earlier = chunks.drop_last();
    let last = chunks.last();
    assert(chunks[chunks.len() - 1] == last);
    if start < chunks.len() - 1 {
        lemma_list_before_its_last_chunk(chunks, start, total);
        law_list_has_its_slots(slots, earlier, start, total);
        assert(0 <= chunks[k].0 < total);
        if k < chunks.len() - 1 {
            assert(earlier[k] == chunks[k]);
            assert(is_newest(earlier, k)) by {
                assert forall|j: int| k < j < earlier.len() implies (#[trigger] earlier[j]).0
                    != earlier[k].0 by {
                    assert(earlier[j] == chunks[j]);
                }
            }
            law_list_holds_what_arrived_last(slots, earlier, start, total, k);
        }
    }
}

/// A list is reported complete exactly when every one of its chunks has arrived since its
/// most recent first one.
pub proof fn law_list_completes_with_its_last_chunk<T>(
    slots: Seq<Option<T>>,
    chunks: Seq<(i32, T)>,
    start: int,
    total: i32,
)
    requires
        starts_list(chunks, start, total),
    ensures
        received(slots, chunks, total).len() == total && is_complete(
            received(slots, chunks, total),
        ) <==> forall|i: int| 0 <= i < total ==> #[trigger] carries(chunks, start, i),
{
    law_list_has_its_slots(slots, chunks, start, total);
    let now = received(slots, chunks, total);
    assert forall|i: int| 0 <= i < total implies ((#[trigger] now[i]) is Some <==> carries(
        chunks,
        start,
        i,
    )) by {
        law_list_is_assembled(slots, chunks, start, total, i);
    }
    if is_complete(now) {
        assert forall|i: int| 0 <= i < total implies #[trigger] carries(chunks, start, i) by {
            assert(now[i] is Some);
        }
    }
}

/// A chunk that finds no slot is not kept, and leaves the list incomplete unless it was
/// complete before.
pub proof fn law_stray_chunk_is_dropped<T>(
    slots: Seq<Option<T>>,
    index: i32,
    total: i32,
    item: T,
)
    requires
        index != 0,
        index < 0 || index >= slots.len(),
        index < total,
    ensures
        with_chunk(slots, index, total, item) == slots,
        index > 0 ==> with_chunk(slots, index, total, item).len() != total,
{
}

// ── Screens ─────────────────────────────────────────────────────────────────────

/// After a commit every view of the state reads what the commit left there, and the view
/// of the screen is asked for once if the layers are built, and otherwise not.
pub proof fn law_commit_is_read_and_shown_once<S, L>(
    state: State<Store<S>, S>,
    screen: ScreenCtxView<S, L>,
    before: Store<S>,
    committed_value: S,
    after: Store<S>,
    value: S,
    post: Store<S>,
)
    requires
        views_cell(state, screen.state),
        before@.holds(screen.state),
        after@ == committed(before@, screen, committed_value),
        state.reads(after, value, post),
    ensures
        value == committed_value,
        post == after,
        after@.repaints == if screen.layers is Some {
            before@.repaints.push(Repaint::View(screen.window_id))
        } else {
            before@.repaints
        },
{
    law_view_reads_the_cell(state, screen.state, after, value, post);
}

/// Once layers are kept, no run of the view is pending that was asked for without them; what
/// else was asked for stays.
pub proof fn law_layers_void_pending_views<S>(store: StoreView<S>, window_id: u8, other: Repaint)
    requires
        other != Repaint::View(window_id),
    ensures
        !store.without_view(window_id).repaints.contains(Repaint::View(window_id)),
        store.without_view(window_id).repaints.contains(other) <==> store.repaints.contains(other),
        store.without_view(window_id).cells == store.cells,
{
    broadcast use vstd::seq_lib::group_filter_ensures;

    let keeps = |r: Repaint| r != Repaint::View(window_id);
    let kept = store.repaints.filter(keeps);
    if store.repaints.contains(other) {
        let i = choose|i: int| 0 <= i < store.repaints.len() && store.repaints[i] == other;
        assert(keeps(store.repaints[i]));
    }
    if kept.contains(other) {
        lemma_filter_is_drawn_from(store.repaints, keeps, other);
    }
    if kept.contains(Repaint::View(window_id)) {
        let i = choose|i: int| 0 <= i < kept.len() && kept[i] == Repaint::View(window_id);
        assert(keeps(kept[i]));
    }
}

/// What a filter leaves was there before.
proof fn lemma_filter_is_drawn_from(all: Seq<Repaint>, keeps: spec_fn(Repaint) -> bool, r: Repaint)
    requires
        all.filter(keeps).contains(r),
    ensures
        all.contains(r),
    decreases all.len(),
{
    reveal(Seq::filter);
    if all.len() > 0 {
        let earlier = all.drop_last();
        if r == all.last() {
            assert(all[all.len() - 1] == r);
        } else {
            let i = choose|i: int| 0 <= i < all.filter(keeps).len() && all.filter(keeps)[i] == r;
            assert(earlier.filter(keeps)[i] == r);
            lemma_filter_is_drawn_from(earlier, keeps, r);
            let j = choose|j: int| 0 <= j < earlier.len() && earlier[j] == r;
            assert(all[j] == r);
        }
    }
}

/// A screen that loads builds its layers, then shows them, then is created; it is told that
/// the phone is ready on load exactly when the phone was ready before.
pub proof fn law_load_order(ready: bool, layers_built: bool)
    ensures
        steps_of(WindowEvent::Load, ready, layers_built).take(3) == seq![
            ScreenStep::CreateWindow,
            ScreenStep::View,
            ScreenStep::OnCreate,
        ],
        steps_of(WindowEvent::Load, ready, layers_built).contains(
            ScreenStep::OnMessagingInitialized,
        ) <==> ready,
{
    let steps = steps_of(WindowEvent::Load, ready, layers_built);
    assert(steps.take(3) =~= seq![
        ScreenStep::CreateWindow,
        ScreenStep::View,
        ScreenStep::OnCreate,
    ]);
    if ready {
        assert(steps[3] == ScreenStep::OnMessagingInitialized);
    }
}

/// A screen that unloads is dropped before anything of it is freed, and its layers, if they
/// were built, go before its context.
pub proof fn law_unload_order(ready: bool)
    ensures
        steps_of(WindowEvent::Unload, ready, true) == seq![
            ScreenStep::OnDrop,
            ScreenStep::DropLayers,
            ScreenStep::DropCtx,
            ScreenStep::DropTemp,
            ScreenStep::DropBundle,
        ],
        steps_of(WindowEvent::Unload, ready, false) == seq![
            ScreenStep::OnDrop,
            ScreenStep::DropCtx,
            ScreenStep::DropTemp,
            ScreenStep::DropBundle,
        ],
{
    assert(steps_of(WindowEvent::Unload, ready, true) =~= seq![
        ScreenStep::OnDrop,
        ScreenStep::DropLayers,
        ScreenStep::DropCtx,
        ScreenStep::DropTemp,
        ScreenStep::DropBundle,
    ]);
    assert(steps_of(WindowEvent::Unload, ready, false) =~= seq![
        ScreenStep::OnDrop,
        ScreenStep::DropCtx,
        ScreenStep::DropTemp,
        ScreenStep::DropBundle,
    ]);
}

/// The route to a window in a list with one more entry at the end.
proof fn lemma_route_after_push<B>(
    entries: Seq<RouterEntry<B>>,
    entry: RouterEntry<B>,
    window_id: u8,
)
    ensures
        route(entries.push(entry), window_id) == if route(entries, window_id) is Some {
            route(entries, window_id)
        } else if entry.window_id == window_id {
            Some(entry.bundle)
        } else {
            None
        },
    decreases entries.len(),
{
    if entries.len() == 0 {
        reveal_with_fuel(route, 2);
    } else {
        assert(entries.push(entry).skip(1) =~= entries.skip(1).push(entry));
        if entries[0].window_id != window_id {
            lemma_route_after_push(entries.skip(1), entry, window_id);
        }
    }
}

/// A pushed screen is reached under its window id, unless an older screen still has that
/// id; every other message goes where it went before.
pub proof fn law_pushed_screen_is_reached<B>(router: RouterView<B>, bundle: B, window_id: u8)
    ensures
        route(router.entries, router.next_id()) is None ==> route(
            router.pushed(bundle).entries,
            router.next_id(),
        ) == Some(bundle),
        route(router.entries, window_id) is Some ==> route(
            router.pushed(bundle).entries,
            window_id,
        ) == route(router.entries, window_id),
        window_id != router.next_id() ==> route(router.pushed(bundle).entries, window_id) == route(
            router.entries,
            window_id,
        ),
{
    let entry = RouterEntry { window_id: router.next_id(), bundle };
    lemma_route_after_push(router.entries, entry, router.next_id());
    lemma_route_after_push(router.entries, entry, window_id);
}

/// A screen that left the router is not reached any more; every other message goes where it
/// went before.
pub proof fn law_unloaded_screen_is_not_reached<B>(
    entries: Seq<RouterEntry<B>>,
    gone: u8,
    window_id: u8,
)
    ensures
        route(without(entries, gone), window_id) == if window_id == gone {
            None
        } else {
            route(entries, window_id)
        },
    decreases entries.len(),
{
    reveal(Seq::filter);
    if entries.len() > 0 {
        let earlier = entries.drop_last();
        let last = entries.last();
        law_unloaded_screen_is_not_reached(earlier, gone, window_id);
        assert(entries =~= earlier.push(last));
        lemma_route_after_push(earlier, last, window_id);
        if last.window_id != gone {
            assert(without(entries, gone) =~= without(earlier, gone).push(last));
            lemma_route_after_push(without(earlier, gone), last, window_id);
        } else {
            assert(without(entries, gone) =~= without(earlier, gone));
        }
    }
}

/// The router after these screens were pushed in this order.
pub open spec fn after_pushes<B>(router: RouterView<B>, pushed: Seq<B>) -> RouterView<B>
    decreases pushed.len(),
{
    if pushed.len() == 0 {
        router
    } else {
        after_pushes(router, pushed.drop_last()).pushed(pushed.last())
    }
}

/// The router entry of the screen at `place`, when these screens were pushed onto `router`.
pub open spec fn pushed_entry<B>(router: RouterView<B>, pushed: Seq<B>, place: int) -> RouterEntry<B> {
    let k = place - router.entries.len();
    RouterEntry { window_id: ((router.last_id + k + 1) % 256) as u8, bundle: pushed[k] }
}

/// Window ids count up and wrap around, and pushed screens come after those that were there.
pub proof fn law_window_ids_count_up<B>(router: RouterView<B>, pushed: Seq<B>)
    ensures
        after_pushes(router, pushed).last_id == (router.last_id + pushed.len()) % 256,
        after_pushes(router, pushed).ready == router.ready,
        after_pushes(router, pushed).entries.len() == router.entries.len() + pushed.len(),
        forall|i: int|
            0 <= i < router.entries.len() ==> #[trigger] after_pushes(router, pushed).entries[i]
                == router.entries[i],
        forall|i: int|
            router.entries.len() <= i < router.entries.len() + pushed.len()
                ==> #[trigger] after_pushes(router, pushed).entries[i] == pushed_entry(
                router,
                pushed,
                i,
            ),
    decreases pushed.len(),
{
    if pushed.len() > 0 {
        let earlier = pushed.drop_last();
        law_window_ids_count_up(router, earlier);
        let before = after_pushes(router, earlier);
        let now = after_pushes(router, pushed);
        assert(now == before.pushed(pushed.last()));
        assert forall|i: int| router.entries.len() <= i < now.entries.len() implies
            #[trigger] now.entries[i] == pushed_entry(router, pushed, i) by {
            if i < before.entries.len() {
                assert(now.entries[i] == before.entries[i]);
            }
        }
    }
}

/// Two numbers less than 256 apart differ in their lowest byte.
proof fn lemma_low_bytes_differ(a: int, b: int)
    requires
        a < b < a + 256,
    ensures
        a % 256 != b % 256,
{
}

/// The router after this many window ids were given out and nothing else happened.
pub open spec fn after_ids<B>(router: RouterView<B>, count: nat) -> RouterView<B>
    decreases count,
{
    if count == 0 {
        router
    } else {
        let before = after_ids(router, (count - 1) as nat);
        RouterView { last_id: before.next_id(), ..before }
    }
}

/// The ids that are given out count up and wrap around, and nothing else changes.
pub proof fn law_ids_count_up<B>(router: RouterView<B>, count: nat)
    ensures
        after_ids(router, count).last_id == (router.last_id + count) % 256,
        after_ids(router, count).entries == router.entries,
        after_ids(router, count).ready == router.ready,
    decreases count,
{
    if count > 0 {
        law_ids_count_up(router, (count - 1) as nat);
        let before = after_ids(router, (count - 1) as nat);
        assert(after_ids(router, count).last_id == before.next_id());
    }
}

/// The next id is `0` exactly after `255`, and no two of 256 ids in a row are the same.
pub proof fn law_ids_given_out<B>(router: RouterView<B>, j: nat, k: nat)
    ensures
        router.next_id() == (router.last_id + 1) % 256,
        router.next_id() == 0 <==> router.last_id == 255,
        j < k < j + 256 ==> after_ids(router, j).last_id != after_ids(router, k).last_id,
{
    law_ids_count_up(router, j);
    law_ids_count_up(router, k);
    if j < k < j + 256 {
        lemma_low_bytes_differ(router.last_id + j, router.last_id + k);
    }
}

/// No two of up to 256 screens in a row have the same window id.
pub proof fn law_window_ids_are_distinct<B>(
    router: RouterView<B>,
    pushed: Seq<B>,
    j: int,
    k: int,
)
    requires
        pushed.len() <= 256,
        0 <= j < k < pushed.len(),
    ensures
        after_pushes(router, pushed).entries[router.entries.len() + j].window_id != after_pushes(
            router,
            pushed,
        ).entries[router.entries.len() + k].window_id,
{
    law_window_ids_count_up(router, pushed);
    let all = after_pushes(router, pushed).entries;
    let first = router.entries.len();
    assert(all[first + j] == pushed_entry(router, pushed, first + j));
    assert(all[first + k] == pushed_entry(router, pushed, first + k));
    lemma_low_bytes_differ(router.last_id + j + 1, router.last_id + k + 1);
}

/// The first 255 screens of a fresh router have the ids from `1` up, so none of them has
/// the id that says that the phone is ready.
pub proof fn law_first_window_ids<B>(router: RouterView<B>, pushed: Seq<B>, k: int)
    requires
        router.entries.len() == 0,
        router.last_id == 0,
        pushed.len() <= 255,
        0 <= k < pushed.len(),
    ensures
        after_pushes(router, pushed).entries[k].window_id == k + 1,
{
    law_window_ids_count_up(router, pushed);
}

/// When the phone says that it is ready each live screen is told once, in the order in
/// which the screens were pushed.
pub proof fn law_every_live_screen_is_told<B>(entries: Seq<RouterEntry<B>>, i: int)
    requires
        0 <= i < entries.len(),
    ensures
        bundles(entries).len() == entries.len(),
        bundles(entries)[i] == entries[i].bundle,
{
}

} // verus!
