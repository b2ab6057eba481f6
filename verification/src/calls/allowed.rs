//! What may be called, and when.
use vstd::prelude::*;

use crate::animation::{
    AnimatedState, AnimationCurve, AnimationProgress, Interpolatable, LoopingState, Loops, Tweens,
};
use crate::cell::{ReCell, Ref, RefMut};
use crate::graphics::{
    GColor, GFont, GRect, GTextAlignment, GTextOverflowMode, Layer, TextBuf, TextLiteral, Window,
};
use crate::indicator::ContentIndicatorLayer;
use crate::layer::{Draw, DrawIn, Text, TextContent};
use crate::menu::{Menu, MenuCallbacks};
use crate::message::{send_message, AppMessageDict};
use crate::screen::{
    message_received, push_screen, window_event, Router, ScreenCtx, ScreenMessageCtx, ViewPass,
    WindowEvent,
};
use crate::snap::Snap;
use crate::state::{Held, State};
use crate::store::{MutableState, ReadGuard, Repaint, Store};

verus! {

/// A cell can be borrowed to read while nobody writes it and the counter has room, and to
/// write while it is free; asking for the mutable borrow is always in order.
pub proof fn law_borrows_are_allowed<T>(cell: &mut ReCell<T>, same: &ReCell<T>)
    requires
        same@ == old(cell)@,
    ensures
        call_requires(ReCell::<T>::try_borrow_mut, (cell,)),
        0 <= old(cell)@.borrow < isize::MAX ==> call_requires(ReCell::<T>::borrow, (cell,)),
        old(cell)@.borrow == 0 ==> call_requires(ReCell::<T>::borrow_mut, (cell,)),
        old(cell)@.borrow >= 0 ==> call_requires(ReCell::<T>::peek, (same,)),
{
}

/// A guard can be used and released while its cell counts it.
pub proof fn law_guards_are_allowed<T>(
    shared: Ref<T>,
    exclusive: RefMut<T>,
    cell: &mut ReCell<T>,
    same: &ReCell<T>,
)
    requires
        same@ == old(cell)@,
        same.id() == old(cell).id(),
    ensures
        shared.of() == same.id() && same@.borrow > 0 ==> call_requires(
            Ref::<T>::deref,
            (&shared, same),
        ) && call_requires(Ref::<T>::release, (shared, cell)),
        exclusive.of() == same.id() && same@.borrow == -1 ==> call_requires(
            RefMut::<T>::deref,
            (&exclusive, same),
        ) && call_requires(RefMut::<T>::deref_mut, (&exclusive, cell)) && call_requires(
            RefMut::<T>::release,
            (exclusive, cell),
        ),
{
}

/// A state can be read and snapshot wherever it is readable, held where it can be held, and
/// released where it can be released.
pub proof fn law_reads_are_allowed<W: 'static, T: 'static, R, F: FnOnce(&T) -> R>(
    state: &State<W, T>,
    world: &mut W,
    f: F,
    held: Held<T>,
)
    ensures
        state.readable(*old(world)) ==> call_requires(State::<W, T>::read, (state, world))
            && call_requires(State::<W, T>::snapshot, (state, world)),
        state.readable(*old(world)) && (forall|value: T| #[trigger]
            call_requires(f, (&value,))) ==> call_requires(
            State::<W, T>::with::<R, F>,
            (state, world, f),
        ),
        state.can_hold(*old(world)) ==> call_requires(State::<W, T>::hold, (state, world)),
        state.can_release(*old(world)) ==> call_requires(
            State::<W, T>::release,
            (state, held, world),
        ),
{
}

/// A snapshot can be narrowed by a projection that takes whatever it shows.
pub proof fn law_narrowing_is_allowed<T: 'static, U: 'static, F: Fn(&T) -> &U + 'static>(
    snap: &Snap<T>,
    f: F,
)
    requires
        forall|p: &T| #[trigger] snap.points_to(p) ==> call_requires(f, (p,)),
    ensures
        call_requires(Snap::<T>::focus::<U, F>, (snap, f)),
        call_requires(Snap::<T>::get, (snap,)),
{
}

/// States can be made of anything without a condition: what they take is asked when they
/// are read.
pub proof fn law_states_are_allowed<
    W: 'static,
    T: 'static,
    U: 'static,
    X: 'static,
    F: Fn(&T) -> &U + 'static,
    G: Fn(&Snap<T>) -> U + 'static,
    H: Fn(&Snap<T>, &Snap<X>) -> U + 'static,
>(value: T, state: &State<W, T>, other: &State<W, X>, f: F, g: G, h: H)
    ensures
        call_requires(State::<W, T>::fixed, (value,)),
        call_requires(State::<W, T>::focus::<U, F>, (state, f)),
        call_requires(State::<W, T>::map::<U, G>, (state, g)),
        call_requires(State::<W, U>::combine::<T, X, H>, (state, other, h)),
        call_requires(State::<W, T>::in_first::<X>, (state,)),
        call_requires(State::<W, T>::in_second::<X>, (state,)),
{
}

/// Cells can be added, and repaints taken, without a condition.
pub proof fn law_stores_are_allowed<V: 'static>(
    store: &mut Store<V>,
    initial: V,
    rerender: Repaint,
    layer: Layer,
    handle: &MutableState<V>,
)
    ensures
        call_requires(Store::<V>::new, ()),
        call_requires(Store::<V>::share, (store, initial)),
        call_requires(Store::<V>::take_repaints, (store,)),
        call_requires(MutableState::<V>::new, (store, initial, rerender)),
        call_requires(MutableState::<V>::for_layer, (store, layer, initial)),
        call_requires(MutableState::<V>::as_state, (handle,)),
{
}

/// A cell can be updated through its handle at any time, borrowed or not: an update that is
/// out of order is refused, not forbidden. Reading it takes that nobody writes it.
pub proof fn law_handles_are_allowed<V: 'static, F: FnOnce(&mut V), R, G: FnOnce(&V) -> R>(
    handle: &MutableState<V>,
    store: &mut Store<V>,
    f: F,
    same: &Store<V>,
    g: G,
)
    requires
        handle.cell().store() == old(store)@.id,
        0 <= handle.cell().index() < old(store)@.cells.len(),
        same@ == old(store)@,
        forall|m: &mut V| #[trigger] call_requires(f, (m,)),
        forall|value: V| #[trigger] call_requires(g, (&value,)),
    ensures
        call_requires(MutableState::<V>::update::<F>, (handle, store, f)),
        same@.cells[handle.cell().index()].borrow >= 0 ==> call_requires(
            MutableState::<V>::with::<R, G>,
            (handle, same, g),
        ) && call_requires(MutableState::<V>::snapshot, (handle, same)),
        0 <= same@.cells[handle.cell().index()].borrow < isize::MAX ==> call_requires(
            MutableState::<V>::read,
            (handle, store),
        ),
{
}

/// A read guard can be used and released while its cell counts it.
pub proof fn law_read_guards_are_allowed<V: 'static>(
    guard: ReadGuard<V>,
    store: &mut Store<V>,
    same: &Store<V>,
)
    requires
        guard.cell().store() == old(store)@.id,
        0 <= guard.cell().index() < old(store)@.cells.len(),
        old(store)@.cells[guard.cell().index()].borrow > 0,
        same@ == old(store)@,
    ensures
        call_requires(ReadGuard::<V>::deref, (&guard, same)),
        call_requires(ReadGuard::<V>::release, (guard, store)),
{
}

/// Values can be animated, and looped, without a condition, and what the display has to do
/// can be taken at any time.
pub proof fn law_animations_are_allowed<W: 'static, T: Interpolatable + 'static>(
    source: State<W, T>,
    tweens: &mut Tweens<T>,
    rerender: Repaint,
    layer: Layer,
    animated: &AnimatedState<W, T>,
    max: i32,
    loops: &mut Loops,
    looping: &LoopingState,
)
    ensures
        call_requires(AnimatedState::<W, T>::new, (source, tweens, rerender)),
        call_requires(AnimatedState::<W, T>::for_layer, (source, tweens, layer)),
        call_requires(AnimatedState::<W, T>::as_state, (animated,)),
        call_requires(Tweens::<T>::take_starts, (tweens,)),
        call_requires(Tweens::<T>::take_repaints, (tweens,)),
        call_requires(LoopingState::new, (max, loops, rerender)),
        call_requires(LoopingState::for_layer, (max, loops, layer)),
        call_requires(LoopingState::as_state, (looping,)),
        call_requires(Loops::take_actions, (loops,)),
        call_requires(Loops::take_repaints, (loops,)),
{
}

/// A book that is there can be read at any time, and tuned.
pub proof fn law_books_are_allowed<W: 'static, T: Interpolatable + 'static>(
    tweens: &mut Tweens<T>,
    book: usize,
    goal: T,
    state: AnimatedState<W, T>,
    ms: u32,
    curve: AnimationCurve,
)
    ensures
        book < old(tweens)@.books.len() ==> call_requires(
            Tweens::<T>::sync,
            (tweens, book, goal),
        ),
        state.book() < old(tweens)@.books.len() ==> call_requires(
            AnimatedState::<W, T>::with_duration,
            (state, tweens, ms),
        ) && call_requires(AnimatedState::<W, T>::with_curve, (state, tweens, curve)),
{
}

/// A frame that was not read yet, and one whose interpolation is defined, can be made.
pub proof fn law_frames_are_allowed<T: Interpolatable>(
    tweens: &mut Tweens<T>,
    book: usize,
    p: AnimationProgress,
)
    requires
        book < old(tweens)@.books.len(),
    ensures
        old(tweens)@.books[book as int].from is None || old(tweens)@.books[book as int].target
            is None ==> call_requires(Tweens::<T>::frame, (tweens, book, p)),
        old(tweens)@.books[book as int].from is Some && old(tweens)@.books[book as int].target
            is Some && T::can_interpolate(
            old(tweens)@.books[book as int].from->0,
            old(tweens)@.books[book as int].target->0,
            p,
        ) ==> call_requires(Tweens::<T>::frame, (tweens, book, p)),
{
}

/// A loop that is there can be read, can end a frame, and can be tuned, at any time.
pub proof fn law_loops_are_allowed(
    loops: &mut Loops,
    book: usize,
    state: LoopingState,
    ms: u32,
    curve: AnimationCurve,
)
    ensures
        book < old(loops)@.books.len() ==> call_requires(Loops::sync, (loops, book))
            && call_requires(Loops::end_frame, (loops, book)),
        state.book() < old(loops)@.books.len() ==> call_requires(
            LoopingState::with_duration,
            (state, loops, ms),
        ) && call_requires(LoopingState::with_curve, (state, loops, curve)),
{
}

/// Messages can be made, looked up in, routed and sent without any condition.
pub proof fn law_messages_are_allowed<B: Copy>(
    tuples: Vec<(u32, i32)>,
    dict: &AppMessageDict,
    key: u32,
    router: &mut Router<B>,
    key_values: &[(u32, i32)],
)
    ensures
        call_requires(AppMessageDict::new, (tuples,)),
        call_requires(AppMessageDict::find_i32, (dict, key)),
        call_requires(message_received::<B>, (router, dict)),
        call_requires(send_message, (key_values,)),
{
}

/// Screens can be pushed, and windows can report, without any condition; and so can the
/// router give out ids and forget screens.
pub proof fn law_screens_are_allowed<S: 'static, L, T: Default, B: Copy>(
    router: &mut Router<B>,
    store: &mut Store<S>,
    initial_state: S,
    window: Window,
    root: Layer,
    bundle: B,
    animate: bool,
    ctx: &ScreenCtx<S, L>,
    event: WindowEvent,
    window_id: u8,
    building: &mut ScreenCtx<S, L>,
    layers: L,
)
    ensures
        call_requires(
            push_screen::<S, L, T, B>,
            (router, store, initial_state, window, root, bundle, animate),
        ),
        call_requires(window_event::<S, L, B>, (router, ctx, event)),
        call_requires(Router::<B>::next_window_id, (router,)),
        call_requires(Router::<B>::unregister, (router, window_id)),
        call_requires(ScreenCtx::<S, L>::set_layers, (building, store, layers)),
        call_requires(ScreenCtx::<S, L>::take_layers, (building,)),
{
}

/// The state of a screen can be updated at any time, and looked at and shown while nobody
/// writes it.
pub proof fn law_contexts_are_allowed<S: 'static, L, F: FnOnce(&mut S), R, G: FnOnce(&S) -> R>(
    ctx: &ScreenCtx<S, L>,
    store: &mut Store<S>,
    f: F,
    same: &Store<S>,
    g: G,
    pass: ViewPass<S>,
)
    requires
        ctx@.state.store() == old(store)@.id,
        0 <= ctx@.state.index() < old(store)@.cells.len(),
        same@ == old(store)@,
        forall|m: &mut S| #[trigger] call_requires(f, (m,)),
        forall|value: S| #[trigger] call_requires(g, (&value,)),
    ensures
        call_requires(ScreenCtx::<S, L>::update::<F>, (ctx, store, f)),
        same@.cells[ctx@.state.index()].borrow >= 0 ==> call_requires(
            ScreenCtx::<S, L>::with::<R, G>,
            (ctx, same, g),
        ),
        0 <= same@.cells[ctx@.state.index()].borrow < isize::MAX ==> call_requires(
            ScreenCtx::<S, L>::begin_view,
            (ctx, store),
        ),
        pass.cell() == ctx@.state && same@.cells[ctx@.state.index()].borrow > 0 ==> call_requires(
            ViewPass::<S>::end,
            (pass, store),
        ),
{
}

/// A buffer can be added to, and committed, at any time.
pub proof fn law_staging_is_allowed<
    'a,
    S: 'static,
    L,
    T: Default,
    R,
    F: FnOnce(&mut S, &mut T) -> R,
    G: FnOnce(&mut T) -> R,
>(mctx: &mut ScreenMessageCtx<'a, S, L, T>, store: &mut Store<S>, f: F, g: G)
    requires
        old(mctx).screen()@.state.store() == old(store)@.id,
        0 <= old(mctx).screen()@.state.index() < old(store)@.cells.len(),
        forall|m: &mut S, t: &mut T| #[trigger] call_requires(f, (m, t)),
        forall|t: &mut T| #[trigger] call_requires(g, (t,)),
    ensures
        call_requires(ScreenMessageCtx::<'a, S, L, T>::commit::<R, F>, (mctx, store, f)),
        call_requires(ScreenMessageCtx::<'a, S, L, T>::update_temp::<R, G>, (mctx, g)),
{
}

/// Layers can be made of anything, restyled and asked for without a condition.
pub proof fn law_layers_are_allowed<
    W: 'static,
    P: 'static,
    T: 'static,
    F: Fn(&T, GRect) -> P + 'static,
    D: DrawIn<W, T, P> + 'static,
    C: TextContent<W> + 'static,
>(
    layer: Layer,
    bounds: GRect,
    data: State<W, T>,
    draw: F,
    painter: D,
    content: C,
    text: &mut Text<W>,
    font: GFont,
    color: GColor,
    alignment: GTextAlignment,
    overflow: GTextOverflowMode,
)
    ensures
        call_requires(Draw::<W, P>::new::<T, F>, (layer, bounds, data, draw)),
        call_requires(Draw::<W, P>::in_world::<T, D>, (layer, bounds, data, painter)),
        call_requires(Text::<W>::new::<C>, (layer, bounds, content)),
        call_requires(Text::<W>::set_font, (text, font)),
        call_requires(Text::<W>::set_text_color, (text, color)),
        call_requires(Text::<W>::set_background_color, (text, color)),
        call_requires(Text::<W>::set_text_alignment, (text, alignment)),
        call_requires(Text::<W>::set_overflow, (text, overflow)),
{
}

/// Menus can be made of anything.
pub proof fn law_menus_are_allowed<W: 'static, R: 'static, P: 'static, E: 'static>(
    frame: GRect,
    data: State<W, R>,
    cbs: MenuCallbacks<R, P, E>,
)
    ensures
        call_requires(Menu::<W, R, P, E>::new, (frame, data, cbs)),
{
}

/// Any bytes can be tried for a text.
pub proof fn law_texts_are_allowed(owned: Vec<u8>, given: &'static [u8])
    ensures
        call_requires(TextBuf::new, (owned,)),
        call_requires(TextLiteral::new, (given,)),
{
}

/// An indicator layer can be built over any window whose lower strip has a place, and shown,
/// wherever both states can be read.
pub proof fn law_indicators_are_allowed<W: 'static>(
    world: &mut W,
    bounds: GRect,
    up: State<W, bool>,
    down: State<W, bool>,
    this: &ContentIndicatorLayer<W>,
)
    requires
        up.readable(*old(world)),
        forall|w: W| #[trigger] down.readable(w),
        this.up() == up,
        this.down() == down,
    ensures
        bounds.size.h >= -32750 ==> call_requires(
            ContentIndicatorLayer::<W>::new,
            (world, bounds, up, down),
        ),
        call_requires(ContentIndicatorLayer::<W>::render, (this, world)),
{
}

} // verus!
