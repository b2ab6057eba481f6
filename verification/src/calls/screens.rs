//! Screens, the router and the window lifecycle.
use vstd::prelude::*;

use crate::calls::messages::{lemma_says_lookup, says};
use crate::graphics::{Layer, Window};
use crate::message::AppMessageDict;
use crate::screen::{
    message_received, push_screen, route, window_event, Dispatch, PushedScreen, Router,
    RouterEntry, ScreenCtx, ScreenMessageCtx, ScreenStep, ViewPass, WindowEvent, WindowStep,
};
use crate::store::{
    found_shared, found_unique, law_pointers_are_asked, MutableState, Repaint, Shared, Store,
    UpdateError,
};

verus! {

// ── What is kept of a sequence ──────────────────────────────────────────────────

/// `after` holds, in order, exactly the elements of `before` that are to be kept: those at
/// `places`.
pub open spec fn is_kept<A>(
    before: Seq<A>,
    keeps: spec_fn(A) -> bool,
    after: Seq<A>,
    places: Seq<int>,
) -> bool {
    &&& places.len() == after.len()
    &&& forall|i: int|
        0 <= i < after.len() ==> 0 <= #[trigger] places[i] < before.len() && keeps(
            before[places[i]],
        ) && after[i] == before[places[i]]
    &&& forall|i: int, j: int|
        0 <= i < j < after.len() ==> #[trigger] places[i] < #[trigger] places[j]
    &&& forall|k: int|
        0 <= k < before.len() && keeps(#[trigger] before[k]) ==> places.contains(k)
}

/// `after` holds, in order, exactly the elements of `before` that are to be kept.
pub open spec fn keeps_exactly<A>(before: Seq<A>, keeps: spec_fn(A) -> bool, after: Seq<A>) -> bool {
    exists|places: Seq<int>| #[trigger] is_kept(before, keeps, after, places)
}

proof fn lemma_filter_keeps<A>(before: Seq<A>, keeps: spec_fn(A) -> bool) -> (places: Seq<int>)
    ensures
        is_kept(before, keeps, before.filter(keeps), places),
    decreases before.len(),
{
    reveal(Seq::filter);
    if before.len() == 0 {
        Seq::empty()
    } else {
        let earlier = before.drop_last();
        let rest = lemma_filter_keeps(earlier, keeps);
        let last = before.len() - 1;
        assert forall|i: int| 0 <= i < rest.len() implies 0 <= #[trigger] rest[i] < last
            && before[rest[i]] == earlier[rest[i]] by {}
        if keeps(before.last()) {
            let places = rest.push(last);
            assert(before.filter(keeps) == earlier.filter(keeps).push(before.last()));
            assert forall|k: int| 0 <= k < before.len() && keeps(
                #[trigger] before[k],
            ) implies places.contains(k) by {
                if k < last {
                    assert(earlier[k] == before[k]);
                    assert(rest.contains(k));
                    let i = choose|i: int| 0 <= i < rest.len() && rest[i] == k;
                    assert(places[i] == k);
                } else {
                    assert(places[rest.len() as int] == k);
                }
            }
            places
        } else {
            assert(before.filter(keeps) == earlier.filter(keeps));
            assert forall|k: int| 0 <= k < before.len() && keeps(
                #[trigger] before[k],
            ) implies rest.contains(k) by {
                assert(earlier[k] == before[k]);
            }
            rest
        }
    }
}

// ── Contexts ────────────────────────────────────────────────────────────────────

/// A new context has what it was given and no layers yet.
pub proof fn law_new_context<S: 'static, L>(
    state: Shared<S>,
    window_id: u8,
    root: Layer,
    window: Window,
    ctx: ScreenCtx<S, L>,
    cell: Shared<S>,
    its_root: &Layer,
    its_window: &Window,
    layers: Option<&L>,
)
    requires
        call_ensures(ScreenCtx::<S, L>::new, (state, window_id, root, window), ctx),
        call_ensures(ScreenCtx::<S, L>::shared, (&ctx,), cell),
        call_ensures(ScreenCtx::<S, L>::root, (&ctx,), its_root),
        call_ensures(ScreenCtx::<S, L>::window, (&ctx,), its_window),
        call_ensures(ScreenCtx::<S, L>::layers, (&ctx,), layers),
    ensures
        ctx@.window_id == window_id,
        cell == state,
        *its_root == root,
        *its_window == window,
        layers is None,
{
}

/// The handle of a screen writes the cell of its state and asks for its own view.
pub proof fn law_context_handle<S: 'static, L>(ctx: &ScreenCtx<S, L>, handle: MutableState<S>)
    requires
        call_ensures(ScreenCtx::<S, L>::state, (ctx,), handle),
    ensures
        handle.cell() == ctx@.state,
        handle.rerender() == Repaint::View(ctx@.window_id),
{
}

/// A look at the state runs its closure on the value of the cell.
pub proof fn law_context_with<S: 'static, L, R, F: FnOnce(&S) -> R>(
    ctx: &ScreenCtx<S, L>,
    store: &Store<S>,
    f: F,
    out: R,
)
    requires
        call_ensures(ScreenCtx::<S, L>::with::<R, F>, (ctx, store, f), out),
    ensures
        call_ensures(f, (&store@.cells[ctx@.state.index()].value,), out),
{
}

/// Layers that are kept are the ones that are shown and given up again; nothing else of the
/// context changes. Keeping the first ones voids, of all pending repaints, exactly the runs
/// of the view of this screen; the cells stay.
pub proof fn law_layers<S: 'static, L>(
    one: &mut ScreenCtx<S, L>,
    store: &mut Store<S>,
    layers: L,
    ctx: &ScreenCtx<S, L>,
    shown: Option<&L>,
    other: &mut ScreenCtx<S, L>,
    taken: Option<L>,
)
    requires
        call_ensures(ScreenCtx::<S, L>::set_layers, (one, store, layers), ()),
        call_ensures(ScreenCtx::<S, L>::layers, (ctx,), shown),
        call_ensures(ScreenCtx::<S, L>::take_layers, (other,), taken),
    ensures
        final(one)@.layers == Some(layers),
        final(one)@.state == old(one)@.state,
        final(one)@.window_id == old(one)@.window_id,
        final(one)@.root == old(one)@.root,
        final(one)@.window == old(one)@.window,
        final(store)@.cells == old(store)@.cells,
        final(store)@.id == old(store)@.id,
        old(one)@.layers is Some ==> final(store)@.repaints == old(store)@.repaints,
        old(one)@.layers is None ==> keeps_exactly(
            old(store)@.repaints,
            |r: Repaint| !(r matches Repaint::View(id) && id == old(one)@.window_id),
            final(store)@.repaints,
        ),
        shown is Some <==> ctx@.layers is Some,
        shown matches Some(built) ==> Some(*built) == ctx@.layers,
        taken == old(other)@.layers,
        final(other)@.layers is None,
        final(other)@.state == old(other)@.state,
        final(other)@.window_id == old(other)@.window_id,
        final(other)@.root == old(other)@.root,
        final(other)@.window == old(other)@.window,
{
    if old(one)@.layers is None {
        let window_id = old(one)@.window_id;
        let keeps = |r: Repaint| r != Repaint::View(window_id);
        let named = |r: Repaint| !(r matches Repaint::View(id) && id == window_id);
        assert(keeps =~= named);
        let places = lemma_filter_keeps(old(store)@.repaints, keeps);
        assert(is_kept(old(store)@.repaints, named, final(store)@.repaints, places));
    }
}

/// An update of the state of a screen is refused like one through its handle. If it is not,
/// the cell of the state holds what `f` made of it, all other cells stay, and the view is
/// asked for once if there are layers, and not at all otherwise.
pub proof fn law_context_update<S: 'static, L, F: FnOnce(&mut S)>(
    ctx: &ScreenCtx<S, L>,
    store: &mut Store<S>,
    f: F,
    out: Result<(), UpdateError>,
    i: int,
)
    requires
        call_ensures(ScreenCtx::<S, L>::update::<F>, (ctx, store, f), out),
        0 <= ctx@.state.index() < old(store)@.cells.len(),
    ensures
        out == Err::<(), UpdateError>(UpdateError::DuringRender) <==> old(
            store,
        )@.cells[ctx@.state.index()].borrow != 0,
        out == Err::<(), UpdateError>(UpdateError::SnapHeld) ==> found_shared(
            old(store)@.cells[ctx@.state.index()].value,
        ),
        out is Ok ==> found_unique(old(store)@.cells[ctx@.state.index()].value),
        out is Err ==> final(store)@ == old(store)@,
        out is Ok ==> exists|m: &mut S| #[trigger]
            call_ensures(f, (m,), ()) && *m == old(store)@.cells[ctx@.state.index()].value
                && *final(m) == final(store)@.cells[ctx@.state.index()].value,
        out is Ok ==> {
            &&& final(store)@.cells[ctx@.state.index()].borrow == 0
            &&& final(store)@.cells.len() == old(store)@.cells.len()
            &&& 0 <= i < old(store)@.cells.len() && i != ctx@.state.index()
                ==> final(store)@.cells[i] == old(store)@.cells[i]
            &&& final(store)@.id == old(store)@.id
            &&& ctx@.layers is None ==> final(store)@.repaints == old(store)@.repaints
            &&& ctx@.layers is Some ==> final(store)@.repaints == old(store)@.repaints.push(
                Repaint::View(ctx@.window_id),
            )
        },
{
    if old(store)@.cells[ctx@.state.index()].borrow == 0 {
        law_pointers_are_asked(old(store)@.cells[ctx@.state.index()].value, out is Ok);
    }
}

/// A run of the view starts exactly if there are layers. It shows the current state, which
/// it borrows once, and hands back at its end.
pub proof fn law_view_pass<S: 'static, L>(
    ctx: &ScreenCtx<S, L>,
    store: &mut Store<S>,
    started: Option<ViewPass<S>>,
    pass: ViewPass<S>,
    state: &S,
    end: &mut Store<S>,
    i: int,
)
    requires
        call_ensures(ScreenCtx::<S, L>::begin_view, (ctx, store), started),
        0 <= ctx@.state.index() < old(store)@.cells.len(),
        started == Some(pass) ==> call_ensures(ViewPass::<S>::state, (&pass,), state)
            && call_ensures(ViewPass::<S>::end, (pass, end), ()) && 0 <= ctx@.state.index() < old(
            end,
        )@.cells.len(),
    ensures
        started is Some <==> ctx@.layers is Some,
        started is None ==> final(store)@ == old(store)@,
        started == Some(pass) ==> {
            let at = ctx@.state.index();
            &&& *state == old(store)@.cells[at].value
            &&& final(store)@.cells.len() == old(store)@.cells.len()
            &&& final(store)@.cells[at].value == old(store)@.cells[at].value
            &&& final(store)@.cells[at].borrow == old(store)@.cells[at].borrow + 1
            &&& 0 <= i < old(store)@.cells.len() && i != at ==> final(store)@.cells[i] == old(
                store,
            )@.cells[i]
            &&& final(store)@.repaints == old(store)@.repaints
            &&& final(store)@.id == old(store)@.id
            &&& final(end)@.cells.len() == old(end)@.cells.len()
            &&& final(end)@.cells[at].value == old(end)@.cells[at].value
            &&& final(end)@.cells[at].borrow == old(end)@.cells[at].borrow - 1
            &&& 0 <= i < old(end)@.cells.len() && i != at ==> final(end)@.cells[i] == old(
                end,
            )@.cells[i]
            &&& final(end)@.repaints == old(end)@.repaints
            &&& final(end)@.id == old(end)@.id
        },
{
}

// ── Staging ─────────────────────────────────────────────────────────────────────

/// A staging buffer is kept as it is between messages, and changes only as `f` changes it.
pub proof fn law_staging<'a, S: 'static, L, T, R, F: FnOnce(&mut T) -> R>(
    ctx: &'a ScreenCtx<S, L>,
    temp: T,
    mctx: ScreenMessageCtx<'a, S, L, T>,
    its_screen: &ScreenCtx<S, L>,
    kept: T,
    changing: &mut ScreenMessageCtx<'a, S, L, T>,
    f: F,
    out: R,
)
    requires
        call_ensures(ScreenMessageCtx::<'a, S, L, T>::new, (ctx, temp), mctx),
        call_ensures(ScreenMessageCtx::<'a, S, L, T>::deref, (&mctx,), its_screen),
        call_ensures(ScreenMessageCtx::<'a, S, L, T>::into_temp, (mctx,), kept),
        call_ensures(ScreenMessageCtx::<'a, S, L, T>::update_temp::<R, F>, (changing, f), out),
    ensures
        *its_screen == *ctx,
        kept == temp,
        final(changing).screen() == old(changing).screen(),
        exists|m: &mut T| #[trigger]
            call_ensures(f, (m,), out) && *m == old(changing).staged()
                && *final(m) == final(changing).staged(),
{
}

/// A commit is refused like an update, and then changes neither the state nor the buffer.
/// Otherwise `f` runs once, on the value of the state and on the buffer; the cell holds what
/// `f` left in it; the buffer is a default one afterwards; and the view is asked for once if
/// there are layers, and not at all otherwise.
pub proof fn law_commit<'a, S: 'static, L, T: Default, R, F: FnOnce(&mut S, &mut T) -> R>(
    mctx: &mut ScreenMessageCtx<'a, S, L, T>,
    store: &mut Store<S>,
    f: F,
    out: Result<R, UpdateError>,
    i: int,
)
    requires
        call_ensures(ScreenMessageCtx::<'a, S, L, T>::commit::<R, F>, (mctx, store, f), out),
        0 <= old(mctx).screen()@.state.index() < old(store)@.cells.len(),
    ensures
        ({
            let screen = old(mctx).screen()@;
            let before = old(store)@.cells[screen.state.index()];
            let after = final(store)@.cells[screen.state.index()];
            &&& final(mctx).screen() == old(mctx).screen()
            &&& out == Err::<R, UpdateError>(UpdateError::DuringRender) <==> before.borrow != 0
            &&& out == Err::<R, UpdateError>(UpdateError::SnapHeld) ==> found_shared(before.value)
            &&& out is Ok ==> found_unique(before.value)
            &&& out is Err ==> final(store)@ == old(store)@ && final(mctx).staged() == old(
                mctx,
            ).staged()
            &&& out matches Ok(r) ==> exists|m: &mut S, t: &mut T| #[trigger]
                call_ensures(f, (m, t), r) && *m == before.value && *final(m) == after.value && *t
                    == old(mctx).staged()
            &&& out is Ok ==> {
                &&& call_ensures(T::default, (), final(mctx).staged())
                &&& after.borrow == 0
                &&& final(store)@.cells.len() == old(store)@.cells.len()
                &&& 0 <= i < old(store)@.cells.len() && i != screen.state.index()
                    ==> final(store)@.cells[i] == old(store)@.cells[i]
                &&& final(store)@.id == old(store)@.id
                &&& screen.layers is None ==> final(store)@.repaints == old(store)@.repaints
                &&& screen.layers is Some ==> final(store)@.repaints == old(store)@.repaints.push(
                    Repaint::View(screen.window_id),
                )
            }
        }),
{
    let before = old(store)@.cells[old(mctx).screen()@.state.index()];
    if before.borrow == 0 {
        law_pointers_are_asked(before.value, out is Ok);
    }
}

// ── Router ──────────────────────────────────────────────────────────────────────

/// A new router has no screens, has given out no id, and takes the phone for not ready.
pub proof fn law_new_router<B: Copy>(router: Router<B>, ready: bool, other: &Router<B>, is: bool)
    requires
        call_ensures(Router::<B>::new, (), router),
        call_ensures(Router::<B>::is_ready, (&router,), ready),
        call_ensures(Router::<B>::is_ready, (other,), is),
    ensures
        router@.entries.len() == 0,
        router@.last_id == 0,
        !ready,
        is == other@.ready,
{
}

/// The next id is one more than the last, and zero after 255. It is the last one then;
/// nothing else changes.
pub proof fn law_next_window_id<B: Copy>(router: &mut Router<B>, id: u8)
    requires
        call_ensures(Router::<B>::next_window_id, (router,), id),
    ensures
        old(router)@.last_id < 255 ==> id == old(router)@.last_id + 1,
        old(router)@.last_id == 255 ==> id == 0,
        final(router)@.last_id == id,
        final(router)@.entries == old(router)@.entries,
        final(router)@.ready == old(router)@.ready,
{
}

/// Unregistering keeps, in order, exactly the screens with another id; nothing else changes.
pub proof fn law_unregister<B: Copy>(router: &mut Router<B>, window_id: u8)
    requires
        call_ensures(Router::<B>::unregister, (router, window_id), ()),
    ensures
        keeps_exactly(
            old(router)@.entries,
            |e: RouterEntry<B>| e.window_id != window_id,
            final(router)@.entries,
        ),
        final(router)@.last_id == old(router)@.last_id,
        final(router)@.ready == old(router)@.ready,
{
    let places = lemma_filter_keeps(
        old(router)@.entries,
        |e: RouterEntry<B>| e.window_id != window_id,
    );
}

/// A pushed screen gets the next id and goes behind all others; its state is a new, free
/// cell behind all others; it has no layers, a default buffer, and the handles that were
/// given; and the display attaches the bundle, subscribes, and pushes the window, in this
/// order.
pub proof fn law_push_screen<S: 'static, L, T: Default, B: Copy>(
    router: &mut Router<B>,
    store: &mut Store<S>,
    initial_state: S,
    window: Window,
    root: Layer,
    bundle: B,
    animate: bool,
    pushed: PushedScreen<S, L, T>,
)
    requires
        call_ensures(
            push_screen::<S, L, T, B>,
            (router, store, initial_state, window, root, bundle, animate),
            pushed,
        ),
    ensures
        old(router)@.last_id < 255 ==> pushed.ctx@.window_id == old(router)@.last_id + 1,
        old(router)@.last_id == 255 ==> pushed.ctx@.window_id == 0,
        final(router)@.last_id == pushed.ctx@.window_id,
        final(router)@.ready == old(router)@.ready,
        final(router)@.entries.len() == old(router)@.entries.len() + 1,
        final(router)@.entries.drop_last() == old(router)@.entries,
        final(router)@.entries.last().window_id == pushed.ctx@.window_id,
        final(router)@.entries.last().bundle == bundle,
        pushed.ctx@.state.index() == old(store)@.cells.len(),
        pushed.ctx@.state.store() == old(store)@.id,
        pushed.ctx@.root == root,
        pushed.ctx@.window == window,
        pushed.ctx@.layers is None,
        call_ensures(T::default, (), pushed.temp),
        final(store)@.cells.len() == old(store)@.cells.len() + 1,
        final(store)@.cells.drop_last() == old(store)@.cells,
        final(store)@.cells.last().value == initial_state,
        final(store)@.cells.last().borrow == 0,
        final(store)@.repaints == old(store)@.repaints,
        final(store)@.id == old(store)@.id,
        pushed.steps@.len() == 3,
        pushed.steps@[0] == WindowStep::SetUserData,
        pushed.steps@[1] == WindowStep::SetHandlers,
        pushed.steps@[2] == WindowStep::Push(animate),
{
    assert(final(router)@.entries.drop_last() =~= old(router)@.entries);
    assert(final(store)@.cells.drop_last() =~= old(store)@.cells);
}

/// The entry at place `k` is the first of this window.
pub open spec fn is_first_entry<B>(entries: Seq<RouterEntry<B>>, window_id: int, k: int) -> bool {
    &&& 0 <= k < entries.len()
    &&& entries[k].window_id == window_id
    &&& forall|j: int| 0 <= j < k ==> (#[trigger] entries[j]).window_id != window_id
}

/// No entry is of this window.
pub open spec fn has_no_entry<B>(entries: Seq<RouterEntry<B>>, window_id: int) -> bool {
    forall|j: int| 0 <= j < entries.len() ==> (#[trigger] entries[j]).window_id != window_id
}

proof fn lemma_route<B>(entries: Seq<RouterEntry<B>>, window_id: u8, k: int)
    ensures
        is_first_entry(entries, window_id as int, k) ==> route(entries, window_id) == Some(
            entries[k].bundle,
        ),
        has_no_entry(entries, window_id as int) ==> route(entries, window_id) is None,
    decreases entries.len(),
{
    if entries.len() > 0 && entries[0].window_id != window_id {
        let rest = entries.skip(1);
        lemma_route(rest, window_id, k - 1);
        if is_first_entry(entries, window_id as int, k) {
            assert(k > 0);
            assert forall|j: int| 0 <= j < k - 1 implies (#[trigger] rest[j]).window_id
                != window_id by {
                assert(rest[j] == entries[j + 1]);
            }
            assert(is_first_entry(rest, window_id as int, k - 1));
        }
        if has_no_entry(entries, window_id as int) {
            assert forall|j: int| 0 <= j < rest.len() implies (#[trigger] rest[j]).window_id
                != window_id by {
                assert(rest[j] == entries[j + 1]);
            }
        }
    } else if is_first_entry(entries, window_id as int, k) && k > 0 {
        assert(entries[0].window_id != window_id);
    }
}

/// A message, by the window id that it carries first.
///
/// Without one, or with one below 0 or above 255, it is ignored. With 0 the phone is ready
/// from then on, and the bundles of all screens are handed out, in order. With `n` from 1 to
/// 255 it is delivered to the first screen with the id `n`, and ignored if there is none.
/// Nothing else changes the router.
pub proof fn law_message_received<B: Copy>(
    router: &mut Router<B>,
    dict: &AppMessageDict,
    dispatch: Dispatch<B>,
    id: Option<i32>,
    k: int,
)
    requires
        call_ensures(message_received::<B>, (router, dict), dispatch),
        says(dict@, 1413563215, id),
    ensures
        id is None || id->0 < 0 || id->0 > 255 ==> dispatch is Ignore && final(router)@ == old(
            router,
        )@,
        id == Some(0i32) ==> {
            &&& final(router)@.ready
            &&& final(router)@.entries == old(router)@.entries
            &&& final(router)@.last_id == old(router)@.last_id
            &&& dispatch matches Dispatch::MessagingInitialized(all) && all@.len() == old(
                router,
            )@.entries.len() && (0 <= k < all@.len() ==> all@[k] == old(
                router,
            )@.entries[k].bundle)
        },
        id is Some && 1 <= id->0 <= 255 ==> {
            &&& final(router)@ == old(router)@
            &&& is_first_entry(old(router)@.entries, id->0 as int, k) ==> dispatch
                == Dispatch::Deliver(old(router)@.entries[k].bundle)
            &&& has_no_entry(old(router)@.entries, id->0 as int) ==> dispatch is Ignore
        },
        final(router)@.ready && !old(router)@.ready ==> id == Some(0i32),
{
    lemma_says_lookup(dict@, 1413563215, id);
    if id is Some && 1 <= id->0 <= 255 {
        lemma_route(old(router)@.entries, id->0 as u8, k);
    }
}

/// A message for a screen reaches it from its push on, as long as no older screen has the
/// same id, and for none once it is unloaded.
pub proof fn law_messages_reach_live_screens<S: 'static, L, T: Default, B: Copy>(
    one: &mut Router<B>,
    store: &mut Store<S>,
    initial_state: S,
    window: Window,
    root: Layer,
    bundle: B,
    animate: bool,
    pushed: PushedScreen<S, L, T>,
    two: &mut Router<B>,
    dict: &AppMessageDict,
    reached: Dispatch<B>,
    three: &mut Router<B>,
    steps: Vec<ScreenStep>,
    four: &mut Router<B>,
    missed: Dispatch<B>,
)
    requires
        call_ensures(
            push_screen::<S, L, T, B>,
            (one, store, initial_state, window, root, bundle, animate),
            pushed,
        ),
        call_ensures(message_received::<B>, (two, dict), reached),
        call_ensures(
            window_event::<S, L, B>,
            (three, &pushed.ctx, WindowEvent::Unload),
            steps,
        ),
        call_ensures(message_received::<B>, (four, dict), missed),
        old(two)@ == final(one)@,
        old(three)@ == final(two)@,
        old(four)@ == final(three)@,
        says(dict@, 1413563215, Some(pushed.ctx@.window_id as i32)),
        pushed.ctx@.window_id != 0,
        has_no_entry(old(one)@.entries, pushed.ctx@.window_id as int),
    ensures
        reached == Dispatch::Deliver(bundle),
        missed is Ignore,
{
    let id = pushed.ctx@.window_id;
    let place = old(one)@.entries.len() as int;
    law_push_screen(one, store, initial_state, window, root, bundle, animate, pushed);
    assert forall|j: int| 0 <= j < place implies (#[trigger] old(two)@.entries[j]).window_id
        != id by {
        assert(old(two)@.entries[j] == old(one)@.entries[j]);
    }
    assert(is_first_entry(old(two)@.entries, id as int, place));
    law_message_received(two, dict, reached, Some(id as i32), place);
    law_window_event(three, &pushed.ctx, WindowEvent::Unload, steps);
    let keeps = |e: RouterEntry<B>| e.window_id != pushed.ctx@.window_id;
    assert(keeps_exactly(old(three)@.entries, keeps, final(three)@.entries));
    let places = choose|places: Seq<int>| #[trigger]
        is_kept(old(three)@.entries, keeps, final(three)@.entries, places);
    assert forall|j: int| 0 <= j < old(four)@.entries.len() implies (#[trigger] old(
        four,
    )@.entries[j]).window_id != id by {
        assert(0 <= places[j]);
    }
    law_message_received(four, dict, missed, Some(id as i32), 0);
}

// ── Window events ───────────────────────────────────────────────────────────────

/// The steps of each window event, whatever the screen and the router are like: a screen
/// that loads is built, shown, created, told at once if the phone is ready, and asked for
/// its clicks; one that unloads is dropped, and its layers, if there are any, its context,
/// its buffer and its bundle are freed; one that appears or disappears is told so. Only
/// unloading changes the router: the screens with the id of the context leave it.
pub proof fn law_window_event<S: 'static, L, B: Copy>(
    router: &mut Router<B>,
    ctx: &ScreenCtx<S, L>,
    event: WindowEvent,
    steps: Vec<ScreenStep>,
)
    requires
        call_ensures(window_event::<S, L, B>, (router, ctx, event), steps),
    ensures
        event is Appear ==> steps@ == seq![ScreenStep::OnAppear],
        event is Disappear ==> steps@ == seq![ScreenStep::OnDisappear],
        event is Load && old(router)@.ready ==> steps@ == seq![
            ScreenStep::CreateWindow,
            ScreenStep::View,
            ScreenStep::OnCreate,
            ScreenStep::OnMessagingInitialized,
            ScreenStep::ConfigureClicks,
        ],
        event is Load && !old(router)@.ready ==> steps@ == seq![
            ScreenStep::CreateWindow,
            ScreenStep::View,
            ScreenStep::OnCreate,
            ScreenStep::ConfigureClicks,
        ],
        event is Unload && ctx@.layers is Some ==> steps@ == seq![
            ScreenStep::OnDrop,
            ScreenStep::DropLayers,
            ScreenStep::DropCtx,
            ScreenStep::DropTemp,
            ScreenStep::DropBundle,
        ],
        event is Unload && ctx@.layers is None ==> steps@ == seq![
            ScreenStep::OnDrop,
            ScreenStep::DropCtx,
            ScreenStep::DropTemp,
            ScreenStep::DropBundle,
        ],
        !(event is Unload) ==> final(router)@ == old(router)@,
        event is Unload ==> {
            &&& keeps_exactly(
                old(router)@.entries,
                |e: RouterEntry<B>| e.window_id != ctx@.window_id,
                final(router)@.entries,
            )
            &&& final(router)@.last_id == old(router)@.last_id
            &&& final(router)@.ready == old(router)@.ready
        },
{
    if event is Unload {
        let window_id = ctx@.window_id;
        let keeps = |e: RouterEntry<B>| e.window_id != window_id;
        let named = |e: RouterEntry<B>| e.window_id != ctx@.window_id;
        assert(keeps =~= named);
        let places = lemma_filter_keeps(old(router)@.entries, keeps);
        assert(is_kept(old(router)@.entries, named, final(router)@.entries, places));
    }
}

/// A screen is told that the phone is ready exactly once, whichever comes first: if the
/// message comes after the screen was pushed and loaded, the message tells it and loading
/// did not; if it came before, loading tells it.
pub proof fn law_screens_are_told_once<S: 'static, L, B: Copy>(
    ctx: &ScreenCtx<S, L>,
    early: &mut Router<B>,
    before: Vec<ScreenStep>,
    ready: &mut Router<B>,
    dict: &AppMessageDict,
    dispatch: Dispatch<B>,
    late: &mut Router<B>,
    after: Vec<ScreenStep>,
    k: int,
)
    requires
        call_ensures(window_event::<S, L, B>, (early, ctx, WindowEvent::Load), before),
        call_ensures(message_received::<B>, (ready, dict), dispatch),
        call_ensures(window_event::<S, L, B>, (late, ctx, WindowEvent::Load), after),
        !old(early)@.ready,
        old(ready)@ == final(early)@,
        says(dict@, 1413563215, Some(0i32)),
        old(late)@ == final(ready)@,
        0 <= k < old(early)@.entries.len(),
    ensures
        !before@.contains(ScreenStep::OnMessagingInitialized),
        dispatch matches Dispatch::MessagingInitialized(all) && all@.len() == old(
            early,
        )@.entries.len() && all@[k] == old(early)@.entries[k].bundle,
        after@.contains(ScreenStep::OnMessagingInitialized),
{
    law_window_event(early, ctx, WindowEvent::Load, before);
    law_message_received(ready, dict, dispatch, Some(0i32), k);
    law_window_event(late, ctx, WindowEvent::Load, after);
    assert(after@[3] == ScreenStep::OnMessagingInitialized);
}

} // verus!
