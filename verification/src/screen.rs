//! Screens and the window lifecycle.
//!
//! Each pushed screen has a context (`ScreenCtx`), a staging buffer for data that arrives
//! over several messages (`ScreenMessageCtx`), and an entry in the `Router`, which maps
//! window ids to screens so that a message reaches its screen even when the screen is not
//! at the front of the stack.
use std::rc::Rc;
use vstd::prelude::*;

use crate::cell::CellView;
use crate::graphics::{Layer, Window};
use crate::message::{lookup, AppMessageDict, TaconiteMessageKey};
use crate::store::{pointer_found, MutableState, ReadGuard, Repaint, Shared, Store, StoreView, UpdateError};

verus! {

/// The context of one screen: its state, its window, and the layers once they are built.
pub struct ScreenCtx<S, L> {
    state: Shared<S>,
    pub window_id: u8,
    root: Layer,
    window: Window,
    layers: Option<L>,
}

/// What a context says about its screen.
pub struct ScreenCtxView<S, L> {
    /// The cell that holds the state.
    pub state: Shared<S>,
    pub window_id: u8,
    pub root: Layer,
    pub window: Window,
    /// The layers, once they are built.
    pub layers: Option<L>,
}

impl<S, L> View for ScreenCtx<S, L> {
    type V = ScreenCtxView<S, L>;

    closed spec fn view(&self) -> ScreenCtxView<S, L> {
        ScreenCtxView {
            state: self.state,
            window_id: self.window_id,
            root: self.root,
            window: self.window,
            layers: self.layers,
        }
    }
}

impl<S: 'static, L> ScreenCtx<S, L> {
    /// The context of a screen whose layers are not built yet.
    pub fn new(state: Shared<S>, window_id: u8, root: Layer, window: Window) -> (ctx: Self)
        ensures
            ctx@ == (ScreenCtxView::<S, L> { state, window_id, root, window, layers: None }),
    {
        ScreenCtx { state, window_id, root, window, layers: None }
    }

    /// A shared handle to the cell of the state.
    pub fn shared(&self) -> (cell: Shared<S>)
        ensures
            cell == self@.state,
    {
        self.state.clone()
    }

    pub fn root(&self) -> (root: &Layer)
        ensures
            *root == self@.root,
    {
        &self.root
    }

    pub fn window(&self) -> (window: &Window)
        ensures
            *window == self@.window,
    {
        &self.window
    }

    /// The reactive handle to the state of the screen. Updates through it ask for the view
    /// of the screen to run again.
    pub fn state(&self) -> (handle: MutableState<S>)
        ensures
            handle.cell() == self@.state,
            handle.rerender() == Repaint::View(self@.window_id),
    {
        MutableState::from_shared(self.state.clone(), Repaint::View(self.window_id))
    }

    /// Read the state.
    pub fn with<R, F: FnOnce(&S) -> R>(&self, store: &Store<S>, f: F) -> (out: R)
        requires
            store@.holds(self@.state),
            store@.at(self@.state).is_readable(),
            call_requires(f, (&store@.at(self@.state).value,)),
        ensures
            call_ensures(f, (&store@.at(self@.state).value,), out),
    {
        self.state().with(store, f)
    }

    /// The layers of the window, if they have been built yet.
    pub fn layers(&self) -> (layers: Option<&L>)
        ensures
            match layers {
                Some(built) => self@.layers == Some(*built),
                None => self@.layers is None,
            },
    {
        self.layers.as_ref()
    }

    /// Keep the layers that were built for the window. Runs of the view that were asked for
    /// while there were no layers are void.
    pub fn set_layers(&mut self, store: &mut Store<S>, layers: L)
        ensures
            final(self)@ == (ScreenCtxView { layers: Some(layers), ..old(self)@ }),
            final(store)@ == if old(self)@.layers is None {
                old(store)@.without_view(old(self)@.window_id)
            } else {
                old(store)@
            },
    {
        if self.layers.is_none() {
            store.drop_view(self.window_id);
        }
        self.layers = Some(layers);
    }

    /// Give up the layers of the window.
    pub fn take_layers(&mut self) -> (layers: Option<L>)
        ensures
            layers == old(self)@.layers,
            final(self)@ == (ScreenCtxView { layers: None, ..old(self)@ }),
    {
        self.layers.take()
    }

    /// Mutate the state and ask for the view to run again, if the layers are built.
    pub fn update<F: FnOnce(&mut S)>(&self, store: &mut Store<S>, f: F) -> (out: Result<
        (),
        UpdateError,
    >)
        requires
            old(store)@.holds(self@.state),
            forall|m: &mut S|
                *m == old(store)@.at(self@.state).value ==> #[trigger] call_requires(f, (m,)),
        ensures
            out == Err::<(), UpdateError>(UpdateError::DuringRender) <==> !old(store)@.at(
                self@.state,
            ).is_free(),
            old(store)@.at(self@.state).is_free() ==> pointer_found(
                old(store)@.at(self@.state).value,
                out is Ok,
            ),
            out is Err ==> final(store)@ == old(store)@,
            out is Ok ==> exists|m: &mut S| #[trigger]
                call_ensures(f, (m,), ()) && *m == old(store)@.at(self@.state).value
                    && final(store)@ == committed(old(store)@, self@, *final(m)),
    {
        if self.layers.is_some() {
            self.state().update(store, f)
        } else {
            store.write(&self.state, f)
        }
    }

    /// Start a run of the view against the current state, if the layers are built. The
    /// state is borrowed until the run ends, so the view cannot update it.
    pub fn begin_view(&self, store: &mut Store<S>) -> (pass: Option<ViewPass<S>>)
        requires
            old(store)@.holds(self@.state),
            old(store)@.at(self@.state).is_readable(),
            old(store)@.at(self@.state).borrow < isize::MAX,
        ensures
            pass is Some <==> self@.layers is Some,
            match pass {
                Some(pass) => {
                    &&& pass.cell() == self@.state
                    &&& pass.shown() == old(store)@.at(self@.state).value
                    &&& final(store)@ == old(store)@.with_cell(
                        self@.state,
                        old(store)@.at(self@.state).shared_once_more(),
                    )
                },
                None => final(store)@ == old(store)@,
            },
    {
        if self.layers.is_none() {
            return None;
        }
        let handle = self.state();
        let guard = handle.read(store);
        let root = handle.snapshot(store);
        Some(ViewPass { guard, root })
    }
}

/// A run of the view of a screen, until it ends.
pub struct ViewPass<S> {
    guard: ReadGuard<S>,
    root: Rc<S>,
}

impl<S> ViewPass<S> {
    /// The borrowed cell.
    pub closed spec fn cell(&self) -> Shared<S> {
        self.guard.cell()
    }

    /// The state that the view is run against.
    pub closed spec fn shown(&self) -> S {
        *self.root
    }

    /// The state that the view is run against.
    pub fn state(&self) -> (state: &S)
        ensures
            *state == self.shown(),
    {
        &self.root
    }

    /// End the run and hand the borrow back.
    pub fn end(self, store: &mut Store<S>)
        requires
            old(store)@.holds(self.cell()),
            old(store)@.at(self.cell()).borrow > 0,
        ensures
            final(store)@ == old(store)@.with_cell(
                self.cell(),
                old(store)@.at(self.cell()).shared_once_less(),
            ),
    {
        self.guard.release(store);
    }
}

/// The context for handling one message. It adds to the context of the screen a staging
/// buffer that nothing draws from, so that data arriving over several messages is
/// assembled off screen and applied in one commit.
pub struct ScreenMessageCtx<'a, S, L, T> {
    ctx: &'a ScreenCtx<S, L>,
    temp: T,
}

impl<'a, S: 'static, L, T> ScreenMessageCtx<'a, S, L, T> {
    /// The context of the screen.
    pub closed spec fn screen(&self) -> ScreenCtx<S, L> {
        *self.ctx
    }

    /// The staging buffer.
    pub closed spec fn staged(&self) -> T {
        self.temp
    }

    /// Handle a message with this staging buffer.
    pub fn new(ctx: &'a ScreenCtx<S, L>, temp: T) -> (mctx: Self)
        ensures
            mctx.screen() == *ctx,
            mctx.staged() == temp,
    {
        ScreenMessageCtx { ctx, temp }
    }

    /// The context of the screen.
    pub fn deref(&self) -> (ctx: &ScreenCtx<S, L>)
        ensures
            *ctx == self.screen(),
    {
        self.ctx
    }

    /// Give the staging buffer back, to be kept until the next message.
    pub fn into_temp(self) -> (temp: T)
        ensures
            temp == self.staged(),
    {
        self.temp
    }

    /// Accumulate into the staging buffer. Never asks for a repaint.
    pub fn update_temp<R, F: FnOnce(&mut T) -> R>(&mut self, f: F) -> (out: R)
        requires
            forall|m: &mut T| *m == old(self).staged() ==> #[trigger] call_requires(f, (m,)),
        ensures
            final(self).screen() == old(self).screen(),
            exists|m: &mut T| #[trigger]
                call_ensures(f, (m,), out) && *m == old(self).staged() && *final(m) == final(self).staged(),
    {
        f(&mut self.temp)
    }
}

impl<'a, S: 'static, L, T: Default> ScreenMessageCtx<'a, S, L, T> {
    /// Fold the staging buffer into the state, reset the buffer, and ask once for the view
    /// to run, if the layers are built.
    ///
    /// A commit is refused like an update: then the state and the buffer stay as they are.
    pub fn commit<R, F: FnOnce(&mut S, &mut T) -> R>(
        &mut self,
        store: &mut Store<S>,
        f: F,
    ) -> (out: Result<R, UpdateError>)
        requires
            old(store)@.holds(old(self).screen()@.state),
            forall|m: &mut S, t: &mut T|
                *m == old(store)@.at(old(self).screen()@.state).value && *t == old(self).staged()
                    ==> #[trigger] call_requires(f, (m, t)),
        ensures
            final(self).screen() == old(self).screen(),
            out == Err::<R, UpdateError>(UpdateError::DuringRender) <==> !old(store)@.at(
                old(self).screen()@.state,
            ).is_free(),
            old(store)@.at(old(self).screen()@.state).is_free() ==> pointer_found(
                old(store)@.at(old(self).screen()@.state).value,
                out is Ok,
            ),
            out is Err ==> final(store)@ == old(store)@ && final(self).staged() == old(self).staged(),
            out is Ok ==> call_ensures(T::default, (), final(self).staged()),
            out matches Ok(r) ==> exists|m: &mut S, t: &mut T| #[trigger]
                call_ensures(f, (m, t), r) && *m == old(store)@.at(
                    old(self).screen()@.state,
                ).value && *t == old(self).staged() && final(store)@ == committed(
                    old(store)@,
                    old(self).screen()@,
                    *final(m),
                ),
    {
        let out = store.write_staged(&self.ctx.state, &mut self.temp, f);
        if out.is_ok() {
            self.temp = T::default();
            if self.ctx.layers.is_some() {
                store.ask_repaint(Repaint::View(self.ctx.window_id));
            }
        }
        out
    }
}

/// The store after an update or a commit that left `value` in the state of a screen: the
/// view is asked for if the layers are built.
pub open spec fn committed<S, L>(
    pre: StoreView<S>,
    screen: ScreenCtxView<S, L>,
    value: S,
) -> StoreView<S> {
    let written = pre.with_cell(screen.state, pre.at(screen.state).free_with(value));
    if screen.layers is Some {
        StoreView {
            repaints: written.repaints.push(Repaint::View(screen.window_id)),
            ..written
        }
    } else {
        written
    }
}

// ── Router ──────────────────────────────────────────────────────────────────────

/// One live screen. `bundle` is whatever the display knows it by.
pub struct RouterEntry<B> {
    pub window_id: u8,
    pub bundle: B,
}

/// The live screens in the order in which they were pushed, the last window id that was
/// given out, and whether the phone is ready.
pub struct Router<B> {
    entries: Vec<RouterEntry<B>>,
    window_id_counter: u8,
    messaging_initialized: bool,
}

/// What a router holds.
#[verifier::ext_equal]
pub struct RouterView<B> {
    pub entries: Seq<RouterEntry<B>>,
    pub last_id: u8,
    pub ready: bool,
}

impl<B> View for Router<B> {
    type V = RouterView<B>;

    closed spec fn view(&self) -> RouterView<B> {
        RouterView {
            entries: self.entries@,
            last_id: self.window_id_counter,
            ready: self.messaging_initialized,
        }
    }
}

/// The entries without those of a window.
pub open spec fn without<B>(entries: Seq<RouterEntry<B>>, window_id: u8) -> Seq<RouterEntry<B>> {
    entries.filter(|e: RouterEntry<B>| e.window_id != window_id)
}

/// The bundle of the first entry of a window.
pub open spec fn route<B>(entries: Seq<RouterEntry<B>>, window_id: u8) -> Option<B>
    decreases entries.len(),
{
    if entries.len() == 0 {
        None
    } else if entries[0].window_id == window_id {
        Some(entries[0].bundle)
    } else {
        route(entries.skip(1), window_id)
    }
}

/// The bundles of all entries.
pub open spec fn bundles<B>(entries: Seq<RouterEntry<B>>) -> Seq<B> {
    entries.map_values(|e: RouterEntry<B>| e.bundle)
}

impl<B> RouterView<B> {
    /// The id that the next screen gets.
    pub open spec fn next_id(self) -> u8 {
        ((self.last_id + 1) % 256) as u8
    }

    /// The router after a screen was pushed.
    pub open spec fn pushed(self, bundle: B) -> RouterView<B> {
        RouterView {
            entries: self.entries.push(RouterEntry { window_id: self.next_id(), bundle }),
            last_id: self.next_id(),
            ready: self.ready,
        }
    }
}

/// What has to be done with a message.
pub enum Dispatch<B> {
    /// Nothing: it is not addressed to a live screen.
    Ignore,
    /// The phone is ready: tell each of these screens, in this order.
    MessagingInitialized(Vec<B>),
    /// Hand the message to this screen.
    Deliver(B),
}

impl<B: Copy> Router<B> {
    /// No screens, the phone not ready.
    pub fn new() -> (router: Self)
        ensures
            router@ == (RouterView::<B> { entries: Seq::empty(), last_id: 0, ready: false }),
    {
        Router { entries: Vec::new(), window_id_counter: 0, messaging_initialized: false }
    }

    /// Whether the phone is ready.
    pub fn is_ready(&self) -> (ready: bool)
        ensures
            ready == self@.ready,
    {
        self.messaging_initialized
    }

    /// Give out the next window id. The ids wrap around.
    pub fn next_window_id(&mut self) -> (id: u8)
        ensures
            id == old(self)@.next_id(),
            final(self)@ == (RouterView { last_id: id, ..old(self)@ }),
    {
        self.window_id_counter = self.window_id_counter.wrapping_add(1);
        self.window_id_counter
    }

    /// Add a screen.
    fn register(&mut self, window_id: u8, bundle: B)
        ensures
            final(self)@ == (RouterView {
                entries: old(self)@.entries.push(RouterEntry { window_id, bundle }),
                ..old(self)@
            }),
    {
        self.entries.push(RouterEntry { window_id, bundle });
    }

    /// Remove every screen with this window id.
    pub fn unregister(&mut self, window_id: u8)
        ensures
            final(self)@ == (RouterView {
                entries: without(old(self)@.entries, window_id),
                ..old(self)@
            }),
    {
        let mut kept: Vec<RouterEntry<B>> = Vec::new();
        let mut i: usize = 0;
        while i < self.entries.len()
            invariant
                i <= self.entries.len(),
                self == old(self),
                kept@ == without(self.entries@.take(i as int), window_id),
            decreases self.entries.len() - i,
        {
            let entry = RouterEntry {
                window_id: self.entries[i].window_id,
                bundle: self.entries[i].bundle,
            };
            proof {
                reveal(Seq::filter);
                assert(self.entries@.take(i + 1).drop_last() =~= self.entries@.take(i as int));
            }
            if entry.window_id != window_id {
                kept.push(entry);
            }
            i += 1;
        }
        assert(self.entries@.take(i as int) =~= self.entries@);
        self.entries = kept;
    }

    /// The bundle of the first screen with this window id.
    fn find(&self, window_id: u8) -> (found: Option<B>)
        ensures
            found == route(self@.entries, window_id),
    {
        let mut i: usize = 0;
        assert(self.entries@.skip(0) =~= self.entries@);
        while i < self.entries.len()
            invariant
                i <= self.entries.len(),
                route(self.entries@, window_id) == route(self.entries@.skip(i as int), window_id),
            decreases self.entries.len() - i,
        {
            if self.entries[i].window_id == window_id {
                return Some(self.entries[i].bundle);
            }
            assert(self.entries@.skip(i as int).skip(1) =~= self.entries@.skip(i + 1));
            i += 1;
        }
        None
    }

    /// The bundles of all screens, oldest first.
    fn all_bundles(&self) -> (all: Vec<B>)
        ensures
            all@ == bundles(self@.entries),
    {
        let mut all: Vec<B> = Vec::new();
        let mut i: usize = 0;
        while i < self.entries.len()
            invariant
                i <= self.entries.len(),
                all@ =~= bundles(self.entries@.take(i as int)),
            decreases self.entries.len() - i,
        {
            all.push(self.entries[i].bundle);
            i += 1;
        }
        assert(self.entries@.take(i as int) =~= self.entries@);
        all
    }
}

// ── Pushing a screen ────────────────────────────────────────────────────────────

/// What the display has to do with the window of a pushed screen.
#[derive(Clone, Copy, Debug, PartialEq, Eq, Structural)]
pub enum WindowStep {
    /// Attach the bundle of the screen to the window.
    SetUserData,
    /// Subscribe to the events of the window.
    SetHandlers,
    /// Push the window onto the stack, animated or not.
    Push(bool),
}

/// A screen that was pushed: its context, its staging buffer, and what the display has to
/// do.
pub struct PushedScreen<S, L, T> {
    pub ctx: ScreenCtx<S, L>,
    pub temp: T,
    pub steps: Vec<WindowStep>,
}

/// Push a new screen with the given initial state onto the window stack.
pub fn push_screen<S: 'static, L, T: Default, B: Copy>(
    router: &mut Router<B>,
    store: &mut Store<S>,
    initial_state: S,
    window: Window,
    root: Layer,
    bundle: B,
    animate: bool,
) -> (pushed: PushedScreen<S, L, T>)
    ensures
        final(router)@ == old(router)@.pushed(bundle),
        final(store)@ == (StoreView {
            cells: old(store)@.cells.push(CellView { value: initial_state, borrow: 0 }),
            ..old(store)@
        }),
        pushed.ctx@.state.index() == old(store)@.cells.len(),
        pushed.ctx@.state.store() == old(store)@.id,
        pushed.ctx@.window_id == old(router)@.next_id(),
        pushed.ctx@.root == root,
        pushed.ctx@.window == window,
        pushed.ctx@.layers is None,
        call_ensures(T::default, (), pushed.temp),
        pushed.steps@ == seq![
            WindowStep::SetUserData,
            WindowStep::SetHandlers,
            WindowStep::Push(animate),
        ],
{
    let window_id: u8 = router.next_window_id();
    let ctx = ScreenCtx::new(store.share(initial_state), window_id, root, window);
    let temp = T::default();
    router.register(window_id, bundle);
    let mut steps: Vec<WindowStep> = Vec::new();
    steps.push(WindowStep::SetUserData);
    steps.push(WindowStep::SetHandlers);
    steps.push(WindowStep::Push(animate));
    PushedScreen { ctx, temp, steps }
}

// ── Messages ────────────────────────────────────────────────────────────────────

/// The window that a message is addressed to, if its window id is one that a window can
/// have.
pub open spec fn addressee(tuples: Seq<(u32, i32)>) -> Option<u8> {
    match lookup(tuples, TaconiteMessageKey::WindowId.number()) {
        Some(id) => if 0 <= id <= 255 {
            Some(id as u8)
        } else {
            None
        },
        None => None,
    }
}

/// Route a message that arrived.
///
/// A message for window `0` says that the phone is ready; every live screen has to be told.
/// Any other message goes to the screen with its window id.
pub fn message_received<B: Copy>(router: &mut Router<B>, dict: &AppMessageDict) -> (dispatch:
    Dispatch<B>)
    ensures
        addressee(dict@) != Some(0u8) ==> final(router)@ == old(router)@,
        addressee(dict@) == Some(0u8) ==> final(router)@ == (RouterView {
            ready: true,
            ..old(router)@
        }),
        match addressee(dict@) {
            None => dispatch is Ignore,
            Some(0u8) => dispatch matches Dispatch::MessagingInitialized(all) && all@ == bundles(
                old(router)@.entries,
            ),
            Some(window_id) => match route(old(router)@.entries, window_id) {
                Some(bundle) => dispatch == Dispatch::Deliver(bundle),
                None => dispatch is Ignore,
            },
        },
{
    let window_id: u8 = match dict.find_i32(TaconiteMessageKey::WindowId.as_u32()) {
        Some(id) => {
            if id < 0 || id > 255 {
                return Dispatch::Ignore;
            }
            id as u8
        },
        None => {
            return Dispatch::Ignore;
        },
    };
    if window_id == 0 {
        router.messaging_initialized = true;
        return Dispatch::MessagingInitialized(router.all_bundles());
    }
    match router.find(window_id) {
        Some(bundle) => Dispatch::Deliver(bundle),
        None => Dispatch::Ignore,
    }
}

// ── Window events ───────────────────────────────────────────────────────────────

/// What the display reports about a window.
#[derive(Clone, Copy, Debug, PartialEq, Eq, Structural)]
pub enum WindowEvent {
    Load,
    Unload,
    Appear,
    Disappear,
}

/// One step of a screen's life.
#[derive(Clone, Copy, Debug, PartialEq, Eq, Structural)]
pub enum ScreenStep {
    /// Build the layers and keep them in the context.
    CreateWindow,
    /// Run the view against the current state and the layers.
    View,
    OnCreate,
    OnMessagingInitialized,
    /// Ask the screen for its click handlers and keep them.
    ConfigureClicks,
    OnAppear,
    OnDisappear,
    OnDrop,
    /// Free the layers.
    DropLayers,
    /// Free the context.
    DropCtx,
    /// Free the staging buffer.
    DropTemp,
    /// Free the bundle.
    DropBundle,
}

/// The steps of a screen's life that belong to a window event.
pub open spec fn steps_of(event: WindowEvent, ready: bool, layers_built: bool) -> Seq<ScreenStep> {
    match event {
        WindowEvent::Load => seq![
            ScreenStep::CreateWindow,
            ScreenStep::View,
            ScreenStep::OnCreate,
        ] + (if ready {
            seq![ScreenStep::OnMessagingInitialized]
        } else {
            seq![]
        }) + seq![ScreenStep::ConfigureClicks],
        WindowEvent::Unload => seq![ScreenStep::OnDrop] + (if layers_built {
            seq![ScreenStep::DropLayers]
        } else {
            seq![]
        }) + seq![ScreenStep::DropCtx, ScreenStep::DropTemp, ScreenStep::DropBundle],
        WindowEvent::Appear => seq![ScreenStep::OnAppear],
        WindowEvent::Disappear => seq![ScreenStep::OnDisappear],
    }
}

/// Handle an event of the window of a screen: an unloaded screen leaves the router; the
/// steps are for the display to run in order.
pub fn window_event<S: 'static, L, B: Copy>(
    router: &mut Router<B>,
    ctx: &ScreenCtx<S, L>,
    event: WindowEvent,
) -> (steps: Vec<ScreenStep>)
    ensures
        steps@ == steps_of(event, old(router)@.ready, ctx@.layers is Some),
        final(router)@ == if event == WindowEvent::Unload {
            RouterView {
                entries: without(old(router)@.entries, ctx@.window_id),
                ..old(router)@
            }
        } else {
            old(router)@
        },
{
    let mut steps: Vec<ScreenStep> = Vec::new();
    match event {
        WindowEvent::Load => {
            steps.push(ScreenStep::CreateWindow);
            steps.push(ScreenStep::View);
            steps.push(ScreenStep::OnCreate);
            if router.is_ready() {
                steps.push(ScreenStep::OnMessagingInitialized);
            }
            steps.push(ScreenStep::ConfigureClicks);
        },
        WindowEvent::Unload => {
            router.unregister(ctx.window_id);
            steps.push(ScreenStep::OnDrop);
            if ctx.layers().is_some() {
                steps.push(ScreenStep::DropLayers);
            }
            steps.push(ScreenStep::DropCtx);
            steps.push(ScreenStep::DropTemp);
            steps.push(ScreenStep::DropBundle);
        },
        WindowEvent::Appear => {
            steps.push(ScreenStep::OnAppear);
        },
        WindowEvent::Disappear => {
            steps.push(ScreenStep::OnDisappear);
        },
    }
    assert(steps@ =~= steps_of(event, old(router)@.ready, ctx@.layers is Some));
    steps
}

} // verus!
