use taconite::graphics::{Layer, Window};
use taconite::screen::{
    message_received, push_screen, window_event, Dispatch, PushedScreen, Router, ScreenStep,
    WindowEvent, WindowStep,
};
use taconite::store::{Repaint, Store, UpdateError};
use taconite::{AppMessageDict, ScreenCtx, ScreenMessageCtx, TaconiteMessageKey};

type Items = Vec<i32>;
type Layers = &'static str;

const WINDOW: Window = Window { raw: 1 };
const ROOT: Layer = Layer { raw: 2 };

fn pushed(router: &mut Router<usize>, store: &mut Store<Items>, bundle: usize) -> PushedScreen<Items, Layers, Items> {
    push_screen(router, store, vec![bundle as i32], WINDOW, ROOT, bundle, false)
}

fn to_window(id: i32) -> AppMessageDict {
    AppMessageDict::new(vec![(TaconiteMessageKey::WindowId.as_u32(), id)])
}

#[test]
fn a_pushed_screen_has_its_context() {
    let mut router: Router<usize> = Router::new();
    let mut store = Store::new();
    let screen = pushed(&mut router, &mut store, 7);
    assert_eq!(screen.ctx.window_id, 1);
    assert_eq!(*screen.ctx.root(), ROOT);
    assert_eq!(*screen.ctx.window(), WINDOW);
    assert!(screen.ctx.layers().is_none());
    assert!(screen.temp.is_empty());
    assert_eq!(screen.ctx.with(&store, |s| s.clone()), vec![7]);
    assert_eq!(
        screen.steps,
        vec![WindowStep::SetUserData, WindowStep::SetHandlers, WindowStep::Push(false)]
    );
    let other: PushedScreen<Items, Layers, ()> =
        push_screen(&mut router, &mut store, Vec::new(), WINDOW, ROOT, 8, true);
    assert_eq!(other.ctx.window_id, 2);
    assert_eq!(other.steps[2], WindowStep::Push(true));
}

#[test]
fn an_update_runs_the_view() {
    let mut router: Router<usize> = Router::new();
    let mut store = Store::new();
    let mut ctx = pushed(&mut router, &mut store, 0).ctx;
    // Without layers there is no view to run.
    assert_eq!(ctx.update(&mut store, |s| s.push(5)), Ok(()));
    assert!(store.take_repaints().is_empty());
    assert!(ctx.begin_view(&mut store).is_none());
    assert_eq!(ctx.state().update(&mut store, |s| s.push(6)), Ok(()));
    let local = taconite::MutableState::from_shared(ctx.shared(), Repaint::Layer(ROOT));
    assert_eq!(local.update(&mut store, |s| s[2] = 7), Ok(()));
    ctx.set_layers(&mut store, "layers");
    assert_eq!(store.take_repaints(), vec![Repaint::Layer(ROOT)]);
    assert_eq!(ctx.update(&mut store, |s| s.truncate(2)), Ok(()));
    assert_eq!(store.take_repaints(), vec![Repaint::View(1)]);
    // Layers that replace others void nothing.
    assert_eq!(ctx.update(&mut store, |_| ()), Ok(()));
    ctx.set_layers(&mut store, "layers");
    assert_eq!(store.take_repaints(), vec![Repaint::View(1)]);
    assert_eq!(ctx.layers(), Some(&"layers"));
    let handle = ctx.state();
    let pass = ctx.begin_view(&mut store).unwrap();
    assert_eq!(*pass.state(), vec![0, 5]);
    assert_eq!(handle.update(&mut store, |s| s.clear()), Err(UpdateError::DuringRender));
    assert_eq!(*pass.state(), vec![0, 5]);
    pass.end(&mut store);
    let again = ctx.state();
    assert!(handle.update(&mut store, |s| s.clear()).is_ok());
    assert_eq!(again.with(&store, |s| s.len()), 0);
    assert_eq!(store.take_repaints(), vec![Repaint::View(1)]);
    let held = again.snapshot(&store);
    assert_eq!(ctx.update(&mut store, |s| s.push(1)), Err(UpdateError::SnapHeld));
    drop(held);
    let guard = handle.read(&mut store);
    assert_eq!(ctx.update(&mut store, |s| s.push(1)), Err(UpdateError::DuringRender));
    guard.release(&mut store);
    assert_eq!(ctx.take_layers(), Some("layers"));
    assert!(ctx.layers().is_none());
}

#[test]
fn a_shared_cell_is_the_state_of_the_screen() {
    let mut router: Router<usize> = Router::new();
    let mut store = Store::new();
    let ctx = pushed(&mut router, &mut store, 3).ctx;
    let other = taconite::MutableState::from_shared(ctx.shared(), Repaint::Layer(ROOT));
    assert!(other.update(&mut store, |s| s.push(4)).is_ok());
    assert_eq!(ctx.with(&store, |s| s.clone()), vec![3, 4]);
    assert_eq!(store.take_repaints(), vec![Repaint::Layer(ROOT)]);
    let built: ScreenCtx<Items, Layers> = ScreenCtx::new(ctx.shared(), 9, ROOT, WINDOW);
    assert_eq!(built.with(&store, |s| s.len()), 2);
}

#[test]
fn staged_data_lands_in_one_commit() {
    let mut router: Router<usize> = Router::new();
    let mut store = Store::new();
    let PushedScreen { mut ctx, temp, .. } = pushed(&mut router, &mut store, 0);
    ctx.set_layers(&mut store, "layers");
    let mut mctx = ScreenMessageCtx::new(&ctx, temp);
    assert_eq!(mctx.update_temp(|t| { t.push(1); t.len() }), 1);
    assert_eq!(mctx.update_temp(|t| { t.push(2); t.len() }), 2);
    assert!(store.take_repaints().is_empty());
    assert_eq!(mctx.deref().with(&store, |s| s.clone()), vec![0]);
    assert_eq!(mctx.commit(&mut store, |s, t| { s.append(t); t.push(9); s.len() }), Ok(3));
    assert_eq!(store.take_repaints(), vec![Repaint::View(1)]);
    assert_eq!(mctx.deref().with(&store, |s| s.clone()), vec![0, 1, 2]);
    // A handler reaches the state through its context.
    assert_eq!(mctx.deref().update(&mut store, |s| s.clear()), Ok(()));
    assert_eq!(mctx.deref().state().with(&store, |s| s.len()), 0);
    assert_eq!(store.take_repaints(), vec![Repaint::View(1)]);
    assert!(mctx.into_temp().is_empty());
}

#[test]
fn a_commit_without_layers_shows_nothing() {
    let mut router: Router<usize> = Router::new();
    let mut store = Store::new();
    let PushedScreen { ctx, .. } = pushed(&mut router, &mut store, 0);
    let mut mctx = ScreenMessageCtx::new(&ctx, vec![4]);
    assert_eq!(mctx.commit(&mut store, |s, t| s.append(t)), Ok(()));
    assert!(store.take_repaints().is_empty());
    assert_eq!(ctx.with(&store, |s| s.clone()), vec![0, 4]);
}

#[test]
fn a_refused_commit_keeps_the_buffer() {
    let mut router: Router<usize> = Router::new();
    let mut store = Store::new();
    let PushedScreen { ctx, .. } = pushed(&mut router, &mut store, 0);
    let handle = ctx.state();
    let mut mctx = ScreenMessageCtx::new(&ctx, vec![4]);
    let held = handle.snapshot(&store);
    assert_eq!(mctx.commit(&mut store, |s, t| s.append(t)), Err(UpdateError::SnapHeld));
    drop(held);
    let guard = handle.read(&mut store);
    assert_eq!(mctx.commit(&mut store, |s, t| s.append(t)), Err(UpdateError::DuringRender));
    guard.release(&mut store);
    assert_eq!(handle.with(&store, |s| s.clone()), vec![0]);
    assert_eq!(mctx.into_temp(), vec![4]);
}

#[test]
fn messages_reach_their_screen() {
    let mut router: Router<usize> = Router::new();
    let mut store = Store::new();
    let first = pushed(&mut router, &mut store, 10).ctx;
    pushed(&mut router, &mut store, 20);
    assert!(matches!(message_received(&mut router, &to_window(1)), Dispatch::Deliver(10)));
    assert!(matches!(message_received(&mut router, &to_window(2)), Dispatch::Deliver(20)));
    assert!(matches!(message_received(&mut router, &to_window(3)), Dispatch::Ignore));
    assert!(matches!(message_received(&mut router, &AppMessageDict::new(vec![(1, 1)])), Dispatch::Ignore));
    assert!(matches!(message_received(&mut router, &to_window(258)), Dispatch::Ignore));
    assert!(matches!(message_received(&mut router, &to_window(-255)), Dispatch::Ignore));
    assert!(matches!(message_received(&mut router, &to_window(256)), Dispatch::Ignore));
    assert!(!router.is_ready());
    window_event(&mut router, &first, WindowEvent::Unload);
    assert!(matches!(message_received(&mut router, &to_window(1)), Dispatch::Ignore));
    assert!(matches!(message_received(&mut router, &to_window(2)), Dispatch::Deliver(20)));
}

#[test]
fn every_live_screen_is_told_that_the_phone_is_ready() {
    let mut router: Router<usize> = Router::new();
    let mut store = Store::new();
    pushed(&mut router, &mut store, 10);
    pushed(&mut router, &mut store, 20);
    pushed(&mut router, &mut store, 30);
    router.unregister(2);
    match message_received(&mut router, &to_window(0)) {
        Dispatch::MessagingInitialized(all) => assert_eq!(all, vec![10, 30]),
        _ => panic!("not told"),
    }
    assert!(router.is_ready());
}

#[test]
fn ids_are_given_out_in_turn() {
    let mut router: Router<usize> = Router::new();
    for n in 1..=255 {
        assert_eq!(router.next_window_id(), n);
    }
    assert_eq!(router.next_window_id(), 0);
    assert_eq!(router.next_window_id(), 1);
}

#[test]
fn window_ids_wrap_around() {
    let mut router: Router<usize> = Router::new();
    let mut store = Store::new();
    for n in 0..255 {
        assert_eq!(pushed(&mut router, &mut store, n).ctx.window_id as usize, n + 1);
    }
    assert_eq!(pushed(&mut router, &mut store, 255).ctx.window_id, 0);
    assert_eq!(pushed(&mut router, &mut store, 256).ctx.window_id, 1);
    // The older of two screens with one id gets the messages, and both leave together.
    assert!(matches!(message_received(&mut router, &to_window(1)), Dispatch::Deliver(0)));
    router.unregister(1);
    assert!(matches!(message_received(&mut router, &to_window(1)), Dispatch::Ignore));
}

#[test]
fn a_screen_lives_through_its_window() {
    let mut router: Router<usize> = Router::new();
    let mut store = Store::new();
    let mut ctx = pushed(&mut router, &mut store, 1).ctx;
    assert_eq!(
        window_event(&mut router, &ctx, WindowEvent::Load),
        vec![ScreenStep::CreateWindow, ScreenStep::View, ScreenStep::OnCreate, ScreenStep::ConfigureClicks]
    );
    assert_eq!(window_event(&mut router, &ctx, WindowEvent::Appear), vec![ScreenStep::OnAppear]);
    assert_eq!(window_event(&mut router, &ctx, WindowEvent::Disappear), vec![ScreenStep::OnDisappear]);
    assert!(matches!(message_received(&mut router, &to_window(0)), Dispatch::MessagingInitialized(_)));
    assert_eq!(
        window_event(&mut router, &ctx, WindowEvent::Load),
        vec![
            ScreenStep::CreateWindow,
            ScreenStep::View,
            ScreenStep::OnCreate,
            ScreenStep::OnMessagingInitialized,
            ScreenStep::ConfigureClicks,
        ]
    );
    assert_eq!(
        window_event(&mut router, &ctx, WindowEvent::Unload),
        vec![ScreenStep::OnDrop, ScreenStep::DropCtx, ScreenStep::DropTemp, ScreenStep::DropBundle]
    );
    ctx.set_layers(&mut store, "layers");
    assert_eq!(
        window_event(&mut router, &ctx, WindowEvent::Unload),
        vec![
            ScreenStep::OnDrop,
            ScreenStep::DropLayers,
            ScreenStep::DropCtx,
            ScreenStep::DropTemp,
            ScreenStep::DropBundle,
        ]
    );
}
