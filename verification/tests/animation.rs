use taconite::animation::{
    AnimatedState, AnimationCurve, Interpolatable, LoopAction, LoopingState, Loops, Plays, Start, Tweens,
    ANIMATION_NORMALIZED_MAX, TRIG_MAX_ANGLE,
};
use taconite::graphics::Layer;
use taconite::snap::Snap;
use taconite::state::State;
use taconite::store::{MutableState, Repaint, Store};

type World = (Store<i32>, Tweens<i32>);

#[test]
fn integers_interpolate() {
    assert_eq!(i32::interpolate(100, 300, 0), 100);
    assert_eq!(i32::interpolate(100, 300, 32768), 200);
    assert_eq!(i32::interpolate(100, 300, ANIMATION_NORMALIZED_MAX), 300);
    assert_eq!(i32::interpolate(300, 100, 16384), 250);
    assert_eq!(i32::interpolate(0, -10, 40000), -6);
    assert_eq!(i32::interpolate(0, TRIG_MAX_ANGLE, ANIMATION_NORMALIZED_MAX), 0x10000);
    assert_eq!(i32::interpolate(5, 5 - TRIG_MAX_ANGLE, ANIMATION_NORMALIZED_MAX), 5 - 0x10000);
}

fn animated() -> (MutableState<i32>, AnimatedState<Store<i32>, i32>, World) {
    let mut store = Store::new();
    let mut tweens = Tweens::new();
    let cell = MutableState::new(&mut store, 100, Repaint::View(1));
    let value = AnimatedState::for_layer(cell.as_state(), &mut tweens, Layer { raw: 3 });
    (cell, value, (store, tweens))
}

#[test]
fn the_first_read_snaps() {
    let (_, value, mut world) = animated();
    assert_eq!(value.as_state().with(&mut world, |x| *x), 100);
    assert!(world.1.take_starts().is_empty());
    assert!(world.1.take_repaints().is_empty());
}

#[test]
fn a_moved_source_is_chased() {
    let (cell, value, mut world) = animated();
    let state = value.as_state();
    state.with(&mut world, |_| ());
    assert!(cell.update(&mut world.0, |x| *x = 300).is_ok());
    assert_eq!(state.with(&mut world, |x| *x), 100);
    assert_eq!(world.1.take_starts(), vec![Start { book: 0, duration: 300, curve: AnimationCurve::EaseInOut, plays: Plays::Once }]);
    world.1.frame(0, 32768);
    assert_eq!(world.1.take_repaints(), vec![Repaint::Layer(Layer { raw: 3 })]);
    assert_eq!(state.with(&mut world, |x| *x), 200);
    assert!(world.1.take_starts().is_empty());

    // The source moves on before the animation has arrived.
    assert!(cell.update(&mut world.0, |x| *x = 0).is_ok());
    assert_eq!(state.with(&mut world, |x| *x), 200);
    assert_eq!(world.1.take_starts().len(), 1);
    world.1.frame(0, 0);
    assert_eq!(state.with(&mut world, |x| *x), 200);
    world.1.frame(0, ANIMATION_NORMALIZED_MAX);
    assert_eq!(state.with(&mut world, |x| *x), 0);
    assert!(world.1.take_starts().is_empty());
}

#[derive(Clone, Copy, Debug, PartialEq)]
struct Spot {
    x: i32,
    y: i32,
}

impl Interpolatable for Spot {
    fn can_interpolate(_: Spot, _: Spot, _: u32) -> bool {
        true
    }

    fn interpolated(from: Spot, _: Spot, _: u32) -> Spot {
        from
    }

    fn interpolate(from: Spot, to: Spot, progress: u32) -> Spot {
        Spot { x: i32::interpolate(from.x, to.x, progress), y: i32::interpolate(from.y, to.y, progress) }
    }
}

#[test]
fn any_comparable_value_can_be_animated() {
    let mut store = Store::new();
    let mut tweens = Tweens::new();
    let cell = MutableState::new(&mut store, Spot { x: 0, y: 10 }, Repaint::View(1));
    let state = AnimatedState::new(cell.as_state(), &mut tweens, Repaint::Own(77)).as_state();
    let mut world = (store, tweens);
    assert_eq!(state.with(&mut world, |s| *s), Spot { x: 0, y: 10 });
    assert!(cell.update(&mut world.0, |s| s.x = 100).is_ok());
    assert_eq!(state.with(&mut world, |s| *s), Spot { x: 0, y: 10 });
    assert_eq!(world.1.take_starts().len(), 1);
    world.1.frame(0, 32768);
    assert_eq!(world.1.take_repaints(), vec![Repaint::Own(77)]);
    assert_eq!(state.with(&mut world, |s| *s), Spot { x: 50, y: 10 });
    assert!(world.1.take_starts().is_empty());
}

#[test]
fn the_last_of_a_run_of_frames_counts() {
    let (cell, value, mut world) = animated();
    let state = value.as_state();
    state.with(&mut world, |_| ());
    assert!(cell.update(&mut world.0, |x| *x = 300).is_ok());
    state.with(&mut world, |_| ());
    for progress in [100, 60000, 5, 32768] {
        world.1.frame(0, progress);
    }
    assert_eq!(world.1.take_repaints().len(), 4);
    assert_eq!(state.with(&mut world, |x| *x), 200);
    assert_eq!(world.1.take_starts().len(), 1);

    // The source leaves and comes back between two reads: nothing starts.
    assert!(cell.update(&mut world.0, |x| *x = 0).is_ok());
    assert!(cell.update(&mut world.0, |x| *x = 300).is_ok());
    assert_eq!(state.with(&mut world, |x| *x), 200);
    assert_eq!(state.with(&mut world, |x| *x), 200);
    assert!(world.1.take_starts().is_empty());
    assert_eq!(world.1.sync(0, 300), 200);
}

#[test]
fn frames_before_the_first_read_show_nothing() {
    let (_, value, mut world) = animated();
    world.1.frame(0, 1000);
    assert_eq!(world.1.take_repaints().len(), 1);
    assert_eq!(value.as_state().with(&mut world, |x| *x), 100);
}

#[test]
fn animations_can_be_tuned() {
    let (cell, value, mut world) = animated();
    let value = value.with_duration(&mut world.1, 50);
    let value = value.with_curve(&mut world.1, AnimationCurve::Linear);
    let doubled = value.map(|x: &Snap<i32>| *x.get() * 2);
    let same = value.focus(|x: &i32| x);
    assert_eq!(doubled.with(&mut world, |x| *x), 200);
    assert!(cell.update(&mut world.0, |x| *x = 101).is_ok());
    assert_eq!(same.with(&mut world, |x| *x), 100);
    assert_eq!(world.1.take_starts(), vec![Start { book: 0, duration: 50, curve: AnimationCurve::Linear, plays: Plays::Once }]);
    world.1.frame(0, ANIMATION_NORMALIZED_MAX);
    let state: State<World, i32> = State::from(&value);
    assert_eq!(state.with(&mut world, |x| *x), 101);
    let state: State<World, i32> = value.into();
    assert_eq!(state.with(&mut world, |x| *x), 101);
}

#[test]
fn animated_values_do_not_disturb_each_other() {
    let mut store = Store::new();
    let mut tweens = Tweens::new();
    let cell = MutableState::new(&mut store, 1, Repaint::View(1));
    let one = AnimatedState::new(cell.as_state(), &mut tweens, Repaint::View(1)).as_state();
    let two = AnimatedState::new(State::fixed(9), &mut tweens, Repaint::View(2)).as_state();
    let mut world = (store, tweens);
    assert_eq!(one.with(&mut world, |x| *x), 1);
    assert_eq!(two.with(&mut world, |x| *x), 9);
    assert!(cell.update(&mut world.0, |x| *x = 5).is_ok());
    one.with(&mut world, |_| ());
    world.1.frame(0, ANIMATION_NORMALIZED_MAX);
    assert_eq!(world.1.take_repaints(), vec![Repaint::View(1)]);
    assert_eq!(two.with(&mut world, |x| *x), 9);
    assert_eq!(one.with(&mut world, |x| *x), 5);
}

#[test]
fn a_loop_runs_while_it_is_read() {
    let mut loops = Loops::new();
    let value = LoopingState::for_layer(60, &mut loops, Layer { raw: 4 });
    let state = value.as_state();
    let start = LoopAction::Start(Start { book: 0, duration: 1000, curve: AnimationCurve::EaseInOut, plays: Plays::Forever });
    assert_eq!(state.with(&mut loops, |x| *x), 0);
    assert_eq!(loops.take_actions(), vec![start]);
    loops.frame(0, 32768);
    loops.end_frame(0);
    assert_eq!(state.with(&mut loops, |x| *x), 30);
    loops.frame(0, ANIMATION_NORMALIZED_MAX);
    loops.end_frame(0);
    assert_eq!(state.with(&mut loops, |x| *x), 60);
    assert!(loops.take_actions().is_empty());
    assert_eq!(loops.take_repaints(), vec![Repaint::Layer(Layer { raw: 4 }), Repaint::Layer(Layer { raw: 4 })]);
}

#[test]
fn a_repaint_that_reads_at_once_keeps_the_loop_running() {
    let mut loops = Loops::new();
    let state = LoopingState::new(60, &mut loops, Repaint::View(1)).as_state();
    state.with(&mut loops, |_| ());
    assert_eq!(loops.take_actions().len(), 1);
    let mut progress = 0;
    while progress < 1000 {
        loops.frame(0, progress);
        assert_eq!(loops.take_repaints(), vec![Repaint::View(1)]);
        state.with(&mut loops, |_| ());
        loops.end_frame(0);
        assert!(loops.take_actions().is_empty());
        progress += 100;
    }
}

#[test]
fn an_unread_loop_pauses_and_starts_again() {
    let mut loops = Loops::new();
    let value = LoopingState::new(10, &mut loops, Repaint::View(2));
    let value = value.with_duration(&mut loops, 70).with_curve(&mut loops, AnimationCurve::EaseIn);
    let state: State<Loops, i32> = State::from(&value);
    let start = LoopAction::Start(Start { book: 0, duration: 70, curve: AnimationCurve::EaseIn, plays: Plays::Forever });
    state.with(&mut loops, |_| ());
    loops.frame(0, 100);
    loops.end_frame(0);
    assert_eq!(loops.take_actions(), vec![start]);
    loops.frame(0, 200);
    loops.end_frame(0);
    assert_eq!(loops.take_actions(), vec![LoopAction::Stop(0)]);
    assert_eq!(loops.sync(0), 0);
    state.with(&mut loops, |_| ());
    assert_eq!(loops.take_actions(), vec![start]);
    let state: State<Loops, i32> = value.into();
    assert_eq!(state.with(&mut loops, |x| *x), 0);
}

#[test]
fn a_paused_loop_resumes_at_its_last_phase() {
    let mut loops = Loops::new();
    let state = LoopingState::new(360, &mut loops, Repaint::View(2)).as_state();
    state.with(&mut loops, |_| ());
    loops.frame(0, 100);
    loops.end_frame(0);
    loops.frame(0, 32768);
    loops.end_frame(0);
    assert_eq!(loops.take_actions().len(), 2);
    assert_eq!(state.with(&mut loops, |x| *x), 180);
    assert_eq!(loops.take_actions().len(), 1);
}

#[test]
fn a_loop_that_never_started_is_not_stopped() {
    let mut loops = Loops::new();
    let value = LoopingState::new(10, &mut loops, Repaint::View(2));
    loops.frame(0, ANIMATION_NORMALIZED_MAX);
    loops.end_frame(0);
    assert!(loops.take_actions().is_empty());
    assert_eq!(value.as_state().with(&mut loops, |x| *x), 10);
    assert_eq!(loops.take_actions().len(), 1);
}

#[test]
fn frames_that_would_overflow_are_told_apart() {
    let (cell, value, mut world) = animated();
    let state = value.as_state();
    assert!(world.1.accepts_frame(0, ANIMATION_NORMALIZED_MAX));
    assert!(!world.1.accepts_frame(1, 0));
    state.with(&mut world, |_| ());
    assert!(cell.update(&mut world.0, |x| *x = i32::MAX).is_ok());
    state.with(&mut world, |_| ());
    assert!(world.1.accepts_frame(0, 0));
    assert!(world.1.accepts_frame(0, 3));
    assert!(!world.1.accepts_frame(0, 4));
    assert!(cell.update(&mut world.0, |x| *x = i32::MIN).is_ok());
    state.with(&mut world, |_| ());
    assert!(!world.1.accepts_frame(0, 0));

    let mut loops = Loops::new();
    LoopingState::new(TRIG_MAX_ANGLE, &mut loops, Repaint::View(1));
    LoopingState::new(TRIG_MAX_ANGLE + 3, &mut loops, Repaint::View(1));
    assert!(loops.accepts_frame(0, ANIMATION_NORMALIZED_MAX));
    assert!(!loops.accepts_frame(1, ANIMATION_NORMALIZED_MAX));
    assert!(!loops.accepts_frame(2, 0));
}
