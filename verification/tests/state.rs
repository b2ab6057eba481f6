use std::rc::Rc;

use taconite::cell::ReCell;
use taconite::graphics::Layer;
use taconite::snap::Snap;
use taconite::state::{Shown, State};
use taconite::store::{settle_commit, settle_update, MutableState, Repaint, Store, UpdateError};

struct Profile {
    name: String,
    age: u32,
}

struct Header {
    title: Snap<String>,
    adult: bool,
}

fn profile() -> Profile {
    Profile { name: String::from("ada"), age: 36 }
}

#[test]
fn a_cell_counts_its_borrows() {
    let mut cell = ReCell::new(5);
    let one = cell.borrow();
    let two = cell.borrow();
    assert_eq!(*one.deref(&cell), 5);
    assert!(cell.try_borrow_mut().is_none());
    one.release(&mut cell);
    assert!(cell.try_borrow_mut().is_none());
    assert_eq!(*two.deref(&cell), 5);
    two.release(&mut cell);
    assert!(cell.try_borrow_mut().is_some());
}

#[test]
fn a_written_cell_is_read_back() {
    let mut cell = ReCell::new(5);
    let guard = cell.borrow_mut();
    assert!(cell.try_borrow_mut().is_none());
    *guard.deref_mut(&mut cell) = 6;
    assert_eq!(*guard.deref(&cell), 6);
    guard.release(&mut cell);
    assert_eq!(*cell.peek(), 6);
    let guard = cell.borrow();
    assert_eq!(*guard.deref(&cell), 6);
}

#[test]
fn a_snap_narrows() {
    let whole = Snap::whole(Rc::new(profile()));
    let name = whole.focus(|p: &Profile| &p.name);
    assert_eq!(name.get(), "ada");
    let copy = name.clone();
    drop(whole);
    drop(name);
    assert_eq!(copy.len(), 3);
    let letters: Snap<str> = copy.focus(|s: &String| s.as_str());
    let rest: Snap<str> = letters.focus(|s: &str| &s[1..]);
    assert_eq!(rest.get(), "da");
    let slice: Snap<[i32]> = Snap::whole(Rc::from(vec![1, 2, 3]));
    assert_eq!(slice.focus(|s: &[i32]| &s[2]).get(), &3);
}

#[test]
fn a_constant_is_read() {
    let mut world = ();
    let state: State<(), i32> = State::fixed(12);
    assert_eq!(state.with(&mut world, |x| *x + 1), 13);
    assert_eq!(*state.snapshot(&mut world).get(), 12);
}

#[test]
fn views_read_what_an_update_wrote() {
    let mut store = Store::new();
    let cell = MutableState::new(&mut store, profile(), Repaint::View(1));
    let age = cell.focus(|p: &Profile| &p.age);
    let label = cell.map(|p: &Snap<Profile>| p.get().age * 2);
    let all = cell.as_state();
    assert_eq!(age.with(&mut store, |x| *x), 36);
    assert_eq!(label.with(&mut store, |x| *x), 72);
    assert_eq!(cell.update(&mut store, |p| p.age = 40), Ok(()));
    assert_eq!(age.with(&mut store, |x| *x), 40);
    assert_eq!(label.with(&mut store, |x| *x), 80);
    assert_eq!(all.with(&mut store, |p| p.name.clone()), "ada");
    assert_eq!(cell.with(&store, |p| p.age), 40);
    assert_eq!(store.take_repaints(), vec![Repaint::View(1)]);
    assert!(store.take_repaints().is_empty());
}

#[test]
fn a_layer_local_cell_repaints_its_layer() {
    let mut store = Store::new();
    let layer = Layer { raw: 7 };
    let cell = MutableState::for_layer(&mut store, layer, 1);
    assert!(cell.update(&mut store, |x| *x += 1).is_ok());
    assert!(cell.update(&mut store, |x| *x += 1).is_ok());
    assert_eq!(cell.with(&store, |x| *x), 3);
    assert_eq!(store.take_repaints(), vec![Repaint::Layer(layer), Repaint::Layer(layer)]);
}

#[test]
fn a_trigger_of_the_callers_own_comes_back() {
    let mut store = Store::new();
    let cell = MutableState::new(&mut store, 1, Repaint::Own(42));
    assert!(cell.update(&mut store, |x| *x = 2).is_ok());
    assert_eq!(store.take_repaints(), vec![Repaint::Own(42)]);
}

#[test]
fn a_held_value_keeps_its_cell() {
    let mut store = Store::new();
    let cell = MutableState::new(&mut store, (1, 2), Repaint::View(1));
    let part = cell.focus(|p: &(i32, i32)| &p.1);
    let held = part.hold(&mut store);
    assert_eq!(*held.get(), 2);
    assert_eq!(cell.update(&mut store, |p| p.1 = 3), Err(UpdateError::DuringRender));
    assert_eq!(part.with(&mut store, |x| *x), 2);
    part.release(held, &mut store);
    assert_eq!(cell.update(&mut store, |p| p.1 = 3), Ok(()));
}

#[test]
fn handles_to_a_shared_cell_agree() {
    let mut store = Store::new();
    let shared = store.share(10);
    let one = MutableState::from_shared(shared.clone(), Repaint::View(1));
    let other = MutableState::from_shared(shared, Repaint::View(2));
    let view: State<Store<i32>, i32> = State::from(&one);
    assert!(other.update(&mut store, |x| *x = 11).is_ok());
    assert!(one.clone().update(&mut store, |x| *x += 1).is_ok());
    assert_eq!(view.with(&mut store, |x| *x), 12);
    let owned: State<Store<i32>, i32> = one.into();
    assert_eq!(owned.with(&mut store, |x| *x), 12);
    assert_eq!(store.take_repaints(), vec![Repaint::View(2), Repaint::View(1)]);
}

#[test]
fn an_update_leaves_other_cells_alone() {
    let mut store = Store::new();
    let a = MutableState::new(&mut store, 1, Repaint::View(1));
    let b = MutableState::new(&mut store, 2, Repaint::View(1));
    let view = b.as_state();
    assert!(a.update(&mut store, |x| *x = 100).is_ok());
    assert_eq!(view.with(&mut store, |x| *x), 2);
}

#[test]
fn an_update_during_a_read_is_refused() {
    let mut store = Store::new();
    let cell = MutableState::new(&mut store, 1, Repaint::View(1));
    let guard = cell.read(&mut store);
    assert_eq!(*guard.deref(&store), 1);
    assert_eq!(cell.update(&mut store, |x| *x = 2), Err(UpdateError::DuringRender));
    assert_eq!(cell.with(&store, |x| *x), 1);
    assert!(store.take_repaints().is_empty());
    guard.release(&mut store);
    assert_eq!(cell.update(&mut store, |x| *x = 2), Ok(()));
    assert_eq!(cell.with(&store, |x| *x), 2);
}

#[test]
fn an_update_under_a_held_snapshot_is_refused() {
    let mut store = Store::new();
    let cell = MutableState::new(&mut store, profile(), Repaint::View(1));
    let held = cell.snapshot(&store);
    assert_eq!(cell.update(&mut store, |p| p.age = 1), Err(UpdateError::SnapHeld));
    assert_eq!(held.age, 36);
    assert_eq!(cell.with(&store, |p| p.age), 36);
    assert!(store.take_repaints().is_empty());
    drop(held);
    assert_eq!(cell.update(&mut store, |p| p.age = 1), Ok(()));

    let part = cell.focus(|p: &Profile| &p.name).snapshot(&mut store);
    assert_eq!(cell.update(&mut store, |p| p.name.clear()), Err(UpdateError::SnapHeld));
    assert_eq!(part.get(), "ada");
    drop(part);
    assert_eq!(cell.update(&mut store, |p| p.name.clear()), Ok(()));
    assert_eq!(cell.with(&store, |p| p.name.len()), 0);
}

#[test]
fn a_bundle_keeps_pointers_into_the_snapshot() {
    let mut store = Store::new();
    let cell = MutableState::new(&mut store, profile(), Repaint::View(1));
    let header = cell.map(|p: &Snap<Profile>| Header {
        title: p.focus(|p: &Profile| &p.name),
        adult: p.age >= 18,
    });
    assert_eq!(header.with(&mut store, |h| (h.title.get().clone(), h.adult)), (String::from("ada"), true));
    let title = header.focus(|h: &Header| &h.title);
    assert_eq!(title.with(&mut store, |t| t.len()), 3);
    assert!(cell.update(&mut store, |p| p.age = 3).is_ok());
    assert!(!header.with(&mut store, |h| h.adult));
}

#[test]
fn lenses_compose() {
    let mut store = Store::new();
    let cell = MutableState::new(&mut store, ((1, 2), 3), Repaint::View(1));
    let inner = cell.focus(|p: &((i32, i32), i32)| &p.0).focus(|p: &(i32, i32)| &p.1);
    assert_eq!(inner.with(&mut store, |x| *x), 2);
    assert!(cell.update(&mut store, |p| p.0 .1 = 9).is_ok());
    assert_eq!(inner.with(&mut store, |x| *x), 9);
}

#[test]
fn a_lens_reads_in_place() {
    let mut store = Store::new();
    let cell = MutableState::new(&mut store, profile(), Repaint::View(1));
    let name = cell.focus(|p: &Profile| &p.name);
    assert!(matches!(name.read(&mut store), Shown::Here(n) if n == "ada"));
    assert_eq!(name.with(&mut store, |n| n.len()), 3);
    // A scoped read holds nothing once it is over.
    assert_eq!(cell.update(&mut store, |p| p.age += 1), Ok(()));
    let length = name.map(|n: &Snap<String>| (n.get().len(), 0));
    assert!(matches!(length.read(&mut store), Shown::Built((3, 0))));
    let part = length.focus(|l: &(usize, i32)| &l.0);
    assert_eq!(*part.read(&mut store).get(), 3);
    assert_eq!(*part.focus(|l: &usize| l).read(&mut store).get(), 3);
}

#[test]
fn the_identity_lens_changes_nothing() {
    let mut store = Store::new();
    let cell = MutableState::new(&mut store, 4, Repaint::View(1));
    let same = cell.focus(|x: &i32| x);
    assert_eq!(same.with(&mut store, |x| *x), 4);
    assert_eq!(*same.snapshot(&mut store).get(), 4);
}

#[test]
fn two_cells_combine() {
    let mut store = Store::new();
    let a = MutableState::new(&mut store, 3, Repaint::View(1));
    let b = MutableState::new(&mut store, 4, Repaint::View(1));
    let sum = State::combine(&a.as_state(), &b.as_state(), |x: &Snap<i32>, y: &Snap<i32>| *x.get() + *y.get());
    assert_eq!(sum.with(&mut store, |x| *x), 7);
    assert!(b.update(&mut store, |x| *x = 10).is_ok());
    assert_eq!(sum.with(&mut store, |x| *x), 13);
}

#[test]
fn cells_of_two_stores_combine() {
    let mut rows: Store<Vec<String>> = Store::new();
    let mut selection: Store<usize> = Store::new();
    let list = MutableState::new(&mut rows, vec![String::from("a"), String::from("b")], Repaint::View(1));
    let index = MutableState::new(&mut selection, 0, Repaint::Layer(Layer { raw: 1 }));
    let chosen = State::combine(
        &list.as_state().in_first::<Store<usize>>(),
        &index.as_state().in_second::<Store<Vec<String>>>(),
        |rows: &Snap<Vec<String>>, at: &Snap<usize>| rows.get()[*at.get()].clone(),
    );
    let mut world = (rows, selection);
    assert_eq!(chosen.with(&mut world, |s| s.clone()), "a");
    assert!(index.update(&mut world.1, |i| *i = 1).is_ok());
    assert_eq!(chosen.with(&mut world, |s| s.clone()), "b");
    assert!(list.update(&mut world.0, |rows| rows[1].push('!')).is_ok());
    assert_eq!(chosen.with(&mut world, |s| s.clone()), "b!");
}

#[test]
fn settling_follows_uniqueness() {
    let mut value = 1;
    assert_eq!(settle_update(Some(&mut value), |x| { *x = 5; 7 }), Ok(7));
    assert_eq!(value, 5);
    let refused: Result<(), UpdateError> = settle_update(None, |x: &mut i32| *x = 6);
    assert_eq!(refused, Err(UpdateError::SnapHeld));

    let mut staged = vec![1, 2];
    let sum = settle_commit(Some(&mut value), &mut staged, |x, t| { *x = t.iter().sum(); t.len() });
    assert_eq!(sum, Ok(2));
    assert_eq!(value, 3);
    let kept: Result<(), UpdateError> = settle_commit(None, &mut staged, |_: &mut i32, t: &mut Vec<i32>| t.clear());
    assert_eq!(kept, Err(UpdateError::SnapHeld));
    assert_eq!(staged, vec![1, 2]);
}
