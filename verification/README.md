# Taconite

A reactive screen framework for Pebble apps, with its rules stated as contracts and proved
with Verus.

Data flows one way: a writable cell, derived read-only views, layers. A layer reads what it
needs when it is painted and never owns a copy. An update mutates the cell and asks for a
repaint; the next paint pulls everything fresh through the read chain.

## Layout

- `src/` is the verified library. It touches neither the display nor the phone: what they
  have to do is handed back as plain values.
  - `cell`: values with a run-time borrow counter.
  - `snap`: zero-copy pointers into immutable snapshots.
  - `state`: read-only handles (`fixed`, `focus`, `map`, `combine`), and what a read means.
  - `store`: the cells, the writable handle `MutableState`, updates and their refusal.
  - `animation`: values that chase a source, and loops that run while they are read.
  - `graphics`, `layer`, `menu`, `indicator`: layers that read states, and what they paint.
  - `message`: reserved message keys, paged lists, outgoing messages.
  - `screen`: contexts, staged commits, the router, the window lifecycle.
  - `laws`: what holds of the library as a whole.
- `tests/` runs the library.
- `app/` is the library on a watch: windows, messages, animations and painting through
  `pebble-rust`.

## Worlds

A read is handed the world in which the values live. The cells of one type live in a
`Store`, the books of animated values in `Tweens`, those of loops in `Loops`; a pair of
worlds is a world, and `State::in_first` and `State::in_second` lift a handle into one. The
contract of a read relates the world before it, the value that it shows, and the world after
it.

A scoped read (`State::read`, `State::with`) borrows what is there: through lenses it
allocates nothing. A snapshot outlives the read and pins the value, so the cell cannot be
updated while one is held. A painter that needs more than one value gets the world
(`Draw::in_world`); `Draw::gated` reads a second state only for values that want it. While
either paints, what it paints from is held: a cell stays borrowed, and a snapshot that a
value was built from stays alive, so the painter cannot update it.

## What is trusted

One function: `unique_mut` in `store`, around `Rc::get_mut`. Whether a snapshot is held
elsewhere is not visible in the value of an `Rc`, so its contract leaves open which of its
two answers comes back, and the contracts of updates and commits say what holds either way.
