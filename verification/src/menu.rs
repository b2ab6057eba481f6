//! Menus over a state.
//!
//! One `Menu<W, R, P, E>` reads a `State<W, R>`. The layout and paint callbacks get `&R`,
//! read when they are called. The input callbacks take no state: they answer with an event
//! of type `E`, and hold no read borrow, so handling the event may update the very cell
//! that the menu reads. To read from two cells at once, a menu is fed a combined state.
use vstd::prelude::*;

use crate::graphics::GRect;
use crate::state::State;

verus! {

/// A handle to the menu that a callback is called for.
#[derive(Clone, Copy, Debug, PartialEq, Eq, Structural)]
pub struct MenuLayerRef {
    pub raw: usize,
}

/// A handle to the cell that a callback draws into.
#[derive(Clone, Copy, Debug, PartialEq, Eq, Structural)]
pub struct MenuCellLayer {
    pub raw: usize,
}

/// A position in a menu.
#[derive(Clone, Copy, Debug, PartialEq, Eq, Structural)]
pub struct MenuIndex {
    pub section: u16,
    pub row: u16,
}

/// Something that answers a question of the display about a menu.
pub trait Answer<R, I, O> {
    /// The question is one that can be answered.
    spec fn accepts(&self, menu: MenuLayerRef, state: R, input: I) -> bool;

    /// `output` may be the answer.
    spec fn yields(&self, menu: MenuLayerRef, state: R, input: I, output: O) -> bool;

    fn call(&self, menu: MenuLayerRef, state: &R, input: I) -> (output: O)
        requires
            self.accepts(menu, *state, input),
        ensures
            self.yields(menu, *state, input, output),
    ;
}

struct FnAnswer<F> {
    f: F,
}

impl<R, I, O, F: Fn(MenuLayerRef, &R, I) -> O> Answer<R, I, O> for FnAnswer<F> {
    closed spec fn accepts(&self, menu: MenuLayerRef, state: R, input: I) -> bool {
        call_requires(self.f, (menu, &state, input))
    }

    closed spec fn yields(&self, menu: MenuLayerRef, state: R, input: I, output: O) -> bool {
        call_ensures(self.f, (menu, &state, input), output)
    }

    fn call(&self, menu: MenuLayerRef, state: &R, input: I) -> (output: O) {
        (self.f)(menu, state, input)
    }
}

/// One callback of a menu: from the state and the input to an output.
#[verifier::reject_recursive_types(R)]
#[verifier::reject_recursive_types(I)]
#[verifier::reject_recursive_types(O)]
pub struct Callback<R, I, O> {
    answer: Box<dyn Answer<R, I, O>>,
}

impl<R, I, O> Callback<R, I, O> {
    /// The callback is defined on this call.
    pub closed spec fn accepts(&self, menu: MenuLayerRef, state: R, input: I) -> bool {
        self.answer.accepts(menu, state, input)
    }

    /// The callback may return `output` from this call.
    pub closed spec fn yields(&self, menu: MenuLayerRef, state: R, input: I, output: O) -> bool {
        self.answer.yields(menu, state, input, output)
    }
}

impl<R: 'static, I: 'static, O: 'static> Callback<R, I, O> {
    /// A callback from a function.
    pub fn new<F: Fn(MenuLayerRef, &R, I) -> O + 'static>(f: F) -> (callback: Self)
        ensures
            forall|menu: MenuLayerRef, state: R, input: I| #[trigger]
                callback.accepts(menu, state, input) <==> call_requires(f, (menu, &state, input)),
            forall|menu: MenuLayerRef, state: R, input: I, output: O| #[trigger]
                callback.yields(menu, state, input, output) <==> call_ensures(
                    f,
                    (menu, &state, input),
                    output,
                ),
    {
        Callback { answer: Box::new(FnAnswer { f }) }
    }

    fn call(&self, menu: MenuLayerRef, state: &R, input: I) -> (output: O)
        requires
            self.accepts(menu, *state, input),
        ensures
            self.yields(menu, *state, input, output),
    {
        self.answer.call(menu, state, input)
    }
}

/// Callbacks for a menu. `P` is what a paint callback paints, and `E` the event that an
/// input callback answers with.
#[verifier::reject_recursive_types(R)]
#[verifier::reject_recursive_types(P)]
#[verifier::reject_recursive_types(E)]
pub struct MenuCallbacks<R, P, E> {
    pub get_num_sections: Option<Callback<R, (), u16>>,
    pub get_num_rows: Option<Callback<R, u16, u16>>,
    pub get_cell_height: Option<Callback<R, MenuIndex, i16>>,
    pub get_header_height: Option<Callback<R, u16, i16>>,
    pub get_separator_height: Option<Callback<R, MenuIndex, i16>>,
    pub draw_row: Option<Callback<R, (MenuCellLayer, MenuIndex), P>>,
    pub draw_header: Option<Callback<R, (MenuCellLayer, u16), P>>,
    pub draw_separator: Option<Callback<R, (MenuCellLayer, MenuIndex), P>>,
    pub draw_background: Option<Callback<R, (MenuCellLayer, bool), P>>,
    /// From the next and the current index to the index that is selected instead.
    pub selection_will_change: Option<Callback<R, (MenuIndex, MenuIndex), MenuIndex>>,
    pub select_click: Option<Callback<(), MenuIndex, E>>,
    pub select_long_click: Option<Callback<(), MenuIndex, E>>,
    /// The input is the old index and then the new one.
    pub selection_changed: Option<Callback<(), (MenuIndex, MenuIndex), E>>,
}

impl<R, P, E> Default for MenuCallbacks<R, P, E> {
    /// No callbacks.
    fn default() -> (callbacks: Self)
        ensures
            callbacks.get_num_sections is None,
            callbacks.get_num_rows is None,
            callbacks.get_cell_height is None,
            callbacks.get_header_height is None,
            callbacks.get_separator_height is None,
            callbacks.draw_row is None,
            callbacks.draw_header is None,
            callbacks.draw_separator is None,
            callbacks.draw_background is None,
            callbacks.selection_will_change is None,
            callbacks.select_click is None,
            callbacks.select_long_click is None,
            callbacks.selection_changed is None,
    {
        MenuCallbacks {
            get_num_sections: None,
            get_num_rows: None,
            get_cell_height: None,
            get_header_height: None,
            get_separator_height: None,
            draw_row: None,
            draw_header: None,
            draw_separator: None,
            draw_background: None,
            selection_will_change: None,
            select_click: None,
            select_long_click: None,
            selection_changed: None,
        }
    }
}

/// Which callbacks the display has to call. What is not registered is left to the
/// defaults of the display.
#[derive(Clone, Copy, Debug, PartialEq, Eq, Structural)]
pub struct Registered {
    pub get_num_sections: bool,
    pub get_num_rows: bool,
    pub get_cell_height: bool,
    pub get_header_height: bool,
    pub get_separator_height: bool,
    pub draw_row: bool,
    pub draw_header: bool,
    pub draw_separator: bool,
    pub draw_background: bool,
    pub selection_will_change: bool,
    pub select_click: bool,
    pub select_long_click: bool,
    pub selection_changed: bool,
}

impl<R, P, E> MenuCallbacks<R, P, E> {
    /// Which callbacks are there.
    pub open spec fn registered(&self) -> Registered {
        Registered {
            get_num_sections: self.get_num_sections is Some,
            get_num_rows: self.get_num_rows is Some,
            get_cell_height: self.get_cell_height is Some,
            get_header_height: self.get_header_height is Some,
            get_separator_height: self.get_separator_height is Some,
            draw_row: self.draw_row is Some,
            draw_header: self.draw_header is Some,
            draw_separator: self.draw_separator is Some,
            draw_background: self.draw_background is Some,
            selection_will_change: self.selection_will_change is Some,
            select_click: self.select_click is Some,
            select_long_click: self.select_long_click is Some,
            selection_changed: self.selection_changed is Some,
        }
    }
}

/// A menu over a state.
#[verifier::reject_recursive_types(W)]
#[verifier::reject_recursive_types(R)]
#[verifier::reject_recursive_types(P)]
#[verifier::reject_recursive_types(E)]
pub struct Menu<W, R, P, E> {
    frame: GRect,
    state: State<W, R>,
    cbs: MenuCallbacks<R, P, E>,
    registered: Registered,
}

/// The state can be read, and the callback is defined on whatever the read shows.
pub open spec fn answerable<W, R, I, O>(
    state: State<W, R>,
    callback: Callback<R, I, O>,
    menu: MenuLayerRef,
    input: I,
    pre: W,
) -> bool {
    &&& state.readable(pre)
    &&& forall|value: R, post: W| #[trigger]
        state.reads(pre, value, post) ==> callback.accepts(menu, value, input)
}

/// A read of the state in `pre` may show a value for which the callback returns `output`,
/// and leave `post`.
pub open spec fn answers<W, R, I, O>(
    state: State<W, R>,
    callback: Callback<R, I, O>,
    menu: MenuLayerRef,
    input: I,
    pre: W,
    output: O,
    post: W,
) -> bool {
    exists|value: R| #[trigger]
        state.reads(pre, value, post) && callback.yields(menu, value, input, output)
}

/// Read the state, then ask the callback.
fn ask<W: 'static, R: 'static, I: 'static, O: 'static>(
    state: &State<W, R>,
    callback: &Callback<R, I, O>,
    menu: MenuLayerRef,
    input: I,
    world: &mut W,
) -> (output: O)
    requires
        answerable(*state, *callback, menu, input, *old(world)),
    ensures
        answers(*state, *callback, menu, input, *old(world), output, *final(world)),
{
    let shown = state.read(world);
    callback.call(menu, shown.get(), input)
}

impl<W, R, P, E> Menu<W, R, P, E> {
    /// Where the menu is.
    pub closed spec fn own_bounds(&self) -> GRect {
        self.frame
    }

    /// The state that the menu reads.
    pub closed spec fn state(&self) -> State<W, R> {
        self.state
    }

    /// The callbacks of the menu.
    pub closed spec fn callbacks(&self) -> MenuCallbacks<R, P, E> {
        self.cbs
    }

    /// The display is told of exactly the callbacks that are there.
    pub closed spec fn well_formed(&self) -> bool {
        self.registered == self.cbs.registered()
    }
}

impl<W: 'static, R: 'static, P: 'static, E: 'static> Menu<W, R, P, E> {
    /// A menu in `frame` that reads `data`.
    pub fn new(frame: GRect, data: State<W, R>, cbs: MenuCallbacks<R, P, E>) -> (this: Self)
        ensures
            this.well_formed(),
            this.own_bounds() == frame,
            this.state() == data,
            this.callbacks() == cbs,
    {
        let registered = Registered {
            get_num_sections: cbs.get_num_sections.is_some(),
            get_num_rows: cbs.get_num_rows.is_some(),
            get_cell_height: cbs.get_cell_height.is_some(),
            get_header_height: cbs.get_header_height.is_some(),
            get_separator_height: cbs.get_separator_height.is_some(),
            draw_row: cbs.draw_row.is_some(),
            draw_header: cbs.draw_header.is_some(),
            draw_separator: cbs.draw_separator.is_some(),
            draw_background: cbs.draw_background.is_some(),
            selection_will_change: cbs.selection_will_change.is_some(),
            select_click: cbs.select_click.is_some(),
            select_long_click: cbs.select_long_click.is_some(),
            selection_changed: cbs.selection_changed.is_some(),
        };
        Menu { frame, state: data, cbs, registered }
    }

    /// Where the menu is.
    pub fn bounds(&self) -> (bounds: GRect)
        ensures
            bounds == self.own_bounds(),
    {
        self.frame
    }

    /// Which callbacks the display has to call.
    pub fn registered(&self) -> (registered: Registered)
        requires
            self.well_formed(),
        ensures
            registered == self.callbacks().registered(),
    {
        self.registered
    }

    /// The number of sections.
    pub fn num_sections(
        &self,
        world: &mut W,
        menu: MenuLayerRef,
    ) -> (output: u16)
        requires
            self.callbacks().get_num_sections is Some,
            answerable(
                self.state(),
                self.callbacks().get_num_sections->0,
                menu,
                (),
                *old(world),
            ),
        ensures
            answers(
                self.state(),
                self.callbacks().get_num_sections->0,
                menu,
                (),
                *old(world),
                output,
                *final(world),
            ),
    {
        ask(&self.state, self.cbs.get_num_sections.as_ref().unwrap(), menu, (), world)
    }

    /// The number of rows of a section.
    pub fn num_rows(
        &self,
        world: &mut W,
        menu: MenuLayerRef,
        section: u16,
    ) -> (output: u16)
        requires
            self.callbacks().get_num_rows is Some,
            answerable(
                self.state(),
                self.callbacks().get_num_rows->0,
                menu,
                section,
                *old(world),
            ),
        ensures
            answers(
                self.state(),
                self.callbacks().get_num_rows->0,
                menu,
                section,
                *old(world),
                output,
                *final(world),
            ),
    {
        ask(&self.state, self.cbs.get_num_rows.as_ref().unwrap(), menu, section, world)
    }

    /// The height of a cell.
    pub fn cell_height(
        &self,
        world: &mut W,
        menu: MenuLayerRef,
        index: MenuIndex,
    ) -> (output: i16)
        requires
            self.callbacks().get_cell_height is Some,
            answerable(
                self.state(),
                self.callbacks().get_cell_height->0,
                menu,
                index,
                *old(world),
            ),
        ensures
            answers(
                self.state(),
                self.callbacks().get_cell_height->0,
                menu,
                index,
                *old(world),
                output,
                *final(world),
            ),
    {
        ask(&self.state, self.cbs.get_cell_height.as_ref().unwrap(), menu, index, world)
    }

    /// The height of the header of a section.
    pub fn header_height(
        &self,
        world: &mut W,
        menu: MenuLayerRef,
        section: u16,
    ) -> (output: i16)
        requires
            self.callbacks().get_header_height is Some,
            answerable(
                self.state(),
                self.callbacks().get_header_height->0,
                menu,
                section,
                *old(world),
            ),
        ensures
            answers(
                self.state(),
                self.callbacks().get_header_height->0,
                menu,
                section,
                *old(world),
                output,
                *final(world),
            ),
    {
        ask(&self.state, self.cbs.get_header_height.as_ref().unwrap(), menu, section, world)
    }

    /// The height of the separator below a cell.
    pub fn separator_height(
        &self,
        world: &mut W,
        menu: MenuLayerRef,
        index: MenuIndex,
    ) -> (output: i16)
        requires
            self.callbacks().get_separator_height is Some,
            answerable(
                self.state(),
                self.callbacks().get_separator_height->0,
                menu,
                index,
                *old(world),
            ),
        ensures
            answers(
                self.state(),
                self.callbacks().get_separator_height->0,
                menu,
                index,
                *old(world),
                output,
                *final(world),
            ),
    {
        ask(&self.state, self.cbs.get_separator_height.as_ref().unwrap(), menu, index, world)
    }

    /// Paint a row.
    pub fn draw_row(
        &self,
        world: &mut W,
        menu: MenuLayerRef,
        cell: MenuCellLayer,
        index: MenuIndex,
    ) -> (output: P)
        requires
            self.callbacks().draw_row is Some,
            answerable(
                self.state(),
                self.callbacks().draw_row->0,
                menu,
                (cell, index),
                *old(world),
            ),
        ensures
            answers(
                self.state(),
                self.callbacks().draw_row->0,
                menu,
                (cell, index),
                *old(world),
                output,
                *final(world),
            ),
    {
        ask(&self.state, self.cbs.draw_row.as_ref().unwrap(), menu, (cell, index), world)
    }

    /// Paint the header of a section.
    pub fn draw_header(
        &self,
        world: &mut W,
        menu: MenuLayerRef,
        cell: MenuCellLayer,
        section: u16,
    ) -> (output: P)
        requires
            self.callbacks().draw_header is Some,
            answerable(
                self.state(),
                self.callbacks().draw_header->0,
                menu,
                (cell, section),
                *old(world),
            ),
        ensures
            answers(
                self.state(),
                self.callbacks().draw_header->0,
                menu,
                (cell, section),
                *old(world),
                output,
                *final(world),
            ),
    {
        ask(&self.state, self.cbs.draw_header.as_ref().unwrap(), menu, (cell, section), world)
    }

    /// Paint the separator below a cell.
    pub fn draw_separator(
        &self,
        world: &mut W,
        menu: MenuLayerRef,
        cell: MenuCellLayer,
        index: MenuIndex,
    ) -> (output: P)
        requires
            self.callbacks().draw_separator is Some,
            answerable(
                self.state(),
                self.callbacks().draw_separator->0,
                menu,
                (cell, index),
                *old(world),
            ),
        ensures
            answers(
                self.state(),
                self.callbacks().draw_separator->0,
                menu,
                (cell, index),
                *old(world),
                output,
                *final(world),
            ),
    {
        ask(&self.state, self.cbs.draw_separator.as_ref().unwrap(), menu, (cell, index), world)
    }

    /// Paint the background of a cell.
    pub fn draw_background(
        &self,
        world: &mut W,
        menu: MenuLayerRef,
        cell: MenuCellLayer,
        highlighted: bool,
    ) -> (output: P)
        requires
            self.callbacks().draw_background is Some,
            answerable(
                self.state(),
                self.callbacks().draw_background->0,
                menu,
                (cell, highlighted),
                *old(world),
            ),
        ensures
            answers(
                self.state(),
                self.callbacks().draw_background->0,
                menu,
                (cell, highlighted),
                *old(world),
                output,
                *final(world),
            ),
    {
        ask(&self.state, self.cbs.draw_background.as_ref().unwrap(), menu, (cell, highlighted), world)
    }

    /// The selection is about to move from `current` to `next`: the index that is selected
    /// instead.
    pub fn selection_will_change(
        &self,
        world: &mut W,
        menu: MenuLayerRef,
        next: MenuIndex,
        current: MenuIndex,
    ) -> (output: MenuIndex)
        requires
            self.callbacks().selection_will_change is Some,
            answerable(
                self.state(),
                self.callbacks().selection_will_change->0,
                menu,
                (next, current),
                *old(world),
            ),
        ensures
            answers(
                self.state(),
                self.callbacks().selection_will_change->0,
                menu,
                (next, current),
                *old(world),
                output,
                *final(world),
            ),
    {
        ask(&self.state, self.cbs.selection_will_change.as_ref().unwrap(), menu, (next, current), world)
    }

    /// A cell was clicked.
    pub fn select_click(
        &self,
        menu: MenuLayerRef,
        index: MenuIndex,
    ) -> (event: E)
        requires
            self.callbacks().select_click is Some,
            self.callbacks().select_click->0.accepts(menu, (), index),
        ensures
            self.callbacks().select_click->0.yields(menu, (), index, event),
    {
        self.cbs.select_click.as_ref().unwrap().call(menu, &(), index)
    }

    /// A cell was clicked and held.
    pub fn select_long_click(
        &self,
        menu: MenuLayerRef,
        index: MenuIndex,
    ) -> (event: E)
        requires
            self.callbacks().select_long_click is Some,
            self.callbacks().select_long_click->0.accepts(menu, (), index),
        ensures
            self.callbacks().select_long_click->0.yields(menu, (), index, event),
    {
        self.cbs.select_long_click.as_ref().unwrap().call(menu, &(), index)
    }

    /// The selection moved. The display names the new index first; the callback gets the old
    /// one first.
    pub fn selection_changed(
        &self,
        menu: MenuLayerRef,
        new_index: MenuIndex,
        old_index: MenuIndex,
    ) -> (event: E)
        requires
            self.callbacks().selection_changed is Some,
            self.callbacks().selection_changed->0.accepts(menu, (), (old_index, new_index)),
        ensures
            self.callbacks().selection_changed->0.yields(menu, (), (old_index, new_index), event),
    {
        self.cbs.selection_changed.as_ref().unwrap().call(menu, &(), (old_index, new_index))
    }
}

} // verus!
