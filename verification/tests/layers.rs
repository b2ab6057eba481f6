use std::rc::Rc;

use taconite::graphics::{
    DrawOp, GAlign, GColor, GCornerMask, GFont, GPoint, GRect, GSize, GTextAlignment, GTextOverflowMode, Layer,
    ShownText, TextBuf, TextLiteral,
};
use taconite::indicator::{ContentIndicatorDirection, IndicatorConfig, IndicatorStep};
use taconite::animation::{AnimatedState, Tweens};
use taconite::layer::{ContentIndicatorLayer, Draw, DrawIn, Menu, MenuCallbacks, Text};
use taconite::menu::{Callback, MenuCellLayer, MenuIndex, MenuLayerRef, Registered};
use taconite::snap::Snap;
use taconite::state::State;
use taconite::store::{MutableState, Repaint, Store, UpdateError};

const LAYER: Layer = Layer { raw: 11 };
const MENU: MenuLayerRef = MenuLayerRef { raw: 5 };
const CELL: MenuCellLayer = MenuCellLayer { raw: 6 };
const FRAME: GRect = GRect { origin: GPoint { x: 0, y: 16 }, size: GSize { w: 144, h: 152 } };

fn text(s: &str) -> TextBuf {
    TextBuf::new(s.as_bytes().to_vec()).unwrap()
}

fn painted(ops: &[DrawOp]) -> String {
    for op in ops {
        if let DrawOp::DrawText { text, .. } = op {
            return String::from_utf8(text.bytes().to_vec()).unwrap();
        }
    }
    panic!("no text")
}

#[test]
fn a_drawn_layer_paints_the_current_value() {
    let mut store = Store::new();
    let cell = MutableState::new(&mut store, 3, Repaint::View(1));
    let bounds = GRect::new(1, 2, 30, 40);
    let draw = Draw::new(LAYER, bounds, cell.as_state(), |x: &i32, frame: GRect| (*x, frame.size.w));
    assert_eq!(draw.bounds(), bounds);
    assert_eq!(draw.render(), Repaint::Layer(LAYER));
    let frame = GRect::new(0, 0, 20, 20);
    assert_eq!(draw.paint(&mut store, frame), (3, 20));
    assert!(cell.update(&mut store, |x| *x = 4).is_ok());
    assert_eq!(draw.paint(&mut store, frame), (4, 20));
}

#[test]
fn an_unwanted_state_is_not_read() {
    let mut store: Store<Option<i32>> = Store::new();
    let target = MutableState::new(&mut store, None, Repaint::View(1));
    let mut tweens = Tweens::new();
    let angle = AnimatedState::for_layer(
        target.map(|t: &Snap<Option<i32>>| t.get().unwrap_or(0)),
        &mut tweens,
        LAYER,
    );
    let frame = GRect::new(0, 0, 20, 20);
    let wheel = Draw::gated(
        LAYER,
        frame,
        target.as_state().in_first::<Tweens<i32>>(),
        |t: &Option<i32>| t.is_some(),
        angle.as_state(),
        |_: &Option<i32>, angle: Option<&i32>, _: GRect| angle.copied(),
    );
    let mut world = (store, tweens);
    assert_eq!(wheel.paint(&mut world, frame), None);
    // The placeholder was not read, so the first real value shows at once.
    assert!(target.update(&mut world.0, |t| *t = Some(90)).is_ok());
    assert_eq!(wheel.paint(&mut world, frame), Some(90));
    assert!(world.1.take_starts().is_empty());
    assert!(target.update(&mut world.0, |t| *t = Some(180)).is_ok());
    assert_eq!(wheel.paint(&mut world, frame), Some(90));
    assert_eq!(world.1.take_starts().len(), 1);
}

struct CountingPainter {
    same: MutableState<i32>,
    other: MutableState<i32>,
}

impl DrawIn<Store<i32>, i32, Result<(), UpdateError>> for CountingPainter {
    fn accepts(&self, _: i32, _: GRect, _: Store<i32>) -> bool {
        true
    }

    fn draws(&self, _: i32, _: GRect, _: Store<i32>, _: Result<(), UpdateError>, _: Store<i32>) -> bool {
        true
    }

    fn draw(&self, world: &mut Store<i32>, value: &i32, _: GRect) -> Result<(), UpdateError> {
        assert_eq!(self.other.update(world, |n| *n += *value), Ok(()));
        self.same.update(world, |n| *n = 0)
    }
}

#[test]
fn a_painter_may_update_other_cells_only() {
    let mut store = Store::new();
    let same = MutableState::new(&mut store, 5, Repaint::View(1));
    let other = MutableState::new(&mut store, 0, Repaint::View(1));
    let frame = GRect::new(0, 0, 20, 20);
    let views = [
        (same.as_state(), UpdateError::DuringRender),
        (same.focus(|n: &i32| n), UpdateError::DuringRender),
        (same.map(|n: &Snap<i32>| *n.get()), UpdateError::SnapHeld),
        (same.map(|n: &Snap<i32>| (*n.get(), 0)).focus(|p: &(i32, i32)| &p.0), UpdateError::SnapHeld),
        (
            State::combine(&same.as_state(), &State::fixed(0), |n: &Snap<i32>, m: &Snap<i32>| *n.get() + *m.get()),
            UpdateError::SnapHeld,
        ),
    ];
    for (data, refusal) in views {
        let painter = CountingPainter { same: same.clone(), other: other.clone() };
        let draw = Draw::in_world(LAYER, frame, data, painter);
        assert_eq!(draw.bounds(), frame);
        assert_eq!(draw.paint(&mut store, frame), Err(refusal));
        assert_eq!(draw.paint(&mut store, frame), Err(refusal));
    }
    assert_eq!(same.with(&store, |n| *n), 5);
    assert_eq!(other.with(&store, |n| *n), 50);
    // Nothing is held once the painters are done.
    assert_eq!(same.update(&mut store, |n| *n = 6), Ok(()));
}

#[test]
fn a_text_holds_no_zero() {
    assert!(TextBuf::new(b"a\0b".to_vec()).is_none());
    assert!(TextBuf::new(b"ab\0".to_vec()).is_none());
    assert_eq!(TextBuf::new(Vec::new()).unwrap().bytes(), b"");
    assert_eq!(TextBuf::new(b"ab".to_vec()).unwrap().bytes(), b"ab");
    assert!(TextLiteral::new(b"\0").is_none());
    assert_eq!(TextLiteral::new(b"ab").unwrap().bytes(), b"ab");
}

#[test]
fn a_literal_is_painted_where_it_is() {
    let mut world = ();
    let frame = GRect::new(0, 0, 100, 20);
    let title = TextLiteral::new(b"hello").unwrap();
    let layer: Text<()> = Text::new(LAYER, frame, title);
    let ops = layer.paint(&mut world, frame);
    match &ops[1] {
        DrawOp::DrawText { text, .. } => assert!(matches!(text, ShownText::Literal(b) if b.bytes() == title.bytes())),
        _ => panic!("not a text"),
    }
}

#[test]
fn a_text_is_painted_plain_at_first() {
    let mut world = ();
    let frame = GRect::new(0, 0, 100, 20);
    let title = TextLiteral::new(b"hello").unwrap();
    let layer: Text<()> = Text::new(LAYER, frame, title);
    assert_eq!(layer.bounds(), frame);
    let ops = layer.paint(&mut world, frame);
    assert_eq!(ops.len(), 2);
    assert!(matches!(ops[0], DrawOp::SetTextColor(GColor::Black)));
    match &ops[1] {
        DrawOp::DrawText { text, font, frame: at, overflow, alignment } => {
            assert_eq!(text.bytes(), b"hello");
            assert_eq!(*font, GFont::Gothic24);
            assert_eq!(*at, frame);
            assert_eq!(*overflow, GTextOverflowMode::TrailingEllipsis);
            assert_eq!(*alignment, GTextAlignment::Left);
        }
        _ => panic!("not a text"),
    }
}

#[test]
fn a_text_follows_its_style() {
    let mut world = ();
    let frame = GRect::new(0, 0, 100, 20);
    let mut layer: Text<()> = Text::new(LAYER, frame, Snap::whole(Rc::new(text("x"))));
    let asked = [
        layer.render(),
        layer.set_font(GFont::Loaded(9)),
        layer.set_text_color(GColor::White),
        layer.set_background_color(GColor::Argb(0xC3)),
        layer.set_text_alignment(GTextAlignment::Right),
        layer.set_overflow(GTextOverflowMode::Fill),
    ];
    assert_eq!(asked, [Repaint::Layer(LAYER); 6]);
    let ops = layer.paint(&mut world, frame);
    assert_eq!(ops.len(), 4);
    assert!(matches!(ops[0], DrawOp::SetFillColor(GColor::Argb(0xC3))));
    assert!(matches!(ops[1], DrawOp::FillRect(at, 0, GCornerMask::GCornerNone) if at == frame));
    assert!(matches!(ops[2], DrawOp::SetTextColor(GColor::White)));
    match &ops[3] {
        DrawOp::DrawText { text, font, overflow, alignment, .. } => {
            assert_eq!(text.bytes(), b"x");
            assert_eq!(*font, GFont::Loaded(9));
            assert_eq!(*overflow, GTextOverflowMode::Fill);
            assert_eq!(*alignment, GTextAlignment::Right);
        }
        _ => panic!("not a text"),
    }
}

#[test]
fn a_text_over_a_cell_paints_the_current_text() {
    let frame = GRect::new(0, 0, 100, 20);
    let mut store = Store::new();
    let cell = MutableState::new(&mut store, (text("one"), 1), Repaint::View(1));
    let whole = Text::new(LAYER, frame, cell.focus(|p: &(TextBuf, i32)| &p.0));
    let snapped = Text::new(
        LAYER,
        frame,
        cell.map(|p: &Snap<(TextBuf, i32)>| p.focus(|p: &(TextBuf, i32)| &p.0)),
    );
    assert_eq!(painted(&whole.paint(&mut store, frame)), "one");
    assert_eq!(painted(&snapped.paint(&mut store, frame)), "one");
    assert!(cell.update(&mut store, |p| p.0 = text("two")).is_ok());
    assert_eq!(painted(&whole.paint(&mut store, frame)), "two");
    assert_eq!(painted(&snapped.paint(&mut store, frame)), "two");
}

fn index(section: u16, row: u16) -> MenuIndex {
    MenuIndex { section, row }
}

#[test]
fn a_menu_without_callbacks_registers_none() {
    let menu: Menu<(), u8, (), ()> = Menu::new(FRAME, State::fixed(0), MenuCallbacks::default());
    let none = Registered {
        get_num_sections: false,
        get_num_rows: false,
        get_cell_height: false,
        get_header_height: false,
        get_separator_height: false,
        draw_row: false,
        draw_header: false,
        draw_separator: false,
        draw_background: false,
        selection_will_change: false,
        select_click: false,
        select_long_click: false,
        selection_changed: false,
    };
    assert_eq!(menu.registered(), none);
    assert_eq!(menu.bounds(), FRAME);
    let mut cbs: MenuCallbacks<u8, (), ()> = MenuCallbacks::default();
    cbs.get_num_rows = Some(Callback::new(|_: MenuLayerRef, _: &u8, _: u16| 1));
    cbs.select_click = Some(Callback::new(|_: MenuLayerRef, _: &(), _: MenuIndex| ()));
    let menu: Menu<(), u8, (), ()> = Menu::new(FRAME, State::fixed(0), cbs);
    assert_eq!(menu.registered(), Registered { get_num_rows: true, select_click: true, ..none });
}

#[test]
fn a_menu_answers_from_the_current_value() {
    let mut store = Store::new();
    let rows = MutableState::new(&mut store, vec![10i16, 20], Repaint::View(1));
    let cbs: MenuCallbacks<Vec<i16>, String, ()> = MenuCallbacks {
        get_num_sections: Some(Callback::new(|_: MenuLayerRef, _: &Vec<i16>, _: ()| 1)),
        get_num_rows: Some(Callback::new(|_: MenuLayerRef, v: &Vec<i16>, _: u16| v.len() as u16)),
        get_cell_height: Some(Callback::new(|_: MenuLayerRef, v: &Vec<i16>, i: MenuIndex| v[i.row as usize])),
        get_header_height: Some(Callback::new(|_: MenuLayerRef, _: &Vec<i16>, s: u16| 16 + s as i16)),
        get_separator_height: Some(Callback::new(|_: MenuLayerRef, _: &Vec<i16>, i: MenuIndex| i.row as i16)),
        draw_row: Some(Callback::new(|_: MenuLayerRef, v: &Vec<i16>, (c, i): (MenuCellLayer, MenuIndex)| {
            format!("row {} of {} in {}", i.row, v.len(), c.raw)
        })),
        draw_header: Some(Callback::new(|_: MenuLayerRef, _: &Vec<i16>, (_, s): (MenuCellLayer, u16)| {
            format!("header {}", s)
        })),
        draw_separator: Some(Callback::new(|_: MenuLayerRef, _: &Vec<i16>, (_, i): (MenuCellLayer, MenuIndex)| {
            format!("below {}", i.row)
        })),
        draw_background: Some(Callback::new(|m: MenuLayerRef, _: &Vec<i16>, (_, lit): (MenuCellLayer, bool)| {
            format!("{} {}", m.raw, lit)
        })),
        selection_will_change: Some(Callback::new(
            |_: MenuLayerRef, v: &Vec<i16>, (next, current): (MenuIndex, MenuIndex)| {
                if (next.row as usize) < v.len() { next } else { current }
            },
        )),
        ..MenuCallbacks::default()
    };
    let menu = Menu::new(FRAME, rows.as_state(), cbs);
    assert_eq!(menu.num_sections(&mut store, MENU), 1);
    assert_eq!(menu.num_rows(&mut store, MENU, 0), 2);
    assert!(rows.update(&mut store, |v| v.push(30)).is_ok());
    assert_eq!(menu.num_rows(&mut store, MENU, 0), 3);
    assert_eq!(menu.cell_height(&mut store, MENU, index(0, 2)), 30);
    assert_eq!(menu.header_height(&mut store, MENU, 4), 20);
    assert_eq!(menu.separator_height(&mut store, MENU, index(0, 1)), 1);
    assert_eq!(menu.draw_row(&mut store, MENU, CELL, index(0, 1)), "row 1 of 3 in 6");
    assert_eq!(menu.draw_header(&mut store, MENU, CELL, 7), "header 7");
    assert_eq!(menu.draw_separator(&mut store, MENU, CELL, index(0, 2)), "below 2");
    assert_eq!(menu.draw_background(&mut store, MENU, CELL, true), "5 true");
    assert_eq!(menu.selection_will_change(&mut store, MENU, index(0, 2), index(0, 1)), index(0, 2));
    assert_eq!(menu.selection_will_change(&mut store, MENU, index(0, 3), index(0, 1)), index(0, 1));
}

#[test]
fn menu_input_gets_the_old_index_first() {
    let mut cbs: MenuCallbacks<(), (), (u16, u16)> = MenuCallbacks::default();
    cbs.select_click = Some(Callback::new(|_: MenuLayerRef, _: &(), i: MenuIndex| (i.section, i.row)));
    cbs.select_long_click = Some(Callback::new(|_: MenuLayerRef, _: &(), i: MenuIndex| (i.row, i.section)));
    cbs.selection_changed = Some(Callback::new(
        |_: MenuLayerRef, _: &(), (old, new): (MenuIndex, MenuIndex)| (old.row, new.row),
    ));
    let menu: Menu<(), (), (), (u16, u16)> = Menu::new(FRAME, State::fixed(()), cbs);
    assert_eq!(menu.select_click(MENU, index(1, 2)), (1, 2));
    assert_eq!(menu.select_long_click(MENU, index(1, 2)), (2, 1));
    assert_eq!(menu.selection_changed(MENU, index(0, 8), index(0, 7)), (7, 8));
}

#[test]
fn handling_a_click_may_update_the_cell_of_the_menu() {
    let mut store = Store::new();
    let rows = MutableState::new(&mut store, 1u16, Repaint::View(1));
    let mut cbs: MenuCallbacks<u16, (), u16> = MenuCallbacks::default();
    cbs.get_num_rows = Some(Callback::new(|_: MenuLayerRef, n: &u16, _: u16| *n));
    cbs.select_click = Some(Callback::new(|_: MenuLayerRef, _: &(), i: MenuIndex| i.row + 10));
    let menu = Menu::new(FRAME, rows.as_state(), cbs);
    let event = menu.select_click(MENU, index(0, 3));
    assert_eq!(rows.update(&mut store, |n| *n = event), Ok(()));
    assert_eq!(menu.num_rows(&mut store, MENU, 0), 13);
}

#[test]
fn an_indicator_builds_two_strips() {
    let mut store = Store::new();
    let up = MutableState::new(&mut store, false, Repaint::View(1));
    let down = MutableState::new(&mut store, true, Repaint::View(1));
    let bounds = GRect::new(0, 0, 144, 168);
    let (layer, steps) =
        ContentIndicatorLayer::new(&mut store, bounds, up.as_state(), down.as_state());
    let arrow = |direction: ContentIndicatorDirection| {
        IndicatorStep::Configure(IndicatorConfig {
            direction,
            times_out: false,
            alignment: GAlign::Center,
            foreground: GColor::Black,
            background: GColor::Clear,
        })
    };
    assert_eq!(
        steps,
        vec![
            IndicatorStep::CreateRoot(bounds),
            IndicatorStep::CreateHost(ContentIndicatorDirection::Up, GRect::new(0, 0, 144, 18)),
            IndicatorStep::CreateHost(ContentIndicatorDirection::Down, GRect::new(0, 150, 144, 18)),
            IndicatorStep::AddHost(ContentIndicatorDirection::Up),
            IndicatorStep::AddHost(ContentIndicatorDirection::Down),
            IndicatorStep::CreateIndicator,
            arrow(ContentIndicatorDirection::Up),
            arrow(ContentIndicatorDirection::Down),
            IndicatorStep::SetContentAvailable(ContentIndicatorDirection::Up, false),
            IndicatorStep::SetContentAvailable(ContentIndicatorDirection::Down, true),
        ]
    );
    assert!(up.update(&mut store, |x| *x = true).is_ok());
    assert_eq!(
        layer.render(&mut store),
        vec![
            IndicatorStep::SetContentAvailable(ContentIndicatorDirection::Up, true),
            IndicatorStep::SetContentAvailable(ContentIndicatorDirection::Down, true),
        ]
    );
}
