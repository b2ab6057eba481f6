//! Layers, menus and indicators.
use vstd::prelude::*;

use crate::graphics::{
    DrawOp, GAlign, GColor, GCornerMask, GFont, GRect, GTextAlignment, GTextOverflowMode, Layer,
    ShownText, TextBuf, TextLiteral,
};
use crate::indicator::{
    both_read, building, showing, ContentIndicatorDirection, ContentIndicatorLayer, IndicatorStep,
};
use crate::layer::{gate_draws, Draw, DrawIn, Text, TextContent};
use crate::menu::{
    Callback, Menu, MenuCallbacks, MenuCellLayer, MenuIndex, MenuLayerRef, Registered,
};
use crate::snap::Snap;
use crate::state::{Shown, State};
use crate::store::Repaint;

verus! {

// ── Rectangles and texts ────────────────────────────────────────────────────────

/// A rectangle lies where it is put and is as large as it is made.
pub proof fn law_new_rect(x: i16, y: i16, w: i16, h: i16, rect: GRect)
    requires
        call_ensures(GRect::new, (x, y, w, h), rect),
    ensures
        rect.origin.x == x,
        rect.origin.y == y,
        rect.size.w == w,
        rect.size.h == h,
{
}

/// A text is made of any bytes without a zero, and of no others, and gives these bytes back.
pub proof fn law_new_text(
    owned: Vec<u8>,
    made: Option<TextBuf>,
    text: TextBuf,
    bytes: &[u8],
    given: &'static [u8],
    written: Option<TextLiteral>,
    literal: TextLiteral,
    own: &'static [u8],
)
    requires
        call_ensures(TextBuf::new, (owned,), made),
        made == Some(text) ==> call_ensures(TextBuf::bytes, (&text,), bytes),
        call_ensures(TextLiteral::new, (given,), written),
        written == Some(literal) ==> call_ensures(TextLiteral::bytes, (&literal,), own),
    ensures
        made is Some <==> forall|i: int| 0 <= i < owned@.len() ==> #[trigger] owned@[i] != 0,
        made == Some(text) ==> bytes@ == owned@,
        written is Some <==> forall|i: int| 0 <= i < given@.len() ==> #[trigger] given@[i] != 0,
        written == Some(literal) ==> own@ == given@,
{
}

/// A shown text gives the bytes of what it shows: of the literal, of the text that is there,
/// of the one that was built, or of one that the snapshot shows. None of them is zero.
pub proof fn law_shown_text<'a>(shown: ShownText<'a>, bytes: &[u8])
    requires
        call_ensures(ShownText::<'a>::bytes, (&shown,), bytes),
    ensures
        shown matches ShownText::Literal(literal) ==> bytes@ == literal@,
        shown matches ShownText::Read(Shown::Here(text)) ==> bytes@ == text@,
        shown matches ShownText::Read(Shown::Built(text)) ==> bytes@ == text@,
        shown matches ShownText::Read(Shown::Part(snap)) ==> exists|text: TextBuf| #[trigger]
            snap.points_to(&text) && bytes@ == text@,
        forall|i: int| 0 <= i < bytes@.len() ==> #[trigger] bytes@[i] != 0,
{
    if let ShownText::Read(read) = shown {
        let text = choose|text: TextBuf| #[trigger] read.points_to(&text) && text@ == bytes@;
        if let Shown::Part(snap) = read {
            assert(snap.points_to(&text));
        }
    }
}

// ── Draw ────────────────────────────────────────────────────────────────────────

/// A layer that draws from a state: each paint reads the state once, hands what it shows and
/// the frame to `draw`, and gives back the picture. It has the bounds that it was given and
/// asks for its own layer. It can be painted wherever the state can be read, if `draw` takes
/// every value.
pub proof fn law_draw<W: 'static, P: 'static, T: 'static, F: Fn(&T, GRect) -> P + 'static>(
    layer: Layer,
    bounds: GRect,
    data: State<W, T>,
    draw: F,
    this: Draw<W, P>,
    its_bounds: GRect,
    repaint: Repaint,
    world: &mut W,
    frame: GRect,
    picture: P,
    other: &mut W,
)
    requires
        call_ensures(Draw::<W, P>::new::<T, F>, (layer, bounds, data, draw), this),
        call_ensures(Draw::<W, P>::bounds, (&this,), its_bounds),
        call_ensures(Draw::<W, P>::render, (&this,), repaint),
        call_ensures(Draw::<W, P>::paint, (&this, world, frame), picture),
    ensures
        its_bounds == bounds,
        repaint == Repaint::Layer(layer),
        exists|value: T| #[trigger]
            data.reads(*old(world), value, *final(world)) && call_ensures(
                draw,
                (&value, frame),
                picture,
            ),
        data.readable(*old(other)) && (forall|value: T| #[trigger]
            call_requires(draw, (&value, frame))) ==> call_requires(
            Draw::<W, P>::paint,
            (&this, other, frame),
        ),
{
}

/// A layer whose painter has the world at hand: each paint holds the state, hands what is
/// held to the painter in the world in which it is held, and releases it after that. It can
/// be painted wherever the state can be held, if the painter takes whatever it is given and
/// the state can be released anywhere.
pub proof fn law_draw_in_world<W: 'static, P: 'static, T: 'static, D: DrawIn<W, T, P> + 'static>(
    layer: Layer,
    bounds: GRect,
    data: State<W, T>,
    painter: D,
    this: Draw<W, P>,
    its_bounds: GRect,
    repaint: Repaint,
    world: &mut W,
    frame: GRect,
    picture: P,
    other: &mut W,
)
    requires
        call_ensures(Draw::<W, P>::in_world::<T, D>, (layer, bounds, data, painter), this),
        call_ensures(Draw::<W, P>::bounds, (&this,), its_bounds),
        call_ensures(Draw::<W, P>::render, (&this,), repaint),
        call_ensures(Draw::<W, P>::paint, (&this, world, frame), picture),
    ensures
        its_bounds == bounds,
        repaint == Repaint::Layer(layer),
        exists|value: T, mid: W, after: W|
            #![trigger data.holds(*old(world), value, mid), painter.draws(value, frame, mid, picture, after)]
            data.holds(*old(world), value, mid) && painter.draws(
                value,
                frame,
                mid,
                picture,
                after,
            ) && data.releases(after, *final(world)),
        data.can_hold(*old(other)) && (forall|value: T, mid: W| #[trigger]
            painter.accepts(value, frame, mid)) && (forall|after: W| #[trigger]
            data.can_release(after)) ==> call_requires(
            Draw::<W, P>::paint,
            (&this, other, frame),
        ),
{
}

/// A layer that reads a second state only for values that want it: where the value does not
/// want it, the world in which the value is held is not touched while it is drawn.
pub proof fn law_draw_gated<
    W: 'static,
    P: 'static,
    T: 'static,
    U: 'static,
    G: Fn(&T) -> bool + 'static,
    F: Fn(&T, Option<&U>, GRect) -> P + 'static,
>(
    layer: Layer,
    bounds: GRect,
    data: State<W, T>,
    wants: G,
    extra: State<W, U>,
    draw: F,
    this: Draw<W, P>,
    its_bounds: GRect,
    repaint: Repaint,
    world: &mut W,
    frame: GRect,
    picture: P,
    other: &mut W,
)
    requires
        call_ensures(
            Draw::<W, P>::gated::<T, U, G, F>,
            (layer, bounds, data, wants, extra, draw),
            this,
        ),
        call_ensures(Draw::<W, P>::bounds, (&this,), its_bounds),
        call_ensures(Draw::<W, P>::render, (&this,), repaint),
        call_ensures(Draw::<W, P>::paint, (&this, world, frame), picture),
    ensures
        its_bounds == bounds,
        repaint == Repaint::Layer(layer),
        exists|value: T, mid: W, after: W|
            #![trigger data.holds(*old(world), value, mid), data.releases(after, *final(world))]
            {
                &&& data.holds(*old(world), value, mid)
                &&& data.releases(after, *final(world))
                &&& (call_ensures(wants, (&value,), false) && after == mid && call_ensures(
                    draw,
                    (&value, None, frame),
                    picture,
                )) || (call_ensures(wants, (&value,), true) && exists|u: U| #[trigger]
                    extra.reads(mid, u, after) && call_ensures(
                        draw,
                        (&value, Some(&u), frame),
                        picture,
                    ))
            },
        data.can_hold(*old(other)) && (forall|value: T| #[trigger] call_requires(wants, (&value,)))
            && (forall|value: T, u: Option<&U>| #[trigger] call_requires(draw, (&value, u, frame)))
            && (forall|mid: W| #[trigger] extra.readable(mid)) && (forall|after: W| #[trigger]
            data.can_release(after)) ==> call_requires(
            Draw::<W, P>::paint,
            (&this, other, frame),
        ),
{
    let (value, mid, after) = choose|value: T, mid: W, after: W|
        #![trigger gate_draws(wants, extra, draw, value, frame, mid, picture, after), data.holds(*old(world), value, mid)]
        data.holds(*old(world), value, mid) && gate_draws(
            wants,
            extra,
            draw,
            value,
            frame,
            mid,
            picture,
            after,
        ) && data.releases(after, *final(world));
    assert(data.holds(*old(world), value, mid) && data.releases(after, *final(world)));
}

// ── Text ────────────────────────────────────────────────────────────────────────

/// The operations that fill the frame with a background, if there is one, and then draw a
/// text into it.
pub open spec fn draws_text<'a>(
    ops: Seq<DrawOp<'a>>,
    frame: GRect,
    background: Option<GColor>,
    color: GColor,
    text: ShownText<'a>,
    font: GFont,
    overflow: GTextOverflowMode,
    alignment: GTextAlignment,
) -> bool {
    let first: int = if background is Some {
        2
    } else {
        0
    };
    &&& ops.len() == first + 2
    &&& background matches Some(fill) ==> ops[0] == DrawOp::SetFillColor(fill) && ops[1]
        == DrawOp::FillRect(frame, 0, GCornerMask::GCornerNone)
    &&& ops[first] == DrawOp::SetTextColor(color)
    &&& ops[first + 1] == (DrawOp::DrawText { text, font, frame, overflow, alignment })
}

/// A new text layer has the bounds that it was given, asks for its own layer, and is plain:
/// Gothic 24, black, without a background, to the left, with an ellipsis. It can be painted
/// wherever its content can be read, and reads its content.
pub proof fn law_new_text_layer<W: 'static, C: TextContent<W> + 'static>(
    layer: Layer,
    bounds: GRect,
    content: C,
    this: Text<W>,
    its_bounds: GRect,
    repaint: Repaint,
    pre: W,
    bytes: Seq<u8>,
    post: W,
)
    requires
        call_ensures(Text::<W>::new::<C>, (layer, bounds, content), this),
        call_ensures(Text::<W>::bounds, (&this,), its_bounds),
        call_ensures(Text::<W>::render, (&this,), repaint),
    ensures
        its_bounds == bounds,
        repaint == Repaint::Layer(layer),
        this.style().font == GFont::Gothic24,
        this.style().text_color == GColor::Black,
        this.style().background_color is None,
        this.style().alignment == GTextAlignment::Left,
        this.style().overflow == GTextOverflowMode::TrailingEllipsis,
        this.readable(pre) <==> content.readable(pre),
        this.reads_text(pre, bytes, post) <==> content.reads_text(pre, bytes, post),
{
}

/// Painting a text layer gives exactly the operations of its style, with a text that its
/// content shows.
pub proof fn law_paint_text<'a, W: 'static>(
    this: &'a Text<W>,
    world: &'a mut W,
    frame: GRect,
    ops: Vec<DrawOp<'a>>,
)
    requires
        call_ensures(Text::<W>::paint, (this, world, frame), ops),
    ensures
        exists|text: ShownText<'a>| #[trigger]
            draws_text(
                ops@,
                frame,
                this.style().background_color,
                this.style().text_color,
                text,
                this.style().font,
                this.style().overflow,
                this.style().alignment,
            ) && forall|bytes: Seq<u8>| #[trigger]
                text.may_show(bytes) ==> this.reads_text(*old(world), bytes, *final(world)),
{
    let text = choose|text: ShownText<'a>|
        ops@ == #[trigger] this.style().ops(text, frame) && forall|bytes: Seq<u8>| #[trigger]
            text.may_show(bytes) ==> this.reads_text(*old(world), bytes, *final(world));
    assert(draws_text(
        ops@,
        frame,
        this.style().background_color,
        this.style().text_color,
        text,
        this.style().font,
        this.style().overflow,
        this.style().alignment,
    ));
}

/// A text layer of a literal can always be painted; the text that it draws is the literal,
/// and the world stays as it is.
pub proof fn law_text_of_a_literal<'a, W: 'static>(
    layer: Layer,
    bounds: GRect,
    literal: TextLiteral,
    this: Text<W>,
    world: &'a mut W,
    frame: GRect,
    ops: Vec<DrawOp<'a>>,
    drawn: ShownText<'a>,
    bytes: &[u8],
    other: &mut W,
)
    requires
        call_ensures(Text::<W>::new::<TextLiteral>, (layer, bounds, literal), this),
        call_ensures(Text::<W>::paint, (&this, world, frame), ops),
        ops@.len() > 0,
        ops@.last() is DrawText,
        ops@.last()->text == drawn,
        call_ensures(ShownText::<'a>::bytes, (&drawn,), bytes),
    ensures
        *final(world) == *old(world) && bytes@ == literal@,
        call_requires(Text::<W>::paint, (&this, other, frame)),
{
    law_paint_text(&this, world, frame, ops);
    assert(drawn.may_show(bytes@));
    assert(this.reads_text(*old(world), bytes@, *final(world)));
}

/// A text layer of a state can be painted wherever the state can be read; the text that it
/// draws is one that the state shows.
pub proof fn law_text_of_a_state<'a, W: 'static>(
    layer: Layer,
    bounds: GRect,
    state: State<W, TextBuf>,
    this: Text<W>,
    world: &'a mut W,
    frame: GRect,
    ops: Vec<DrawOp<'a>>,
    drawn: ShownText<'a>,
    bytes: &[u8],
    other: &mut W,
)
    requires
        call_ensures(Text::<W>::new::<State<W, TextBuf>>, (layer, bounds, state), this),
        call_ensures(Text::<W>::paint, (&this, world, frame), ops),
        ops@.len() > 0,
        ops@.last() is DrawText,
        ops@.last()->text == drawn,
        call_ensures(ShownText::<'a>::bytes, (&drawn,), bytes),
    ensures
        exists|text: TextBuf| #[trigger]
                state.reads(*old(world), text, *final(world)) && bytes@ == text@,
        state.readable(*old(other)) ==> call_requires(
            Text::<W>::paint,
            (&this, other, frame),
        ),
{
    law_paint_text(&this, world, frame, ops);
    assert(drawn.may_show(bytes@));
    assert(this.reads_text(*old(world), bytes@, *final(world)));
}

/// A text layer of a snapshot can always be painted; the text that it draws is one that the
/// snapshot shows, and the world stays as it is.
pub proof fn law_text_of_a_snap<'a, W: 'static>(
    layer: Layer,
    bounds: GRect,
    snap: Snap<TextBuf>,
    this: Text<W>,
    world: &'a mut W,
    frame: GRect,
    ops: Vec<DrawOp<'a>>,
    drawn: ShownText<'a>,
    bytes: &[u8],
    other: &mut W,
)
    requires
        call_ensures(Text::<W>::new::<Snap<TextBuf>>, (layer, bounds, snap), this),
        call_ensures(Text::<W>::paint, (&this, world, frame), ops),
        ops@.len() > 0,
        ops@.last() is DrawText,
        ops@.last()->text == drawn,
        call_ensures(ShownText::<'a>::bytes, (&drawn,), bytes),
    ensures
        *final(world) == *old(world) && exists|text: TextBuf| #[trigger]
                snap.points_to(&text) && bytes@ == text@,
        call_requires(Text::<W>::paint, (&this, other, frame)),
{
    law_paint_text(&this, world, frame, ops);
    assert(drawn.may_show(bytes@));
    assert(this.reads_text(*old(world), bytes@, *final(world)));
}

/// A text layer of a state that holds snapshots can be painted wherever the state can be
/// read; the text that it draws is one that such a snapshot shows.
pub proof fn law_text_of_a_state_of_snaps<'a, W: 'static>(
    layer: Layer,
    bounds: GRect,
    state: State<W, Snap<TextBuf>>,
    this: Text<W>,
    world: &'a mut W,
    frame: GRect,
    ops: Vec<DrawOp<'a>>,
    drawn: ShownText<'a>,
    bytes: &[u8],
    other: &mut W,
)
    requires
        call_ensures(Text::<W>::new::<State<W, Snap<TextBuf>>>, (layer, bounds, state), this),
        call_ensures(Text::<W>::paint, (&this, world, frame), ops),
        ops@.len() > 0,
        ops@.last() is DrawText,
        ops@.last()->text == drawn,
        call_ensures(ShownText::<'a>::bytes, (&drawn,), bytes),
    ensures
        exists|snap: Snap<TextBuf>, text: TextBuf|
                #![trigger state.reads(*old(world), snap, *final(world)), snap.points_to(&text)]
                state.reads(*old(world), snap, *final(world)) && snap.points_to(&text) && bytes@
                    == text@,
        state.readable(*old(other)) ==> call_requires(
            Text::<W>::paint,
            (&this, other, frame),
        ),
{
    law_paint_text(&this, world, frame, ops);
    assert(drawn.may_show(bytes@));
    assert(this.reads_text(*old(world), bytes@, *final(world)));
}

/// Setting the font sets it, asks for the layer, and changes nothing else.
pub proof fn law_set_font<W: 'static>(
    this: &mut Text<W>,
    font: GFont,
    repaint: Repaint,
    pre: W,
    bytes: Seq<u8>,
    post: W,
)
    requires
        call_ensures(Text::<W>::set_font, (this, font), repaint),
    ensures
        repaint == Repaint::Layer(old(this).layer()),
        final(this).style().font == font,
        final(this).style().text_color == old(this).style().text_color,
        final(this).style().background_color == old(this).style().background_color,
        final(this).style().alignment == old(this).style().alignment,
        final(this).style().overflow == old(this).style().overflow,
        final(this).layer() == old(this).layer(),
        final(this).own_bounds() == old(this).own_bounds(),
        final(this).readable(pre) <==> old(this).readable(pre),
        final(this).reads_text(pre, bytes, post) <==> old(this).reads_text(pre, bytes, post),
{
}

/// Setting the color of the text sets it, asks for the layer, and changes nothing else.
pub proof fn law_set_text_color<W: 'static>(
    this: &mut Text<W>,
    color: GColor,
    repaint: Repaint,
    pre: W,
    bytes: Seq<u8>,
    post: W,
)
    requires
        call_ensures(Text::<W>::set_text_color, (this, color), repaint),
    ensures
        repaint == Repaint::Layer(old(this).layer()),
        final(this).style().font == old(this).style().font,
        final(this).style().text_color == color,
        final(this).style().background_color == old(this).style().background_color,
        final(this).style().alignment == old(this).style().alignment,
        final(this).style().overflow == old(this).style().overflow,
        final(this).layer() == old(this).layer(),
        final(this).own_bounds() == old(this).own_bounds(),
        final(this).readable(pre) <==> old(this).readable(pre),
        final(this).reads_text(pre, bytes, post) <==> old(this).reads_text(pre, bytes, post),
{
}

/// Setting the background sets it, asks for the layer, and changes nothing else.
pub proof fn law_set_background_color<W: 'static>(
    this: &mut Text<W>,
    color: GColor,
    repaint: Repaint,
    pre: W,
    bytes: Seq<u8>,
    post: W,
)
    requires
        call_ensures(Text::<W>::set_background_color, (this, color), repaint),
    ensures
        repaint == Repaint::Layer(old(this).layer()),
        final(this).style().font == old(this).style().font,
        final(this).style().text_color == old(this).style().text_color,
        final(this).style().background_color == Some(color),
        final(this).style().alignment == old(this).style().alignment,
        final(this).style().overflow == old(this).style().overflow,
        final(this).layer() == old(this).layer(),
        final(this).own_bounds() == old(this).own_bounds(),
        final(this).readable(pre) <==> old(this).readable(pre),
        final(this).reads_text(pre, bytes, post) <==> old(this).reads_text(pre, bytes, post),
{
}

/// Setting the alignment sets it, asks for the layer, and changes nothing else.
pub proof fn law_set_text_alignment<W: 'static>(
    this: &mut Text<W>,
    alignment: GTextAlignment,
    repaint: Repaint,
    pre: W,
    bytes: Seq<u8>,
    post: W,
)
    requires
        call_ensures(Text::<W>::set_text_alignment, (this, alignment), repaint),
    ensures
        repaint == Repaint::Layer(old(this).layer()),
        final(this).style().font == old(this).style().font,
        final(this).style().text_color == old(this).style().text_color,
        final(this).style().background_color == old(this).style().background_color,
        final(this).style().alignment == alignment,
        final(this).style().overflow == old(this).style().overflow,
        final(this).layer() == old(this).layer(),
        final(this).own_bounds() == old(this).own_bounds(),
        final(this).readable(pre) <==> old(this).readable(pre),
        final(this).reads_text(pre, bytes, post) <==> old(this).reads_text(pre, bytes, post),
{
}

/// Setting what becomes of a text that is too long sets it, asks for the layer, and changes nothing else.
pub proof fn law_set_overflow<W: 'static>(
    this: &mut Text<W>,
    overflow: GTextOverflowMode,
    repaint: Repaint,
    pre: W,
    bytes: Seq<u8>,
    post: W,
)
    requires
        call_ensures(Text::<W>::set_overflow, (this, overflow), repaint),
    ensures
        repaint == Repaint::Layer(old(this).layer()),
        final(this).style().font == old(this).style().font,
        final(this).style().text_color == old(this).style().text_color,
        final(this).style().background_color == old(this).style().background_color,
        final(this).style().alignment == old(this).style().alignment,
        final(this).style().overflow == overflow,
        final(this).layer() == old(this).layer(),
        final(this).own_bounds() == old(this).own_bounds(),
        final(this).readable(pre) <==> old(this).readable(pre),
        final(this).reads_text(pre, bytes, post) <==> old(this).reads_text(pre, bytes, post),
{
}

// ── Menus ───────────────────────────────────────────────────────────────────────

/// No callbacks are there unless they are given.
pub proof fn law_default_callbacks<R, P, E>(callbacks: MenuCallbacks<R, P, E>)
    requires
        call_ensures(<MenuCallbacks<R, P, E> as Default>::default, (), callbacks),
    ensures
        callbacks.get_num_sections is None,
        callbacks.get_num_rows is None,
        callbacks.get_cell_height is None,
        callbacks.get_header_height is None,
        callbacks.get_separator_height is None,
        callbacks.draw_row is None,
        callbacks.draw_header is None,
        callbacks.draw_separator is None,
        callbacks.draw_background is None,
        callbacks.selection_will_change is None,
        callbacks.select_click is None,
        callbacks.select_long_click is None,
        callbacks.selection_changed is None,
{
}

/// A menu lies in its frame, and the display has to call exactly the callbacks that are
/// there.
pub proof fn law_new_menu<W: 'static, R: 'static, P: 'static, E: 'static>(
    frame: GRect,
    data: State<W, R>,
    cbs: MenuCallbacks<R, P, E>,
    menu: Menu<W, R, P, E>,
    bounds: GRect,
    registered: Registered,
)
    requires
        call_ensures(Menu::<W, R, P, E>::new, (frame, data, cbs), menu),
        call_ensures(Menu::<W, R, P, E>::bounds, (&menu,), bounds),
        call_ensures(Menu::<W, R, P, E>::registered, (&menu,), registered),
    ensures
        bounds == frame,
        call_requires(Menu::<W, R, P, E>::registered, (&menu,)),
        registered.get_num_sections <==> cbs.get_num_sections is Some,
        registered.get_num_rows <==> cbs.get_num_rows is Some,
        registered.get_cell_height <==> cbs.get_cell_height is Some,
        registered.get_header_height <==> cbs.get_header_height is Some,
        registered.get_separator_height <==> cbs.get_separator_height is Some,
        registered.draw_row <==> cbs.draw_row is Some,
        registered.draw_header <==> cbs.draw_header is Some,
        registered.draw_separator <==> cbs.draw_separator is Some,
        registered.draw_background <==> cbs.draw_background is Some,
        registered.selection_will_change <==> cbs.selection_will_change is Some,
        registered.select_click <==> cbs.select_click is Some,
        registered.select_long_click <==> cbs.select_long_click is Some,
        registered.selection_changed <==> cbs.selection_changed is Some,
{
}

/// The number of sections is what the callback for it answers, asked with these very inputs
/// and with a value that the state shows. It may be asked wherever the state can be read and
/// the callback takes these inputs.
pub proof fn law_menu_num_sections<
    W: 'static,
    R: 'static,
    P: 'static,
    E: 'static,
    F: Fn(MenuLayerRef, &R, ()) -> u16 + 'static,
>(
    f: F,
    callback: Callback<R, (), u16>,
    frame: GRect,
    data: State<W, R>,
    cbs: MenuCallbacks<R, P, E>,
    this: Menu<W, R, P, E>,
    world: &mut W,
    menu: MenuLayerRef,
    output: u16,
    other: &mut W,
)
    requires
        call_ensures(Callback::<R, (), u16>::new::<F>, (f,), callback),
        cbs.get_num_sections == Some(callback),
        call_ensures(Menu::<W, R, P, E>::new, (frame, data, cbs), this),
        call_ensures(Menu::<W, R, P, E>::num_sections, (&this, world, menu), output),
    ensures
        exists|value: R| #[trigger]
            data.reads(*old(world), value, *final(world)) && call_ensures(
                f,
                (menu, &value, ()),
                output,
            ),
        data.readable(*old(other)) && (forall|value: R| #[trigger]
            call_requires(f, (menu, &value, ()))) ==> call_requires(
            Menu::<W, R, P, E>::num_sections,
            (&this, other, menu),
        ),
{
}

/// The number of rows of a section is what the callback for it answers, asked with these very inputs
/// and with a value that the state shows. It may be asked wherever the state can be read and
/// the callback takes these inputs.
pub proof fn law_menu_num_rows<
    W: 'static,
    R: 'static,
    P: 'static,
    E: 'static,
    F: Fn(MenuLayerRef, &R, u16) -> u16 + 'static,
>(
    f: F,
    callback: Callback<R, u16, u16>,
    frame: GRect,
    data: State<W, R>,
    cbs: MenuCallbacks<R, P, E>,
    this: Menu<W, R, P, E>,
    world: &mut W,
    menu: MenuLayerRef,
    section: u16,
    output: u16,
    other: &mut W,
)
    requires
        call_ensures(Callback::<R, u16, u16>::new::<F>, (f,), callback),
        cbs.get_num_rows == Some(callback),
        call_ensures(Menu::<W, R, P, E>::new, (frame, data, cbs), this),
        call_ensures(Menu::<W, R, P, E>::num_rows, (&this, world, menu, section), output),
    ensures
        exists|value: R| #[trigger]
            data.reads(*old(world), value, *final(world)) && call_ensures(
                f,
                (menu, &value, section),
                output,
            ),
        data.readable(*old(other)) && (forall|value: R| #[trigger]
            call_requires(f, (menu, &value, section))) ==> call_requires(
            Menu::<W, R, P, E>::num_rows,
            (&this, other, menu, section),
        ),
{
}

/// The height of a cell is what the callback for it answers, asked with these very inputs
/// and with a value that the state shows. It may be asked wherever the state can be read and
/// the callback takes these inputs.
pub proof fn law_menu_cell_height<
    W: 'static,
    R: 'static,
    P: 'static,
    E: 'static,
    F: Fn(MenuLayerRef, &R, MenuIndex) -> i16 + 'static,
>(
    f: F,
    callback: Callback<R, MenuIndex, i16>,
    frame: GRect,
    data: State<W, R>,
    cbs: MenuCallbacks<R, P, E>,
    this: Menu<W, R, P, E>,
    world: &mut W,
    menu: MenuLayerRef,
    index: MenuIndex,
    output: i16,
    other: &mut W,
)
    requires
        call_ensures(Callback::<R, MenuIndex, i16>::new::<F>, (f,), callback),
        cbs.get_cell_height == Some(callback),
        call_ensures(Menu::<W, R, P, E>::new, (frame, data, cbs), this),
        call_ensures(Menu::<W, R, P, E>::cell_height, (&this, world, menu, index), output),
    ensures
        exists|value: R| #[trigger]
            data.reads(*old(world), value, *final(world)) && call_ensures(
                f,
                (menu, &value, index),
                output,
            ),
        data.readable(*old(other)) && (forall|value: R| #[trigger]
            call_requires(f, (menu, &value, index))) ==> call_requires(
            Menu::<W, R, P, E>::cell_height,
            (&this, other, menu, index),
        ),
{
}

/// The height of a header is what the callback for it answers, asked with these very inputs
/// and with a value that the state shows. It may be asked wherever the state can be read and
/// the callback takes these inputs.
pub proof fn law_menu_header_height<
    W: 'static,
    R: 'static,
    P: 'static,
    E: 'static,
    F: Fn(MenuLayerRef, &R, u16) -> i16 + 'static,
>(
    f: F,
    callback: Callback<R, u16, i16>,
    frame: GRect,
    data: State<W, R>,
    cbs: MenuCallbacks<R, P, E>,
    this: Menu<W, R, P, E>,
    world: &mut W,
    menu: MenuLayerRef,
    section: u16,
    output: i16,
    other: &mut W,
)
    requires
        call_ensures(Callback::<R, u16, i16>::new::<F>, (f,), callback),
        cbs.get_header_height == Some(callback),
        call_ensures(Menu::<W, R, P, E>::new, (frame, data, cbs), this),
        call_ensures(Menu::<W, R, P, E>::header_height, (&this, world, menu, section), output),
    ensures
        exists|value: R| #[trigger]
            data.reads(*old(world), value, *final(world)) && call_ensures(
                f,
                (menu, &value, section),
                output,
            ),
        data.readable(*old(other)) && (forall|value: R| #[trigger]
            call_requires(f, (menu, &value, section))) ==> call_requires(
            Menu::<W, R, P, E>::header_height,
            (&this, other, menu, section),
        ),
{
}

/// The height of a separator is what the callback for it answers, asked with these very inputs
/// and with a value that the state shows. It may be asked wherever the state can be read and
/// the callback takes these inputs.
pub proof fn law_menu_separator_height<
    W: 'static,
    R: 'static,
    P: 'static,
    E: 'static,
    F: Fn(MenuLayerRef, &R, MenuIndex) -> i16 + 'static,
>(
    f: F,
    callback: Callback<R, MenuIndex, i16>,
    frame: GRect,
    data: State<W, R>,
    cbs: MenuCallbacks<R, P, E>,
    this: Menu<W, R, P, E>,
    world: &mut W,
    menu: MenuLayerRef,
    index: MenuIndex,
    output: i16,
    other: &mut W,
)
    requires
        call_ensures(Callback::<R, MenuIndex, i16>::new::<F>, (f,), callback),
        cbs.get_separator_height == Some(callback),
        call_ensures(Menu::<W, R, P, E>::new, (frame, data, cbs), this),
        call_ensures(Menu::<W, R, P, E>::separator_height, (&this, world, menu, index), output),
    ensures
        exists|value: R| #[trigger]
            data.reads(*old(world), value, *final(world)) && call_ensures(
                f,
                (menu, &value, index),
                output,
            ),
        data.readable(*old(other)) && (forall|value: R| #[trigger]
            call_requires(f, (menu, &value, index))) ==> call_requires(
            Menu::<W, R, P, E>::separator_height,
            (&this, other, menu, index),
        ),
{
}

/// What is painted of a row is what the callback for it answers, asked with these very inputs
/// and with a value that the state shows. It may be asked wherever the state can be read and
/// the callback takes these inputs.
pub proof fn law_menu_draw_row<
    W: 'static,
    R: 'static,
    P: 'static,
    E: 'static,
    F: Fn(MenuLayerRef, &R, (MenuCellLayer, MenuIndex)) -> P + 'static,
>(
    f: F,
    callback: Callback<R, (MenuCellLayer, MenuIndex), P>,
    frame: GRect,
    data: State<W, R>,
    cbs: MenuCallbacks<R, P, E>,
    this: Menu<W, R, P, E>,
    world: &mut W,
    menu: MenuLayerRef,
    cell: MenuCellLayer,
    index: MenuIndex,
    output: P,
    other: &mut W,
)
    requires
        call_ensures(Callback::<R, (MenuCellLayer, MenuIndex), P>::new::<F>, (f,), callback),
        cbs.draw_row == Some(callback),
        call_ensures(Menu::<W, R, P, E>::new, (frame, data, cbs), this),
        call_ensures(Menu::<W, R, P, E>::draw_row, (&this, world, menu, cell, index), output),
    ensures
        exists|value: R| #[trigger]
            data.reads(*old(world), value, *final(world)) && call_ensures(
                f,
                (menu, &value, (cell, index)),
                output,
            ),
        data.readable(*old(other)) && (forall|value: R| #[trigger]
            call_requires(f, (menu, &value, (cell, index)))) ==> call_requires(
            Menu::<W, R, P, E>::draw_row,
            (&this, other, menu, cell, index),
        ),
{
}

/// What is painted of a header is what the callback for it answers, asked with these very inputs
/// and with a value that the state shows. It may be asked wherever the state can be read and
/// the callback takes these inputs.
pub proof fn law_menu_draw_header<
    W: 'static,
    R: 'static,
    P: 'static,
    E: 'static,
    F: Fn(MenuLayerRef, &R, (MenuCellLayer, u16)) -> P + 'static,
>(
    f: F,
    callback: Callback<R, (MenuCellLayer, u16), P>,
    frame: GRect,
    data: State<W, R>,
    cbs: MenuCallbacks<R, P, E>,
    this: Menu<W, R, P, E>,
    world: &mut W,
    menu: MenuLayerRef,
    cell: MenuCellLayer,
    section: u16,
    output: P,
    other: &mut W,
)
    requires
        call_ensures(Callback::<R, (MenuCellLayer, u16), P>::new::<F>, (f,), callback),
        cbs.draw_header == Some(callback),
        call_ensures(Menu::<W, R, P, E>::new, (frame, data, cbs), this),
        call_ensures(Menu::<W, R, P, E>::draw_header, (&this, world, menu, cell, section), output),
    ensures
        exists|value: R| #[trigger]
            data.reads(*old(world), value, *final(world)) && call_ensures(
                f,
                (menu, &value, (cell, section)),
                output,
            ),
        data.readable(*old(other)) && (forall|value: R| #[trigger]
            call_requires(f, (menu, &value, (cell, section)))) ==> call_requires(
            Menu::<W, R, P, E>::draw_header,
            (&this, other, menu, cell, section),
        ),
{
}

/// What is painted of a separator is what the callback for it answers, asked with these very inputs
/// and with a value that the state shows. It may be asked wherever the state can be read and
/// the callback takes these inputs.
pub proof fn law_menu_draw_separator<
    W: 'static,
    R: 'static,
    P: 'static,
    E: 'static,
    F: Fn(MenuLayerRef, &R, (MenuCellLayer, MenuIndex)) -> P + 'static,
>(
    f: F,
    callback: Callback<R, (MenuCellLayer, MenuIndex), P>,
    frame: GRect,
    data: State<W, R>,
    cbs: MenuCallbacks<R, P, E>,
    this: Menu<W, R, P, E>,
    world: &mut W,
    menu: MenuLayerRef,
    cell: MenuCellLayer,
    index: MenuIndex,
    output: P,
    other: &mut W,
)
    requires
        call_ensures(Callback::<R, (MenuCellLayer, MenuIndex), P>::new::<F>, (f,), callback),
        cbs.draw_separator == Some(callback),
        call_ensures(Menu::<W, R, P, E>::new, (frame, data, cbs), this),
        call_ensures(Menu::<W, R, P, E>::draw_separator, (&this, world, menu, cell, index), output),
    ensures
        exists|value: R| #[trigger]
            data.reads(*old(world), value, *final(world)) && call_ensures(
                f,
                (menu, &value, (cell, index)),
                output,
            ),
        data.readable(*old(other)) && (forall|value: R| #[trigger]
            call_requires(f, (menu, &value, (cell, index)))) ==> call_requires(
            Menu::<W, R, P, E>::draw_separator,
            (&this, other, menu, cell, index),
        ),
{
}

/// What is painted of a background is what the callback for it answers, asked with these very inputs
/// and with a value that the state shows. It may be asked wherever the state can be read and
/// the callback takes these inputs.
pub proof fn law_menu_draw_background<
    W: 'static,
    R: 'static,
    P: 'static,
    E: 'static,
    F: Fn(MenuLayerRef, &R, (MenuCellLayer, bool)) -> P + 'static,
>(
    f: F,
    callback: Callback<R, (MenuCellLayer, bool), P>,
    frame: GRect,
    data: State<W, R>,
    cbs: MenuCallbacks<R, P, E>,
    this: Menu<W, R, P, E>,
    world: &mut W,
    menu: MenuLayerRef,
    cell: MenuCellLayer,
    highlighted: bool,
    output: P,
    other: &mut W,
)
    requires
        call_ensures(Callback::<R, (MenuCellLayer, bool), P>::new::<F>, (f,), callback),
        cbs.draw_background == Some(callback),
        call_ensures(Menu::<W, R, P, E>::new, (frame, data, cbs), this),
        call_ensures(Menu::<W, R, P, E>::draw_background, (&this, world, menu, cell, highlighted), output),
    ensures
        exists|value: R| #[trigger]
            data.reads(*old(world), value, *final(world)) && call_ensures(
                f,
                (menu, &value, (cell, highlighted)),
                output,
            ),
        data.readable(*old(other)) && (forall|value: R| #[trigger]
            call_requires(f, (menu, &value, (cell, highlighted)))) ==> call_requires(
            Menu::<W, R, P, E>::draw_background,
            (&this, other, menu, cell, highlighted),
        ),
{
}

/// The index that is selected is what the callback for it answers, asked with these very inputs
/// and with a value that the state shows. It may be asked wherever the state can be read and
/// the callback takes these inputs.
pub proof fn law_menu_selection_will_change<
    W: 'static,
    R: 'static,
    P: 'static,
    E: 'static,
    F: Fn(MenuLayerRef, &R, (MenuIndex, MenuIndex)) -> MenuIndex + 'static,
>(
    f: F,
    callback: Callback<R, (MenuIndex, MenuIndex), MenuIndex>,
    frame: GRect,
    data: State<W, R>,
    cbs: MenuCallbacks<R, P, E>,
    this: Menu<W, R, P, E>,
    world: &mut W,
    menu: MenuLayerRef,
    next: MenuIndex,
    current: MenuIndex,
    output: MenuIndex,
    other: &mut W,
)
    requires
        call_ensures(Callback::<R, (MenuIndex, MenuIndex), MenuIndex>::new::<F>, (f,), callback),
        cbs.selection_will_change == Some(callback),
        call_ensures(Menu::<W, R, P, E>::new, (frame, data, cbs), this),
        call_ensures(Menu::<W, R, P, E>::selection_will_change, (&this, world, menu, next, current), output),
    ensures
        exists|value: R| #[trigger]
            data.reads(*old(world), value, *final(world)) && call_ensures(
                f,
                (menu, &value, (next, current)),
                output,
            ),
        data.readable(*old(other)) && (forall|value: R| #[trigger]
            call_requires(f, (menu, &value, (next, current)))) ==> call_requires(
            Menu::<W, R, P, E>::selection_will_change,
            (&this, other, menu, next, current),
        ),
{
}

/// A click is answered with what the callback for it answers.
pub proof fn law_menu_select_click<
    W: 'static,
    R: 'static,
    P: 'static,
    E: 'static,
    F: Fn(MenuLayerRef, &(), MenuIndex) -> E + 'static,
>(
    f: F,
    callback: Callback<(), MenuIndex, E>,
    frame: GRect,
    data: State<W, R>,
    cbs: MenuCallbacks<R, P, E>,
    this: Menu<W, R, P, E>,
    menu: MenuLayerRef,
    index: MenuIndex,
    event: E,
)
    requires
        call_ensures(Callback::<(), MenuIndex, E>::new::<F>, (f,), callback),
        cbs.select_click == Some(callback),
        call_ensures(Menu::<W, R, P, E>::new, (frame, data, cbs), this),
        call_ensures(Menu::<W, R, P, E>::select_click, (&this, menu, index), event),
    ensures
        call_ensures(f, (menu, &(), index), event),
        call_requires(f, (menu, &(), index)) ==> call_requires(
            Menu::<W, R, P, E>::select_click,
            (&this, menu, index),
        ),
{
}

/// A long click is answered with what the callback for it answers.
pub proof fn law_menu_select_long_click<
    W: 'static,
    R: 'static,
    P: 'static,
    E: 'static,
    F: Fn(MenuLayerRef, &(), MenuIndex) -> E + 'static,
>(
    f: F,
    callback: Callback<(), MenuIndex, E>,
    frame: GRect,
    data: State<W, R>,
    cbs: MenuCallbacks<R, P, E>,
    this: Menu<W, R, P, E>,
    menu: MenuLayerRef,
    index: MenuIndex,
    event: E,
)
    requires
        call_ensures(Callback::<(), MenuIndex, E>::new::<F>, (f,), callback),
        cbs.select_long_click == Some(callback),
        call_ensures(Menu::<W, R, P, E>::new, (frame, data, cbs), this),
        call_ensures(Menu::<W, R, P, E>::select_long_click, (&this, menu, index), event),
    ensures
        call_ensures(f, (menu, &(), index), event),
        call_requires(f, (menu, &(), index)) ==> call_requires(
            Menu::<W, R, P, E>::select_long_click,
            (&this, menu, index),
        ),
{
}

/// A moved selection is answered with what the callback for it answers of the old index
/// and then the new one.
pub proof fn law_menu_selection_changed<
    W: 'static,
    R: 'static,
    P: 'static,
    E: 'static,
    F: Fn(MenuLayerRef, &(), (MenuIndex, MenuIndex)) -> E + 'static,
>(
    f: F,
    callback: Callback<(), (MenuIndex, MenuIndex), E>,
    frame: GRect,
    data: State<W, R>,
    cbs: MenuCallbacks<R, P, E>,
    this: Menu<W, R, P, E>,
    menu: MenuLayerRef,
    new_index: MenuIndex,
    old_index: MenuIndex,
    event: E,
)
    requires
        call_ensures(Callback::<(), (MenuIndex, MenuIndex), E>::new::<F>, (f,), callback),
        cbs.selection_changed == Some(callback),
        call_ensures(Menu::<W, R, P, E>::new, (frame, data, cbs), this),
        call_ensures(Menu::<W, R, P, E>::selection_changed, (&this, menu, new_index, old_index), event),
    ensures
        call_ensures(f, (menu, &(), (old_index, new_index)), event),
        call_requires(f, (menu, &(), (old_index, new_index))) ==> call_requires(
            Menu::<W, R, P, E>::selection_changed,
            (&this, menu, new_index, old_index),
        ),
{
}

// ── Indicators ──────────────────────────────────────────────────────────────────

/// A step that sets up the arrow of a direction: it does not time out, and is a black arrow
/// in the middle of its strip, on nothing.
pub open spec fn sets_up(step: IndicatorStep, direction: ContentIndicatorDirection) -> bool {
    step matches IndicatorStep::Configure(config) && {
        &&& config.direction == direction
        &&& !config.times_out
        &&& config.alignment == GAlign::Center
        &&& config.foreground == GColor::Black
        &&& config.background == GColor::Clear
    }
}

/// A step that creates the strip of a direction: 18 pixels high, as wide as the window, at
/// the left edge, with this upper edge.
pub open spec fn creates_strip(
    step: IndicatorStep,
    direction: ContentIndicatorDirection,
    bounds: GRect,
    y: int,
) -> bool {
    step matches IndicatorStep::CreateHost(which, strip) && {
        &&& which == direction
        &&& strip.origin.x == 0
        &&& strip.origin.y == y
        &&& strip.size.w == bounds.size.w
        &&& strip.size.h == 18
    }
}

/// Showing says first whether there is content above and then whether there is some below,
/// by a read of the one state and then one of the other.
pub open spec fn shows_both<W>(
    up: State<W, bool>,
    down: State<W, bool>,
    pre: W,
    steps: Seq<IndicatorStep>,
    post: W,
) -> bool {
    exists|a: bool, mid: W, b: bool|
        #![trigger up.reads(pre, a, mid), down.reads(mid, b, post)]
        up.reads(pre, a, mid) && down.reads(mid, b, post) && steps.len() == 2 && steps[0]
            == IndicatorStep::SetContentAvailable(ContentIndicatorDirection::Up, a) && steps[1]
            == IndicatorStep::SetContentAvailable(ContentIndicatorDirection::Down, b)
}

/// A new indicator layer is built of a root with the bounds of the window, a strip along its
/// upper edge and one along its lower edge, and an arrow in each, and shows at once which
/// directions have content.
pub proof fn law_new_indicator<W: 'static>(
    world: &mut W,
    bounds: GRect,
    up: State<W, bool>,
    down: State<W, bool>,
    built: (ContentIndicatorLayer<W>, Vec<IndicatorStep>),
)
    requires
        call_ensures(ContentIndicatorLayer::<W>::new, (world, bounds, up, down), built),
        bounds.size.h >= -32750,
    ensures
        built.0.up() == up,
        built.0.down() == down,
        built.1@.len() == 10,
        built.1@[0] == IndicatorStep::CreateRoot(bounds),
        creates_strip(built.1@[1], ContentIndicatorDirection::Up, bounds, 0),
        creates_strip(
            built.1@[2],
            ContentIndicatorDirection::Down,
            bounds,
            bounds.size.h - 18,
        ),
        built.1@[3] == IndicatorStep::AddHost(ContentIndicatorDirection::Up),
        built.1@[4] == IndicatorStep::AddHost(ContentIndicatorDirection::Down),
        built.1@[5] == IndicatorStep::CreateIndicator,
        sets_up(built.1@[6], ContentIndicatorDirection::Up),
        sets_up(built.1@[7], ContentIndicatorDirection::Down),
        shows_both(up, down, *old(world), built.1@.skip(8), *final(world)),
{
    let (a, b) = choose|a: bool, b: bool| #[trigger]
        both_read(up, down, *old(world), a, b, *final(world)) && built.1@
            == building(bounds) + showing(a, b);
    let mid = choose|mid: W| #[trigger]
        up.reads(*old(world), a, mid) && down.reads(mid, b, *final(world));
    assert(up.reads(*old(world), a, mid) && down.reads(mid, b, *final(world)));
    assert(built.1@.skip(8) =~= showing(a, b));
}

/// Each render of an indicator layer shows which directions have content then, and nothing
/// else.
pub proof fn law_render_indicator<W: 'static>(
    this: &ContentIndicatorLayer<W>,
    world: &mut W,
    steps: Vec<IndicatorStep>,
)
    requires
        call_ensures(ContentIndicatorLayer::<W>::render, (this, world), steps),
    ensures
        shows_both(this.up(), this.down(), *old(world), steps@, *final(world)),
{
    let (up, down) = (this.up(), this.down());
    let (a, b) = choose|a: bool, b: bool| #[trigger]
        both_read(up, down, *old(world), a, b, *final(world)) && steps@
            == showing(a, b);
    let mid = choose|mid: W| #[trigger]
        up.reads(*old(world), a, mid) && down.reads(mid, b, *final(world));
    assert(up.reads(*old(world), a, mid) && down.reads(mid, b, *final(world)));
}

} // verus!
