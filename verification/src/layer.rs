//! Reactive layers.
//!
//! A layer reads what it needs out of a `State` when it is painted and never owns a copy.
//! What it paints is handed back as a value; `render` only asks for the layer to be
//! painted again.
use vstd::prelude::*;

use crate::graphics::{
    DrawOp, GColor, GCornerMask, GFont, GRect, GTextAlignment, GTextOverflowMode, Layer, ShownText,
    TextBuf, TextLiteral,
};
pub use crate::indicator::ContentIndicatorLayer;
pub use crate::menu::{Menu, MenuCallbacks};
use crate::snap::Snap;
use crate::state::{Shown, State};
use crate::store::Repaint;

verus! {

// ── Draw ────────────────────────────────────────────────────────────────────────

/// Something that paints a frame from what it reads in a world.
pub trait Paint<W, P> {
    /// The painter accepts whatever it reads in `pre`.
    spec fn paintable(&self, pre: W, frame: GRect) -> bool;

    /// Painting in `pre` may give `picture` and leave `post`.
    spec fn paints(&self, pre: W, frame: GRect, picture: P, post: W) -> bool;

    fn paint(&self, world: &mut W, frame: GRect) -> (picture: P)
        requires
            self.paintable(*old(world), frame),
        ensures
            self.paints(*old(world), frame, picture, *final(world)),
    ;
}

/// An erased painter.
#[verifier::reject_recursive_types(W)]
#[verifier::reject_recursive_types(P)]
struct Painter<W, P> {
    run: Box<dyn Paint<W, P>>,
}

/// A layer whose picture is drawn from a state, read when it is painted.
#[verifier::reject_recursive_types(W)]
#[verifier::reject_recursive_types(P)]
pub struct Draw<W, P> {
    layer: Layer,
    bounds: GRect,
    painter: Painter<W, P>,
}

/// `draw` accepts whatever a read of `data` in `pre` shows.
pub open spec fn draw_defined<W, T, P, F: Fn(&T, GRect) -> P>(
    data: State<W, T>,
    draw: F,
    pre: W,
    frame: GRect,
) -> bool {
    forall|value: T, post: W| #[trigger]
        data.reads(pre, value, post) ==> call_requires(draw, (&value, frame))
}

/// A read of `data` in `pre` may show a value from which `draw` makes `picture`, and leave
/// `post`.
pub open spec fn draw_paints<W, T, P, F: Fn(&T, GRect) -> P>(
    data: State<W, T>,
    draw: F,
    pre: W,
    frame: GRect,
    picture: P,
    post: W,
) -> bool {
    exists|value: T| #[trigger]
        data.reads(pre, value, post) && call_ensures(draw, (&value, frame), picture)
}

/// A painter that may read and write the world besides the value that it is given.
pub trait DrawIn<W, T, P> {
    /// The painter accepts this value and frame in `pre`.
    spec fn accepts(&self, value: T, frame: GRect, pre: W) -> bool;

    /// Painting this value in `pre` may give `picture` and leave `post`.
    spec fn draws(&self, value: T, frame: GRect, pre: W, picture: P, post: W) -> bool;

    fn draw(&self, world: &mut W, value: &T, frame: GRect) -> (picture: P)
        requires
            self.accepts(*value, frame, *old(world)),
        ensures
            self.draws(*value, frame, *old(world), picture, *final(world)),
    ;
}

/// The painter accepts whatever value of `data` is held in `pre`, in the world in which it
/// is held, and leaves a world in which it can be released.
pub open spec fn draw_in_defined<W, T, P, D: DrawIn<W, T, P>>(
    data: State<W, T>,
    painter: D,
    pre: W,
    frame: GRect,
) -> bool {
    forall|value: T, mid: W| #[trigger]
        data.holds(pre, value, mid) ==> painter.accepts(value, frame, mid) && leaves_releasable(
            data,
            painter,
            value,
            frame,
            mid,
        )
}

/// Wherever painting `value` in `mid` may end, `data` can be released.
pub open spec fn leaves_releasable<W, T, P, D: DrawIn<W, T, P>>(
    data: State<W, T>,
    painter: D,
    value: T,
    frame: GRect,
    mid: W,
) -> bool {
    forall|picture: P, after: W| #[trigger]
        painter.draws(value, frame, mid, picture, after) ==> data.can_release(after)
}

/// Holding `data` in `pre` may show a value from which the painter makes `picture`, and
/// releasing it after that leaves `post`.
pub open spec fn draw_in_paints<W, T, P, D: DrawIn<W, T, P>>(
    data: State<W, T>,
    painter: D,
    pre: W,
    frame: GRect,
    picture: P,
    post: W,
) -> bool {
    exists|value: T, mid: W, after: W|
        #![trigger painter.draws(value, frame, mid, picture, after), data.holds(pre, value, mid)]
        data.holds(pre, value, mid) && painter.draws(value, frame, mid, picture, after)
            && data.releases(after, post)
}

/// A painter that reads a second state only for values that want it.
#[verifier::reject_recursive_types(W)]
#[verifier::reject_recursive_types(U)]
struct Gated<W, U, G, F> {
    wants: G,
    extra: State<W, U>,
    draw: F,
}

/// Where `value` wants it, `extra` can be read, and `draw` accepts what comes of it.
pub open spec fn gate_accepts<
    W,
    T,
    U,
    P,
    G: Fn(&T) -> bool,
    F: Fn(&T, Option<&U>, GRect) -> P,
>(wants: G, extra: State<W, U>, draw: F, value: T, frame: GRect, pre: W) -> bool {
    &&& call_requires(wants, (&value,))
    &&& call_ensures(wants, (&value,), true) ==> extra.readable(pre) && forall|u: U, post: W|
        #[trigger]
        extra.reads(pre, u, post) ==> call_requires(draw, (&value, Some(&u), frame))
    &&& call_ensures(wants, (&value,), false) ==> call_requires(draw, (&value, None, frame))
}

/// Where `value` wants it, `picture` is made from a read of `extra`; otherwise it is made
/// from `value` alone and the world is left alone.
pub open spec fn gate_draws<W, T, U, P, G: Fn(&T) -> bool, F: Fn(&T, Option<&U>, GRect) -> P>(
    wants: G,
    extra: State<W, U>,
    draw: F,
    value: T,
    frame: GRect,
    pre: W,
    picture: P,
    post: W,
) -> bool {
    ||| call_ensures(wants, (&value,), true) && exists|u: U| #[trigger]
        extra.reads(pre, u, post) && call_ensures(draw, (&value, Some(&u), frame), picture)
    ||| call_ensures(wants, (&value,), false) && post == pre && call_ensures(
        draw,
        (&value, None, frame),
        picture,
    )
}

/// Whatever value of `data` is held in `pre` can be painted, and can be released wherever
/// painting may end.
pub open spec fn gated_defined<
    W,
    T,
    U,
    P,
    G: Fn(&T) -> bool,
    F: Fn(&T, Option<&U>, GRect) -> P,
>(data: State<W, T>, wants: G, extra: State<W, U>, draw: F, pre: W, frame: GRect) -> bool {
    forall|value: T, mid: W| #[trigger]
        data.holds(pre, value, mid) ==> {
            &&& gate_accepts(wants, extra, draw, value, frame, mid)
            &&& forall|picture: P, after: W| #[trigger]
                gate_draws(wants, extra, draw, value, frame, mid, picture, after)
                    ==> data.can_release(after)
        }
}

/// Holding `data` in `pre` may show a value from which `picture` is made, and releasing it
/// after that leaves `post`.
pub open spec fn gated_paints<
    W,
    T,
    U,
    P,
    G: Fn(&T) -> bool,
    F: Fn(&T, Option<&U>, GRect) -> P,
>(
    data: State<W, T>,
    wants: G,
    extra: State<W, U>,
    draw: F,
    pre: W,
    frame: GRect,
    picture: P,
    post: W,
) -> bool {
    exists|value: T, mid: W, after: W|
        #![trigger gate_draws(wants, extra, draw, value, frame, mid, picture, after), data.holds(pre, value, mid)]
        data.holds(pre, value, mid) && gate_draws(
            wants,
            extra,
            draw,
            value,
            frame,
            mid,
            picture,
            after,
        ) && data.releases(after, post)
}

impl<
    W: 'static,
    T: 'static,
    U: 'static,
    P: 'static,
    G: Fn(&T) -> bool,
    F: Fn(&T, Option<&U>, GRect) -> P,
> DrawIn<W, T, P> for Gated<W, U, G, F> {
    closed spec fn accepts(&self, value: T, frame: GRect, pre: W) -> bool {
        gate_accepts(self.wants, self.extra, self.draw, value, frame, pre)
    }

    closed spec fn draws(&self, value: T, frame: GRect, pre: W, picture: P, post: W) -> bool {
        gate_draws(self.wants, self.extra, self.draw, value, frame, pre, picture, post)
    }

    fn draw(&self, world: &mut W, value: &T, frame: GRect) -> (picture: P) {
        if (self.wants)(value) {
            let shown = self.extra.read(world);
            (self.draw)(value, Some(shown.get()), frame)
        } else {
            (self.draw)(value, None, frame)
        }
    }
}

impl<W, P> Draw<W, P> {
    /// The layer of the display.
    pub closed spec fn layer(&self) -> Layer {
        self.layer
    }

    /// Where the layer is.
    pub closed spec fn own_bounds(&self) -> GRect {
        self.bounds
    }

    /// The painter accepts whatever it reads in `pre`.
    pub closed spec fn paintable(&self, pre: W, frame: GRect) -> bool {
        self.painter.run.paintable(pre, frame)
    }

    /// Painting in `pre` may give `picture` and leave `post`.
    pub closed spec fn paints(&self, pre: W, frame: GRect, picture: P, post: W) -> bool {
        self.painter.run.paints(pre, frame, picture, post)
    }
}

impl<W: 'static, P: 'static> Draw<W, P> {
    /// A layer that paints what `draw` makes of the value of `data`.
    pub fn new<T: 'static, F: Fn(&T, GRect) -> P + 'static>(
        layer: Layer,
        bounds: GRect,
        data: State<W, T>,
        draw: F,
    ) -> (this: Self)
        ensures
            this.layer() == layer,
            this.own_bounds() == bounds,
            forall|pre: W, frame: GRect| #[trigger]
                this.paintable(pre, frame) <==> data.readable(pre) && draw_defined(
                    data,
                    draw,
                    pre,
                    frame,
                ),
            forall|pre: W, frame: GRect, picture: P, post: W| #[trigger]
                this.paints(pre, frame, picture, post) <==> draw_paints(
                    data,
                    draw,
                    pre,
                    frame,
                    picture,
                    post,
                ),
    {
        let painter = StatePainter { data, draw };
        Draw { layer, bounds, painter: Painter { run: Box::new(painter) } }
    }

    /// A layer that paints what a painter with access to the world makes of the value of
    /// `data`. The value is held while the painter runs, so what it was read from cannot be
    /// updated by the painter: a cell that is painted, or of which a piece is painted, stays
    /// borrowed, and a snapshot that a value was built from stays alive.
    pub fn in_world<T: 'static, D: DrawIn<W, T, P> + 'static>(
        layer: Layer,
        bounds: GRect,
        data: State<W, T>,
        painter: D,
    ) -> (this: Self)
        ensures
            this.layer() == layer,
            this.own_bounds() == bounds,
            forall|pre: W, frame: GRect| #[trigger]
                this.paintable(pre, frame) <==> data.can_hold(pre) && draw_in_defined(
                    data,
                    painter,
                    pre,
                    frame,
                ),
            forall|pre: W, frame: GRect, picture: P, post: W| #[trigger]
                this.paints(pre, frame, picture, post) <==> draw_in_paints(
                    data,
                    painter,
                    pre,
                    frame,
                    picture,
                    post,
                ),
    {
        let painter = WorldPainter { data, painter };
        Draw { layer, bounds, painter: Painter { run: Box::new(painter) } }
    }

    /// A layer that paints what `draw` makes of the value of `data` and, where `wants` says
    /// so, of that of `extra`. A state that is not wanted is not read.
    pub fn gated<
        T: 'static,
        U: 'static,
        G: Fn(&T) -> bool + 'static,
        F: Fn(&T, Option<&U>, GRect) -> P + 'static,
    >(
        layer: Layer,
        bounds: GRect,
        data: State<W, T>,
        wants: G,
        extra: State<W, U>,
        draw: F,
    ) -> (this: Self)
        ensures
            this.layer() == layer,
            this.own_bounds() == bounds,
            forall|pre: W, frame: GRect| #[trigger]
                this.paintable(pre, frame) <==> data.can_hold(pre) && gated_defined(
                    data,
                    wants,
                    extra,
                    draw,
                    pre,
                    frame,
                ),
            forall|pre: W, frame: GRect, picture: P, post: W| #[trigger]
                this.paints(pre, frame, picture, post) <==> gated_paints(
                    data,
                    wants,
                    extra,
                    draw,
                    pre,
                    frame,
                    picture,
                    post,
                ),
    {
        let painter = GatedPainter { data, gate: Gated { wants, extra, draw } };
        Draw { layer, bounds, painter: Painter { run: Box::new(painter) } }
    }

    /// Paint the frame from the current value.
    pub fn paint(&self, world: &mut W, frame: GRect) -> (picture: P)
        requires
            self.paintable(*old(world), frame),
        ensures
            self.paints(*old(world), frame, picture, *final(world)),
    {
        self.painter.run.paint(world, frame)
    }

    /// Where the layer is.
    pub fn bounds(&self) -> (bounds: GRect)
        ensures
            bounds == self.own_bounds(),
    {
        self.bounds
    }

    /// Ask for the layer to be painted again.
    pub fn render(&self) -> (repaint: Repaint)
        ensures
            repaint == Repaint::Layer(self.layer()),
    {
        Repaint::Layer(self.layer)
    }
}

#[verifier::reject_recursive_types(W)]
#[verifier::reject_recursive_types(T)]
struct StatePainter<W, T, F> {
    data: State<W, T>,
    draw: F,
}

impl<W: 'static, T: 'static, P: 'static, F: Fn(&T, GRect) -> P> Paint<W, P> for StatePainter<
    W,
    T,
    F,
> {
    closed spec fn paintable(&self, pre: W, frame: GRect) -> bool {
        self.data.readable(pre) && draw_defined(self.data, self.draw, pre, frame)
    }

    closed spec fn paints(&self, pre: W, frame: GRect, picture: P, post: W) -> bool {
        draw_paints(self.data, self.draw, pre, frame, picture, post)
    }

    fn paint(&self, world: &mut W, frame: GRect) -> (picture: P) {
        let shown = self.data.read(world);
        (self.draw)(shown.get(), frame)
    }
}

#[verifier::reject_recursive_types(W)]
#[verifier::reject_recursive_types(T)]
struct WorldPainter<W, T, D> {
    data: State<W, T>,
    painter: D,
}

impl<W: 'static, T: 'static, P: 'static, D: DrawIn<W, T, P>> Paint<W, P> for WorldPainter<W, T, D> {
    closed spec fn paintable(&self, pre: W, frame: GRect) -> bool {
        self.data.can_hold(pre) && draw_in_defined(self.data, self.painter, pre, frame)
    }

    closed spec fn paints(&self, pre: W, frame: GRect, picture: P, post: W) -> bool {
        draw_in_paints(self.data, self.painter, pre, frame, picture, post)
    }

    fn paint(&self, world: &mut W, frame: GRect) -> (picture: P) {
        let held = self.data.hold(world);
        let value = held.get();
        assert(held.points_to(value));
        let picture = self.painter.draw(world, value, frame);
        self.data.release(held, world);
        picture
    }
}

#[verifier::reject_recursive_types(W)]
#[verifier::reject_recursive_types(T)]
#[verifier::reject_recursive_types(U)]
struct GatedPainter<W, T, U, G, F> {
    data: State<W, T>,
    gate: Gated<W, U, G, F>,
}

impl<
    W: 'static,
    T: 'static,
    U: 'static,
    P: 'static,
    G: Fn(&T) -> bool,
    F: Fn(&T, Option<&U>, GRect) -> P,
> Paint<W, P> for GatedPainter<W, T, U, G, F> {
    closed spec fn paintable(&self, pre: W, frame: GRect) -> bool {
        self.data.can_hold(pre) && gated_defined(
            self.data,
            self.gate.wants,
            self.gate.extra,
            self.gate.draw,
            pre,
            frame,
        )
    }

    closed spec fn paints(&self, pre: W, frame: GRect, picture: P, post: W) -> bool {
        gated_paints(
            self.data,
            self.gate.wants,
            self.gate.extra,
            self.gate.draw,
            pre,
            frame,
            picture,
            post,
        )
    }

    fn paint(&self, world: &mut W, frame: GRect) -> (picture: P) {
        let held = self.data.hold(world);
        let value = held.get();
        assert(held.points_to(value));
        let picture = self.gate.draw(world, value, frame);
        self.data.release(held, world);
        picture
    }
}

// ── Text ────────────────────────────────────────────────────────────────────────

/// Anything that a `Text` can paint: a reactive string, a snapshot, or a literal.
pub trait TextContent<W> {
    /// A read in `pre` stays within what the content accepts.
    spec fn readable(&self, pre: W) -> bool;

    /// A read in `pre` may show these bytes and leave `post`.
    spec fn reads_text(&self, pre: W, bytes: Seq<u8>, post: W) -> bool;

    fn read<'a>(&'a self, world: &'a mut W) -> (text: ShownText<'a>)
        requires
            self.readable(*old(world)),
        ensures
            forall|bytes: Seq<u8>| #[trigger]
                text.may_show(bytes) ==> self.reads_text(*old(world), bytes, *final(world)),
    ;
}

impl<W: 'static> TextContent<W> for State<W, TextBuf> {
    open spec fn readable(&self, pre: W) -> bool {
        State::readable(self, pre)
    }

    open spec fn reads_text(&self, pre: W, bytes: Seq<u8>, post: W) -> bool {
        exists|text: TextBuf| #[trigger] self.reads(pre, text, post) && text@ == bytes
    }

    fn read<'a>(&'a self, world: &'a mut W) -> (text: ShownText<'a>) {
        ShownText::Read(State::read(self, world))
    }
}

impl<W: 'static> TextContent<W> for State<W, Snap<TextBuf>> {
    open spec fn readable(&self, pre: W) -> bool {
        State::readable(self, pre)
    }

    open spec fn reads_text(&self, pre: W, bytes: Seq<u8>, post: W) -> bool {
        exists|snap: Snap<TextBuf>, text: TextBuf|
            #![trigger self.reads(pre, snap, post), snap.points_to(&text)]
            self.reads(pre, snap, post) && snap.points_to(&text) && text@ == bytes
    }

    fn read<'a>(&'a self, world: &'a mut W) -> (text: ShownText<'a>) {
        let shown = State::read(self, world);
        let snap = shown.get().clone();
        assert(shown.points_to(&snap));
        ShownText::Read(Shown::Part(snap))
    }
}

impl<W> TextContent<W> for Snap<TextBuf> {
    open spec fn readable(&self, pre: W) -> bool {
        true
    }

    open spec fn reads_text(&self, pre: W, bytes: Seq<u8>, post: W) -> bool {
        post == pre && exists|text: TextBuf| #[trigger] self.points_to(&text) && text@ == bytes
    }

    fn read<'a>(&'a self, world: &'a mut W) -> (text: ShownText<'a>) {
        ShownText::Read(Shown::Part(self.clone()))
    }
}

impl<W> TextContent<W> for TextLiteral {
    open spec fn readable(&self, pre: W) -> bool {
        true
    }

    open spec fn reads_text(&self, pre: W, bytes: Seq<u8>, post: W) -> bool {
        post == pre && bytes == self@
    }

    fn read<'a>(&'a self, world: &'a mut W) -> (text: ShownText<'a>) {
        ShownText::Literal(*self)
    }
}

/// An erased content.
#[verifier::reject_recursive_types(W)]
struct Content<W> {
    text: Box<dyn TextContent<W>>,
}

/// A content as it is erased.
struct ErasedContent<C> {
    content: C,
}

impl<W, C: TextContent<W>> TextContent<W> for ErasedContent<C> {
    closed spec fn readable(&self, pre: W) -> bool {
        self.content.readable(pre)
    }

    closed spec fn reads_text(&self, pre: W, bytes: Seq<u8>, post: W) -> bool {
        self.content.reads_text(pre, bytes, post)
    }

    fn read<'a>(&'a self, world: &'a mut W) -> (text: ShownText<'a>) {
        self.content.read(world)
    }
}

/// How a text is painted.
#[derive(Clone, Copy, Debug, PartialEq, Eq, Structural)]
pub struct TextStyle {
    pub font: GFont,
    pub text_color: GColor,
    pub background_color: Option<GColor>,
    pub alignment: GTextAlignment,
    pub overflow: GTextOverflowMode,
}

impl TextStyle {
    /// The style of a text unless it is told otherwise.
    pub open spec fn plain() -> TextStyle {
        TextStyle {
            font: GFont::Gothic24,
            text_color: GColor::Black,
            background_color: None,
            alignment: GTextAlignment::Left,
            overflow: GTextOverflowMode::TrailingEllipsis,
        }
    }

    /// The operations that paint `text` in this style.
    pub open spec fn ops<'a>(self, text: ShownText<'a>, frame: GRect) -> Seq<DrawOp<'a>> {
        let background = match self.background_color {
            Some(color) => seq![
                DrawOp::SetFillColor(color),
                DrawOp::FillRect(frame, 0, GCornerMask::GCornerNone),
            ],
            None => seq![],
        };
        background + seq![
            DrawOp::SetTextColor(self.text_color),
            DrawOp::DrawText {
                text,
                font: self.font,
                frame,
                overflow: self.overflow,
                alignment: self.alignment,
            },
        ]
    }
}

/// A text layer that reads its content each time it is painted.
#[verifier::reject_recursive_types(W)]
pub struct Text<W> {
    layer: Layer,
    bounds: GRect,
    content: Content<W>,
    style: TextStyle,
}

impl<W> Text<W> {
    /// The layer of the display.
    pub closed spec fn layer(&self) -> Layer {
        self.layer
    }

    /// Where the layer is.
    pub closed spec fn own_bounds(&self) -> GRect {
        self.bounds
    }

    /// How the text is painted.
    pub closed spec fn style(&self) -> TextStyle {
        self.style
    }

    /// A read of the content in `pre` stays within what it accepts.
    pub closed spec fn readable(&self, pre: W) -> bool {
        self.content.text.readable(pre)
    }

    /// A read of the content in `pre` may show these bytes and leave `post`.
    pub closed spec fn reads_text(&self, pre: W, bytes: Seq<u8>, post: W) -> bool {
        self.content.text.reads_text(pre, bytes, post)
    }

    /// The layer as it is, in another style.
    pub open spec fn restyled(&self, before: &Text<W>, style: TextStyle) -> bool {
        &&& self.style() == style
        &&& self.layer() == before.layer()
        &&& self.own_bounds() == before.own_bounds()
        &&& forall|pre: W| #[trigger] self.readable(pre) <==> before.readable(pre)
        &&& forall|pre: W, bytes: Seq<u8>, post: W| #[trigger]
            self.reads_text(pre, bytes, post) <==> before.reads_text(pre, bytes, post)
    }
}

impl<W: 'static> Text<W> {
    /// A layer that paints `content` in the plain style.
    pub fn new<C: TextContent<W> + 'static>(layer: Layer, bounds: GRect, content: C) -> (this: Self)
        ensures
            this.layer() == layer,
            this.own_bounds() == bounds,
            this.style() == TextStyle::plain(),
            forall|pre: W| #[trigger] this.readable(pre) <==> content.readable(pre),
            forall|pre: W, bytes: Seq<u8>, post: W| #[trigger]
                this.reads_text(pre, bytes, post) <==> content.reads_text(pre, bytes, post),
    {
        let style = TextStyle {
            font: GFont::Gothic24,
            text_color: GColor::Black,
            background_color: None,
            alignment: GTextAlignment::Left,
            overflow: GTextOverflowMode::TrailingEllipsis,
        };
        Text { layer, bounds, content: Content { text: Box::new(ErasedContent { content }) }, style }
    }

    /// The operations that paint the current content: the background, if there is one,
    /// and then the text.
    pub fn paint<'a>(&'a self, world: &'a mut W, frame: GRect) -> (ops: Vec<DrawOp<'a>>)
        requires
            self.readable(*old(world)),
        ensures
            exists|text: ShownText<'a>|
                ops@ == #[trigger] self.style().ops(text, frame) && forall|bytes: Seq<u8>|
                    #[trigger]
                    text.may_show(bytes) ==> self.reads_text(*old(world), bytes, *final(world)),
    {
        let mut ops: Vec<DrawOp<'a>> = Vec::new();
        if let Some(color) = self.style.background_color {
            ops.push(DrawOp::SetFillColor(color));
            ops.push(DrawOp::FillRect(frame, 0, GCornerMask::GCornerNone));
        }
        ops.push(DrawOp::SetTextColor(self.style.text_color));
        let text = self.content.text.read(world);
        let ghost read = text;
        ops.push(
            DrawOp::DrawText {
                text,
                font: self.style.font,
                frame,
                overflow: self.style.overflow,
                alignment: self.style.alignment,
            },
        );
        assert(ops@ =~= self.style().ops(read, frame));
        ops
    }

    /// Where the layer is.
    pub fn bounds(&self) -> (bounds: GRect)
        ensures
            bounds == self.own_bounds(),
    {
        self.bounds
    }

    /// Ask for the layer to be painted again.
    pub fn render(&self) -> (repaint: Repaint)
        ensures
            repaint == Repaint::Layer(self.layer()),
    {
        Repaint::Layer(self.layer)
    }

    pub fn set_font(&mut self, font: GFont) -> (repaint: Repaint)
        ensures
            repaint == Repaint::Layer(old(self).layer()),
            final(self).restyled(old(self), TextStyle { font, ..old(self).style() }),
    {
        self.style.font = font;
        self.render()
    }

    pub fn set_text_color(&mut self, color: GColor) -> (repaint: Repaint)
        ensures
            repaint == Repaint::Layer(old(self).layer()),
            final(self).restyled(
                old(self),
                TextStyle { text_color: color, ..old(self).style() },
            ),
    {
        self.style.text_color = color;
        self.render()
    }

    pub fn set_background_color(&mut self, color: GColor) -> (repaint: Repaint)
        ensures
            repaint == Repaint::Layer(old(self).layer()),
            final(self).restyled(
                old(self),
                TextStyle { background_color: Some(color), ..old(self).style() },
            ),
    {
        self.style.background_color = Some(color);
        self.render()
    }

    pub fn set_text_alignment(&mut self, alignment: GTextAlignment) -> (repaint: Repaint)
        ensures
            repaint == Repaint::Layer(old(self).layer()),
            final(self).restyled(old(self), TextStyle { alignment, ..old(self).style() }),
    {
        self.style.alignment = alignment;
        self.render()
    }

    pub fn set_overflow(&mut self, overflow: GTextOverflowMode) -> (repaint: Repaint)
        ensures
            repaint == Repaint::Layer(old(self).layer()),
            final(self).restyled(old(self), TextStyle { overflow, ..old(self).style() }),
    {
        self.style.overflow = overflow;
        self.render()
    }
}

} // verus!
