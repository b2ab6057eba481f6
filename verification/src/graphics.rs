//! The display as plain values: handles, geometry, colors, and the operations that paint.
use vstd::prelude::*;

use crate::state::Shown;

verus! {

/// A handle to a layer of the display.
#[derive(Clone, Copy, Debug, PartialEq, Eq, Structural)]
pub struct Layer {
    pub raw: usize,
}

/// A handle to a window of the display.
#[derive(Clone, Copy, Debug, PartialEq, Eq, Structural)]
pub struct Window {
    pub raw: usize,
}

#[derive(Clone, Copy, Debug, PartialEq, Eq, Structural)]
pub struct GPoint {
    pub x: i16,
    pub y: i16,
}

#[derive(Clone, Copy, Debug, PartialEq, Eq, Structural)]
pub struct GSize {
    pub w: i16,
    pub h: i16,
}

#[derive(Clone, Copy, Debug, PartialEq, Eq, Structural)]
pub struct GRect {
    pub origin: GPoint,
    pub size: GSize,
}

impl GRect {
    pub fn new(x: i16, y: i16, w: i16, h: i16) -> (rect: Self)
        ensures
            rect == (GRect { origin: GPoint { x, y }, size: GSize { w, h } }),
    {
        GRect { origin: GPoint { x, y }, size: GSize { w, h } }
    }
}

#[derive(Clone, Copy, Debug, PartialEq, Eq, Structural)]
pub enum GColor {
    Clear,
    Black,
    White,
    /// Two bits each of alpha, red, green and blue.
    Argb(u8),
}

#[derive(Clone, Copy, Debug, PartialEq, Eq, Structural)]
pub enum GAlign {
    Center,
    TopLeft,
    TopRight,
    Top,
    Left,
    Bottom,
    Right,
    BottomRight,
    BottomLeft,
}

#[derive(Clone, Copy, Debug, PartialEq, Eq, Structural)]
pub enum GTextAlignment {
    Left,
    Center,
    Right,
}

#[derive(Clone, Copy, Debug, PartialEq, Eq, Structural)]
pub enum GTextOverflowMode {
    WordWrap,
    TrailingEllipsis,
    Fill,
}

/// Which corners of a rectangle are rounded.
#[derive(Clone, Copy, Debug, PartialEq, Eq, Structural)]
pub enum GCornerMask {
    GCornerNone,
    GCornersAll,
}

#[derive(Clone, Copy, Debug, PartialEq, Eq, Structural)]
pub enum GFont {
    /// The system font Gothic, 24 pixels.
    Gothic24,
    /// A font that was loaded, by its handle.
    Loaded(usize),
}

/// No byte is zero, so the bytes can stand in a string that ends with a zero.
pub open spec fn has_no_zero(bytes: Seq<u8>) -> bool {
    forall|i: int| 0 <= i < bytes.len() ==> #[trigger] bytes[i] != 0
}

/// Whether no byte is zero.
fn check_no_zero(bytes: &[u8]) -> (ok: bool)
    ensures
        ok == has_no_zero(bytes@),
{
    let mut i: usize = 0;
    while i < bytes.len()
        invariant
            i <= bytes.len(),
            forall|j: int| 0 <= j < i ==> #[trigger] bytes@[j] != 0,
        decreases bytes.len() - i,
    {
        if bytes[i] == 0 {
            return false;
        }
        i += 1;
    }
    true
}

/// A text to paint: the bytes of a string without its terminator. It holds no zero.
pub struct TextBuf {
    bytes: Vec<u8>,
}

impl View for TextBuf {
    type V = Seq<u8>;

    closed spec fn view(&self) -> Seq<u8> {
        self.bytes@
    }
}

impl TextBuf {
    #[verifier::type_invariant]
    spec fn is_string(self) -> bool {
        has_no_zero(self.bytes@)
    }

    /// A text of these bytes, unless one of them is zero.
    pub fn new(bytes: Vec<u8>) -> (text: Option<TextBuf>)
        ensures
            match text {
                Some(text) => has_no_zero(bytes@) && text@ == bytes@,
                None => !has_no_zero(bytes@),
            },
    {
        if check_no_zero(bytes.as_slice()) {
            Some(TextBuf { bytes })
        } else {
            None
        }
    }

    /// The bytes of the text.
    pub fn bytes(&self) -> (bytes: &[u8])
        ensures
            bytes@ == self@,
            has_no_zero(bytes@),
    {
        proof {
            use_type_invariant(self);
        }
        self.bytes.as_slice()
    }
}

/// A text that is part of the program. It holds no zero.
#[derive(Clone, Copy)]
pub struct TextLiteral {
    bytes: &'static [u8],
}

impl View for TextLiteral {
    type V = Seq<u8>;

    closed spec fn view(&self) -> Seq<u8> {
        self.bytes@
    }
}

impl TextLiteral {
    #[verifier::type_invariant]
    spec fn is_string(self) -> bool {
        has_no_zero(self.bytes@)
    }

    /// A text of these bytes, unless one of them is zero.
    pub fn new(bytes: &'static [u8]) -> (text: Option<TextLiteral>)
        ensures
            match text {
                Some(text) => has_no_zero(bytes@) && text@ == bytes@,
                None => !has_no_zero(bytes@),
            },
    {
        if check_no_zero(bytes) {
            Some(TextLiteral { bytes })
        } else {
            None
        }
    }

    /// The bytes of the text.
    pub fn bytes(&self) -> (bytes: &'static [u8])
        ensures
            bytes@ == self@,
            has_no_zero(bytes@),
    {
        proof {
            use_type_invariant(self);
        }
        self.bytes
    }
}

/// A text as it is shown: read from a state, or a literal.
pub enum ShownText<'a> {
    Read(Shown<'a, TextBuf>),
    Literal(TextLiteral),
}

impl<'a> ShownText<'a> {
    /// An access may show these bytes.
    pub open spec fn may_show(&self, bytes: Seq<u8>) -> bool {
        match *self {
            ShownText::Read(shown) => exists|text: TextBuf| #[trigger]
                shown.points_to(&text) && text@ == bytes,
            ShownText::Literal(literal) => literal@ == bytes,
        }
    }

    /// The bytes of the text.
    pub fn bytes(&self) -> (bytes: &[u8])
        ensures
            self.may_show(bytes@),
            has_no_zero(bytes@),
    {
        match self {
            ShownText::Read(shown) => shown.get().bytes(),
            ShownText::Literal(literal) => literal.bytes(),
        }
    }
}

/// One operation on a drawing surface.
pub enum DrawOp<'a> {
    SetFillColor(GColor),
    FillRect(GRect, u16, GCornerMask),
    SetTextColor(GColor),
    /// Draw a text into a frame.
    DrawText {
        text: ShownText<'a>,
        font: GFont,
        frame: GRect,
        overflow: GTextOverflowMode,
        alignment: GTextAlignment,
    },
}

} // verus!
