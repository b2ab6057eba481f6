//! Content indicators as a layer.
//!
//! A root layer hosts two thin strips, at the top and at the bottom; a single indicator
//! paints an arrow into each, driven by a `State<W, bool>` per direction.
use vstd::prelude::*;

use crate::graphics::{GAlign, GColor, GPoint, GRect, GSize};
use crate::state::State;

verus! {

/// The height of a strip.
pub const CONTENT_INDICATOR_STRIP_HEIGHT: i16 = 18;

#[derive(Clone, Copy, Debug, PartialEq, Eq, Structural)]
pub enum ContentIndicatorDirection {
    Up,
    Down,
}

/// How the arrow of one direction is set up.
#[derive(Clone, Copy, Debug, PartialEq, Eq, Structural)]
pub struct IndicatorConfig {
    pub direction: ContentIndicatorDirection,
    pub times_out: bool,
    pub alignment: GAlign,
    pub foreground: GColor,
    pub background: GColor,
}

/// What the display has to do for the layer.
#[derive(Clone, Copy, Debug, PartialEq, Eq, Structural)]
pub enum IndicatorStep {
    /// Create the root layer.
    CreateRoot(GRect),
    /// Create the strip of a direction.
    CreateHost(ContentIndicatorDirection, GRect),
    /// Add the strip of a direction to the root layer.
    AddHost(ContentIndicatorDirection),
    /// Create the indicator.
    CreateIndicator,
    /// Set up the arrow of a direction in its strip.
    Configure(IndicatorConfig),
    /// Say whether there is content in a direction.
    SetContentAvailable(ContentIndicatorDirection, bool),
}

/// The strip at the top.
pub open spec fn up_strip(bounds: GRect) -> GRect {
    GRect {
        origin: GPoint { x: 0, y: 0 },
        size: GSize { w: bounds.size.w, h: CONTENT_INDICATOR_STRIP_HEIGHT },
    }
}

/// The strip at the bottom.
pub open spec fn down_strip(bounds: GRect) -> GRect {
    GRect {
        origin: GPoint { x: 0, y: (bounds.size.h - CONTENT_INDICATOR_STRIP_HEIGHT) as i16 },
        size: GSize { w: bounds.size.w, h: CONTENT_INDICATOR_STRIP_HEIGHT },
    }
}

/// The set-up of the arrow of a direction.
pub open spec fn arrow(direction: ContentIndicatorDirection) -> IndicatorConfig {
    IndicatorConfig {
        direction,
        times_out: false,
        alignment: GAlign::Center,
        foreground: GColor::Black,
        background: GColor::Clear,
    }
}

/// The steps that build the layer.
pub open spec fn building(bounds: GRect) -> Seq<IndicatorStep> {
    seq![
        IndicatorStep::CreateRoot(bounds),
        IndicatorStep::CreateHost(ContentIndicatorDirection::Up, up_strip(bounds)),
        IndicatorStep::CreateHost(ContentIndicatorDirection::Down, down_strip(bounds)),
        IndicatorStep::AddHost(ContentIndicatorDirection::Up),
        IndicatorStep::AddHost(ContentIndicatorDirection::Down),
        IndicatorStep::CreateIndicator,
        IndicatorStep::Configure(arrow(ContentIndicatorDirection::Up)),
        IndicatorStep::Configure(arrow(ContentIndicatorDirection::Down)),
    ]
}

/// The steps that show which directions have content.
pub open spec fn showing(up: bool, down: bool) -> Seq<IndicatorStep> {
    seq![
        IndicatorStep::SetContentAvailable(ContentIndicatorDirection::Up, up),
        IndicatorStep::SetContentAvailable(ContentIndicatorDirection::Down, down),
    ]
}

/// A layer with an arrow at the top and one at the bottom.
#[verifier::reject_recursive_types(W)]
pub struct ContentIndicatorLayer<W> {
    up: State<W, bool>,
    down: State<W, bool>,
}

/// Both states can be read, the second after the first.
pub open spec fn both_readable<W>(up: State<W, bool>, down: State<W, bool>, pre: W) -> bool {
    &&& up.readable(pre)
    &&& forall|value: bool, mid: W| #[trigger]
        up.reads(pre, value, mid) ==> down.readable(mid)
}

/// Reading the one state and then the other may show `a` and `b`, and leave `post`.
pub open spec fn both_read<W>(
    up: State<W, bool>,
    down: State<W, bool>,
    pre: W,
    a: bool,
    b: bool,
    post: W,
) -> bool {
    exists|mid: W| #[trigger] up.reads(pre, a, mid) && down.reads(mid, b, post)
}

impl<W> ContentIndicatorLayer<W> {
    /// Whether there is content above.
    pub closed spec fn up(&self) -> State<W, bool> {
        self.up
    }

    /// Whether there is content below.
    pub closed spec fn down(&self) -> State<W, bool> {
        self.down
    }
}

impl<W: 'static> ContentIndicatorLayer<W> {
    /// Build the layer over a window with these bounds, and show which directions have
    /// content.
    pub fn new(
        world: &mut W,
        window_bounds: GRect,
        up: State<W, bool>,
        down: State<W, bool>,
    ) -> (built: (Self, Vec<IndicatorStep>))
        requires
            window_bounds.size.h - CONTENT_INDICATOR_STRIP_HEIGHT >= i16::MIN,
            both_readable(up, down, *old(world)),
        ensures
            built.0.up() == up,
            built.0.down() == down,
            exists|a: bool, b: bool| #[trigger]
                both_read(up, down, *old(world), a, b, *final(world)) && built.1@ == building(
                    window_bounds,
                ) + showing(a, b),
    {
        let mut steps: Vec<IndicatorStep> = Vec::new();
        let w: i16 = window_bounds.size.w;
        let up_host = GRect::new(0, 0, w, CONTENT_INDICATOR_STRIP_HEIGHT);
        let down_host = GRect::new(
            0,
            window_bounds.size.h - CONTENT_INDICATOR_STRIP_HEIGHT,
            w,
            CONTENT_INDICATOR_STRIP_HEIGHT,
        );
        steps.push(IndicatorStep::CreateRoot(window_bounds));
        steps.push(IndicatorStep::CreateHost(ContentIndicatorDirection::Up, up_host));
        steps.push(IndicatorStep::CreateHost(ContentIndicatorDirection::Down, down_host));
        steps.push(IndicatorStep::AddHost(ContentIndicatorDirection::Up));
        steps.push(IndicatorStep::AddHost(ContentIndicatorDirection::Down));
        steps.push(IndicatorStep::CreateIndicator);
        steps.push(configure(ContentIndicatorDirection::Up));
        steps.push(configure(ContentIndicatorDirection::Down));
        assert(steps@ =~= building(window_bounds));
        let this = ContentIndicatorLayer { up, down };
        let mut shown = this.render(world);
        steps.append(&mut shown);
        (this, steps)
    }

    /// Show which directions have content now.
    pub fn render(&self, world: &mut W) -> (steps: Vec<IndicatorStep>)
        requires
            both_readable(self.up(), self.down(), *old(world)),
        ensures
            exists|a: bool, b: bool| #[trigger]
                both_read(self.up(), self.down(), *old(world), a, b, *final(world)) && steps@
                    == showing(a, b),
    {
        let above = self.up.read(world);
        let a: bool = *above.get();
        assert(above.points_to(&a));
        assert(self.up.reads(*old(world), a, *world));
        let ghost mid = *world;
        let below = self.down.read(world);
        let b: bool = *below.get();
        assert(below.points_to(&b));
        assert(self.down.reads(mid, b, *world));
        assert(both_read(self.up, self.down, *old(world), a, b, *world));
        let mut steps: Vec<IndicatorStep> = Vec::new();
        steps.push(IndicatorStep::SetContentAvailable(ContentIndicatorDirection::Up, a));
        steps.push(IndicatorStep::SetContentAvailable(ContentIndicatorDirection::Down, b));
        assert(steps@ =~= showing(a, b));
        steps
    }
}

/// The step that sets up the arrow of a direction.
fn configure(direction: ContentIndicatorDirection) -> (step: IndicatorStep)
    ensures
        step == IndicatorStep::Configure(arrow(direction)),
{
    IndicatorStep::Configure(
        IndicatorConfig {
            direction,
            times_out: false,
            alignment: GAlign::Center,
            foreground: GColor::Black,
            background: GColor::Clear,
        },
    )
}

} // verus!
