//! The paint accumulator: the draw primitives of one widget or group, in
//! the order in which they were issued, and the region they were laid out
//! for. A back end draws them first to last.

use vstd::prelude::*;
use crate::geometry::Rect;

verus! {

/// One draw primitive. Colours are packed as `0xRRGGBBAA`.
#[derive(Debug, PartialEq, Eq)]
pub enum Shape {
    /// A filled rectangle.
    Solid { bounds: Rect, color: u32 },
    /// A line of text set inside a rectangle.
    Text { bounds: Rect, color: u32, text: String },
}

/// What a draw primitive is, with its text as a sequence of characters.
pub enum ShapeView {
    Solid { bounds: Rect, color: u32 },
    Text { bounds: Rect, color: u32, text: Seq<char> },
}

impl View for Shape {
    type V = ShapeView;

    open spec fn view(&self) -> ShapeView {
        match *self {
            Shape::Solid { bounds, color } => ShapeView::Solid { bounds, color },
            Shape::Text { bounds, color, text } => ShapeView::Text { bounds, color, text: text@ },
        }
    }
}

/// The draw primitives issued so far for one region.
#[derive(Debug, PartialEq, Eq)]
pub struct Painter {
    pub region: Rect,
    pub shapes: Vec<Shape>,
}

/// What a paint accumulator holds: its region and its primitives, first
/// issued first.
pub struct PainterView {
    pub region: Rect,
    pub shapes: Seq<ShapeView>,
}

impl PainterView {
    /// The accumulator after one more primitive has been issued.
    pub open spec fn with(self, shape: ShapeView) -> PainterView {
        PainterView { shapes: self.shapes.push(shape), ..self }
    }
}

impl View for Painter {
    type V = PainterView;

    open spec fn view(&self) -> PainterView {
        PainterView {
            region: self.region,
            shapes: Seq::new(self.shapes@.len(), |at: int| self.shapes@[at]@),
        }
    }
}

impl Painter {
    /// An accumulator for `region` that holds no primitive yet.
    pub fn new(region: Rect) -> (painter: Painter)
        ensures
            painter@ == (PainterView { region, shapes: Seq::empty() }),
    {
        let painter = Painter { region, shapes: Vec::new() };
        assert(painter@.shapes =~= Seq::empty());
        painter
    }

    /// Issues a filled rectangle, to be drawn over all that was issued
    /// before.
    pub fn rect(&mut self, bounds: Rect, color: u32)
        ensures
            final(self)@ == old(self)@.with(ShapeView::Solid { bounds, color }),
    {
        self.shapes.push(Shape::Solid { bounds, color });
        assert(self@.shapes =~= old(self)@.shapes.push(ShapeView::Solid { bounds, color }));
    }

    /// Issues a line of text, to be drawn over all that was issued before.
    pub fn text(&mut self, bounds: Rect, color: u32, text: &str)
        ensures
            final(self)@ == old(self)@.with(ShapeView::Text { bounds, color, text: text@ }),
    {
        self.shapes.push(Shape::Text { bounds, color, text: text.to_owned() });
        assert(self@.shapes =~= old(self)@.shapes.push(
            ShapeView::Text { bounds, color, text: text@ },
        ));
    }
}

} // verus!
