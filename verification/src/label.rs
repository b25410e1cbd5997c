//! The label: one line of text in the next slot.

use vstd::prelude::*;
use crate::builder::{Builder, BuilderView};
use crate::painter::ShapeView;
use crate::style::{line_extent, top, ColorStyle, Style, StyleCategory};

verus! {

/// A label that waits to be built.
pub struct Label {
    pub label: String,
}

impl BuilderView {
    /// The builder after a label has been built: the layout has handed out
    /// the label's slot and the text has been painted into it. The context is
    /// as it was.
    pub open spec fn label_built(self, label: Seq<char>) -> BuilderView {
        let colors = ColorStyle::of_value(top(self.context.style, StyleCategory::Color));
        BuilderView {
            layout: self.layout.advanced(line_extent(self.context.style)),
            painter: self.painter.with(
                ShapeView::Text { bounds: self.line_slot(), color: colors.foreground, text: label },
            ),
            ..self
        }
    }
}

impl Label {
    /// A label with this text.
    pub fn new(label: &str) -> (made: Label)
        ensures
            made.label@ == label@,
    {
        Label { label: label.to_owned() }
    }

    /// Builds the label into the next slot of `builder`.
    pub fn build(self, builder: &mut Builder)
        ensures
            final(builder)@ == old(builder)@.label_built(self.label@),
            *final(final(builder).context) == *final(old(builder).context),
    {
        let colors: ColorStyle = builder.context.style.get();
        let extent = builder.context.style.line_extent();
        let slot = builder.layout.allocate(extent);
        builder.painter.text(slot, colors.foreground, self.label.as_str());
    }
}

} // verus!
