//! The button: a labelled slot that answers the pointer. It is built from
//! the builder's own primitives and from nothing else.

use vstd::prelude::*;
use crate::builder::{Builder, BuilderView};
use crate::context::ContextView;
use crate::geometry::Rect;
use crate::id::Id;
use crate::painter::ShapeView;
use crate::style::{line_extent, top, ColorStyle, Style, StyleCategory};

verus! {

/// What the pointer did to a button in this frame.
#[derive(Copy, Clone, Debug, PartialEq, Eq, Structural)]
pub enum ButtonResponse {
    /// The pointer is elsewhere.
    Inactive,
    /// The pointer is over the button.
    Hovered,
    /// The primary button came up over the button while it held focus.
    Clicked,
}

/// A button that waits to be built.
pub struct Button {
    pub id: Id,
    pub label: String,
}

impl BuilderView {
    /// The slot that the next one-line widget gets.
    pub open spec fn line_slot(self) -> Rect {
        self.layout.slot(line_extent(self.context.style))
    }

    /// Whether the pointer is over the slot of the next one-line widget.
    pub open spec fn over_line(self) -> bool {
        self.context.input.over(self.line_slot())
    }

    /// The context once the button `id` has taken note of the pointer: it is
    /// hovered exactly while the pointer is over its slot, as far as the mark
    /// was its own to remove, and it has claimed focus if the primary button
    /// went down over it.
    pub open spec fn button_engaged(self, id: Id) -> ContextView {
        let noted = if self.over_line() {
            self.context.hover(id)
        } else {
            self.context.unhover(id)
        };
        if self.over_line() && self.context.input.pressed() {
            noted.focus(id)
        } else {
            noted
        }
    }

    /// The context that the button `id` leaves: as it was engaged, with
    /// focus given up again if the primary button came up.
    pub open spec fn button_context(self, id: Id) -> ContextView {
        if self.context.input.released() {
            self.button_engaged(id).unfocus(id)
        } else {
            self.button_engaged(id)
        }
    }

    /// What the button `id` answers: a click when the primary button came up
    /// over it while it held focus, else whether the pointer is over it.
    pub open spec fn button_response(self, id: Id) -> ButtonResponse {
        if self.context.input.released() && self.button_engaged(id).is_focused(id)
            && self.over_line() {
            ButtonResponse::Clicked
        } else if self.over_line() {
            ButtonResponse::Hovered
        } else {
            ButtonResponse::Inactive
        }
    }

    /// The colour behind the button `id`: that of a focused widget while it
    /// holds focus, else that of a hovered one under the pointer, else that of
    /// an inactive one.
    pub open spec fn button_background(self, id: Id) -> u32 {
        let colors = ColorStyle::of_value(top(self.context.style, StyleCategory::Color));
        if self.button_context(id).is_focused(id) {
            colors.focused_background
        } else if self.over_line() {
            colors.hovered_background
        } else {
            colors.inactive_background
        }
    }

    /// The builder after the button `id` has been built: the layout has
    /// handed out the button's slot, the context has taken the button's
    /// claims and releases, and the button's background and its label have
    /// been painted into the slot, in this order.
    pub open spec fn button_built(self, id: Id, label: Seq<char>) -> BuilderView {
        let colors = ColorStyle::of_value(top(self.context.style, StyleCategory::Color));
        BuilderView {
            id: self.id,
            layout: self.layout.advanced(line_extent(self.context.style)),
            painter: self.painter.with(
                ShapeView::Solid { bounds: self.line_slot(), color: self.button_background(id) },
            ).with(
                ShapeView::Text { bounds: self.line_slot(), color: colors.foreground, text: label },
            ),
            context: self.button_context(id),
        }
    }
}

impl Button {
    /// A button with this label, named by it.
    pub fn new(label: &str) -> (button: Button)
        ensures
            button.id == Id::of_label(label@),
            button.label@ == label@,
    {
        Button { id: Id::make(label), label: label.to_owned() }
    }

    /// Builds the button into the next slot of `builder` and says what the
    /// pointer did to it.
    pub fn build(self, builder: &mut Builder) -> (response: ButtonResponse)
        ensures
            response == old(builder)@.button_response(self.id),
            final(builder)@ == old(builder)@.button_built(self.id, self.label@),
            *final(final(builder).context) == *final(old(builder).context),
    {
        let id = self.id;
        let colors: ColorStyle = builder.context.style.get();
        let extent = builder.context.style.line_extent();
        let slot = builder.layout.allocate(extent);
        let over = builder.input().mouse_is_over(slot);
        if over {
            builder.hover(id);
        } else {
            builder.unhover(id);
        }
        if over && builder.input().was_primary_pressed() {
            builder.focus(id);
        }
        let mut response = if over {
            ButtonResponse::Hovered
        } else {
            ButtonResponse::Inactive
        };
        if builder.input().was_primary_released() {
            if builder.unfocus(id) && over {
                response = ButtonResponse::Clicked;
            }
        }
        let background = if builder.is_focused(id) {
            colors.focused_background
        } else if over {
            colors.hovered_background
        } else {
            colors.inactive_background
        };
        builder.painter.rect(slot, background);
        builder.painter.text(slot, colors.foreground, self.label.as_str());
        response
    }
}

} // verus!
