//! The builder: the cursor through which one widget or group is declared.
//! It carries the identity it declares for, the layout it hands slots out
//! of, the paint it accumulates, and the only access path to the frame
//! context for as long as it lives. Its paint becomes a layer when, and only
//! when, it is finished.
//!
//! A builder borrows its context. Each method that changes the builder says
//! two things of it: what the builder holds afterwards, by its view, and that
//! it is still bound to the same context, which is to say that the context
//! its borrow will leave behind, `*final(builder.context)`, is the one it
//! would have left behind before the call.

use vstd::prelude::*;
use crate::button::{Button, ButtonResponse};
use crate::context::{Context, ContextView};
use crate::id::Id;
use crate::input_state::InputState;
use crate::label::Label;
use crate::layout::Layout;
use crate::painter::{Painter, PainterView};
use crate::style::{
    law_push_pop_restores, popped, pushed, Style, StyleCategory, StyleMap, StyleValue,
};

verus! {

/// An open scope of the interface under construction.
pub struct Builder<'a> {
    pub id: Id,
    pub layout: Layout,
    pub painter: Painter,
    pub context: &'a mut Context,
}

/// What a builder holds, the frame context it is bound to included.
pub struct BuilderView {
    pub id: Id,
    pub layout: Layout,
    pub painter: PainterView,
    pub context: ContextView,
}

impl BuilderView {
    /// The same builder over a changed context.
    pub open spec fn with_context(self, context: ContextView) -> BuilderView {
        BuilderView { context, ..self }
    }

    /// The same builder with another layout.
    pub open spec fn with_layout(self, layout: Layout) -> BuilderView {
        BuilderView { layout, ..self }
    }

    /// The same builder over a context with a changed style register.
    pub open spec fn with_style(self, style: Map<StyleCategory, Seq<StyleValue>>) -> BuilderView {
        BuilderView { context: ContextView { style, ..self.context }, ..self }
    }

    /// The builder as a scope sees it that has pushed `value`.
    pub open spec fn styled(self, value: StyleValue) -> BuilderView {
        self.with_style(pushed(self.context.style, value))
    }
}

impl<'a> View for Builder<'a> {
    type V = BuilderView;

    open spec fn view(&self) -> BuilderView {
        BuilderView {
            id: self.id,
            layout: self.layout,
            painter: self.painter@,
            context: (*self.context)@,
        }
    }
}

impl<'a> Builder<'a> {
    /// Opens a builder for `id` over `context`, with nothing painted yet.
    /// Whatever the builder does to the context is done to `context`.
    pub fn new(id: Id, layout: Layout, context: &'a mut Context) -> (builder: Builder<'a>)
        ensures
            builder@ == (BuilderView {
                id,
                layout,
                painter: PainterView { region: layout.bounds, shapes: Seq::empty() },
                context: old(context)@,
            }),
            *final(builder.context) == *final(context),
    {
        Builder { id, layout, painter: Painter::new(layout.bounds), context }
    }

    /// Closes the builder: its paint becomes the last layer of the frame.
    /// A builder that is dropped without this call leaves no layer.
    pub fn finish(self)
        ensures
            final(self.context)@ == old(self.context)@.push_layer(self.id, self.painter@),
    {
        self.context.push_layer(self.id, self.painter)
    }

    /// The input sampled for this frame.
    pub fn input(&self) -> (input: &InputState)
        ensures
            *input == self@.context.input,
    {
        &self.context.input
    }

    /// The style register, for overrides. What the caller does to the
    /// register is done to the context's register; nothing else changes.
    pub fn style(&mut self) -> (style: &mut StyleMap)
        ensures
            style@ == old(self)@.context.style,
            final(self)@ == old(self)@.with_style(final(style)@),
            *final(final(self).context) == *final(old(self).context),
    {
        &mut self.context.style
    }

    /// Tests whether `id` holds focus.
    pub fn is_focused(&self, id: Id) -> (focused: bool)
        ensures
            focused == self@.context.is_focused(id),
    {
        self.context.is_focused(id)
    }

    /// Tests whether `id` is the hovered widget.
    pub fn is_hovered(&self, id: Id) -> (hovered: bool)
        ensures
            hovered == self@.context.is_hovered(id),
    {
        self.context.is_hovered(id)
    }

    /// Claims focus for `id`: succeeds, and returns `true`, exactly when no
    /// widget held focus.
    pub fn focus(&mut self, id: Id) -> (claimed: bool)
        ensures
            claimed == old(self)@.context.focus_is_free(),
            final(self)@ == old(self)@.with_context(old(self)@.context.focus(id)),
            *final(final(self).context) == *final(old(self).context),
    {
        self.context.focus(id)
    }

    /// Hands focus to `id`, whoever held it.
    pub fn force_focus(&mut self, id: Id)
        ensures
            final(self)@ == old(self)@.with_context(old(self)@.context.force_focus(id)),
            *final(final(self).context) == *final(old(self).context),
    {
        self.context.force_focus(id);
    }

    /// Gives up focus on behalf of `id`: releases it, and returns `true`,
    /// exactly when `id` held it.
    pub fn unfocus(&mut self, id: Id) -> (released: bool)
        ensures
            released == old(self)@.context.is_focused(id),
            final(self)@ == old(self)@.with_context(old(self)@.context.unfocus(id)),
            *final(final(self).context) == *final(old(self).context),
    {
        self.context.unfocus(id)
    }

    /// Marks `id` as the hovered widget, whichever was before.
    pub fn hover(&mut self, id: Id)
        ensures
            final(self)@ == old(self)@.with_context(old(self)@.context.hover(id)),
            *final(final(self).context) == *final(old(self).context),
    {
        self.context.hover(id);
    }

    /// Takes the hover mark off `id`: removes it, and returns `true`,
    /// exactly when `id` was hovered.
    pub fn unhover(&mut self, id: Id) -> (released: bool)
        ensures
            released == old(self)@.context.is_hovered(id),
            final(self)@ == old(self)@.with_context(old(self)@.context.unhover(id)),
            *final(final(self).context) == *final(old(self).context),
    {
        self.context.unhover(id)
    }

    /// Builds a button with this label into the next slot and says what the
    /// pointer did to it. The button is named by its label.
    pub fn button(&mut self, label: &str) -> (response: ButtonResponse)
        ensures
            response == old(self)@.button_response(Id::of_label(label@)),
            final(self)@ == old(self)@.button_built(Id::of_label(label@), label@),
            *final(final(self).context) == *final(old(self).context),
    {
        Button::new(label).build(self)
    }

    /// Builds a label with this text into the next slot.
    pub fn label(&mut self, label: &str)
        ensures
            final(self)@ == old(self)@.label_built(label@),
            *final(final(self).context) == *final(old(self).context),
    {
        Label::new(label).build(self)
    }

    /// Runs `content` with `layout` in place of the builder's own, and puts
    /// the builder's own layout back afterwards, whatever `content` did to
    /// the one it ran with. Everything else that `content` did stays done.
    pub fn layout(&mut self, layout: Layout, content: impl FnOnce(&mut Builder))
        requires
            forall|scope: &mut Builder|
                scope@ == old(self)@.with_layout(layout) ==> call_requires(content, (scope,)),
        ensures
            final(self)@.layout == old(self)@.layout,
            (exists|scope: &mut Builder|
                {
                    &&& scope@ == old(self)@.with_layout(layout)
                    &&& *final(scope.context) == *final(old(self).context)
                    &&& #[trigger] call_ensures(content, (scope,), ())
                    &&& final(self)@ == final(scope)@.with_layout(old(self)@.layout)
                    &&& *final(final(self).context) == *final(final(scope).context)
                }),
    {
        let current = self.layout;
        self.layout = layout;
        assert(self@ == old(self)@.with_layout(layout));
        content(self);
        self.layout = current;
    }

    /// Runs `contents` with `in_style` pushed onto its category's stack, and
    /// pops that category again afterwards. `contents` must leave a value to
    /// pop. Where `contents` leaves the register as it found it, the register
    /// is afterwards what it was before the call.
    pub fn scoped_style<T: Style>(&mut self, in_style: T, contents: impl FnOnce(&mut Builder))
        requires
            forall|scope: &mut Builder|
                scope@ == old(self)@.styled(in_style.as_value()) ==> call_requires(
                    contents,
                    (scope,),
                ),
            forall|scope: &mut Builder|
                scope@ == old(self)@.styled(in_style.as_value()) && #[trigger] call_ensures(
                    contents,
                    (scope,),
                    (),
                ) ==> final(scope)@.context.style[T::category()].len() > 0,
        ensures
            (exists|scope: &mut Builder|
                {
                    &&& scope@ == old(self)@.styled(in_style.as_value())
                    &&& *final(scope.context) == *final(old(self).context)
                    &&& #[trigger] call_ensures(contents, (scope,), ())
                    &&& final(self)@ == final(scope)@.with_style(
                        popped(final(scope)@.context.style, T::category()),
                    )
                    &&& *final(final(self).context) == *final(final(scope).context)
                }),
            (forall|scope: &mut Builder|
                scope@ == old(self)@.styled(in_style.as_value()) && #[trigger] call_ensures(
                    contents,
                    (scope,),
                    (),
                ) ==> final(scope)@.context.style == scope@.context.style)
                ==> final(self)@.context.style == old(self)@.context.style,
    {
        proof {
            self.context.style.lemma_well_typed();
            in_style.lemma_tagged();
        }
        self.style().push(in_style);
        assert(self@ == old(self)@.styled(in_style.as_value()));
        contents(self);
        self.style().pop::<T>();
        proof {
            law_push_pop_restores(old(self)@.context.style, in_style.as_value());
        }
    }
}

} // verus!
